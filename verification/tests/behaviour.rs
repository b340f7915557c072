use resourceful::{AtomicBudget, Budget, BudgetValue, SyncBudget};

#[test]
fn basic_usage_restores_budget() {
    let mut budget = SyncBudget::new(100u32);
    let allocation = budget.allocate(30).expect("Failed to allocate");
    assert_eq!(budget.remaining(), 70);
    budget.free(allocation);
    assert_eq!(budget.remaining(), 100);
}

#[test]
fn preventing_over_allocation() {
    let mut budget = SyncBudget::new(50u32);
    let alloc1 = budget.allocate(30).expect("First allocation should succeed");
    assert_eq!(budget.remaining(), 20);
    assert!(budget.allocate(25).is_none());
    assert_eq!(budget.remaining(), 20);
    budget.free(alloc1);
    let alloc3 = budget.allocate(25).expect("Allocation should succeed now");
    assert_eq!(alloc3.amount(), 25);
    assert_eq!(budget.remaining(), 25);
}

#[test]
fn checking_capacity() {
    let mut budget = SyncBudget::new(100u32);
    assert!(budget.has_capacity(50));
    assert!(!budget.has_capacity(150));
    assert!(budget.is_full());
    assert!(!budget.is_empty());
    let allocation = budget.allocate(100).unwrap();
    assert!(budget.is_empty());
    assert!(!budget.is_full());
    assert!(budget.has_capacity(0));
    assert!(!budget.has_capacity(1));
    budget.free(allocation);
    assert!(budget.is_full());
}

#[test]
fn allocation_amount_reported() {
    let mut budget = SyncBudget::new(10u32);
    let good = budget.allocate(5).unwrap();
    assert_eq!(good.amount(), 5);
    assert!(budget.allocate(7).is_none());
}

#[test]
fn zero_allocation_always_succeeds() {
    let mut budget = SyncBudget::new(0u64);
    assert!(budget.is_full());
    assert!(budget.is_empty());
    let a = budget.allocate(0).expect("zero fits");
    assert_eq!(a.amount(), 0);
    assert_eq!(budget.remaining(), 0);
    budget.free(a);
    assert_eq!(budget.remaining(), 0);
}

#[test]
fn free_is_capped_at_max() {
    let mut big = SyncBudget::new(100u16);
    let mut small = SyncBudget::new(10u16);
    let a = big.allocate(60).unwrap();
    let b = small.allocate(4).unwrap();
    // Returning a foreign allocation cannot push a budget past its maximum.
    small.free(a);
    assert_eq!(small.remaining(), 10);
    big.free(b);
    assert_eq!(big.remaining(), 44);
}

#[test]
fn set_below_max_is_kept() {
    let mut budget = SyncBudget::new(100u32);
    budget.set(42);
    assert_eq!(budget.remaining(), 42);
    assert_eq!(budget.max(), 100);
    budget.set(100);
    assert!(budget.is_full());
    budget.set(0);
    assert!(budget.is_empty());
}

#[test]
fn cap_value_caps_to_max() {
    let budget = SyncBudget::new(100u32);
    assert_eq!(budget.cap_value(300), 100);
    assert_eq!(budget.cap_value(101), 100);
    assert_eq!(budget.cap_value(100), 100);
    assert_eq!(budget.cap_value(7), 7);
}

#[test]
fn saturation_at_the_type_limit() {
    let mut budget = SyncBudget::new(u8::MAX);
    let a = budget.allocate(200).unwrap();
    let b = budget.allocate(55).unwrap();
    assert!(budget.is_empty());
    budget.free(a);
    budget.free(b);
    assert_eq!(budget.remaining(), 255);
    let c = budget.allocate(255).unwrap();
    budget.set(0);
    budget.free(c);
    assert_eq!(budget.remaining(), 255);
}

#[test]
fn wide_value_types() {
    let mut budget = SyncBudget::new(u128::MAX);
    let a = budget.allocate(u128::MAX - 1).unwrap();
    assert_eq!(budget.remaining(), 1);
    budget.free(a);
    assert_eq!(budget.remaining(), u128::MAX);

    let mut budget = SyncBudget::new(5usize);
    assert!(budget.allocate(6).is_none());
    assert_eq!(budget.remaining(), 5);
}

#[test]
fn atomic_budget_behaves_like_sync_budget() {
    let mut budget = AtomicBudget::new(50);
    assert_eq!(budget.max(), 50);
    let a = budget.allocate(30).unwrap();
    assert_eq!(budget.remaining(), 20);
    assert!(budget.allocate(25).is_none());
    budget.free(a);
    assert!(budget.is_full());
    budget.set(300);
    assert_eq!(budget.remaining(), 50);
    assert_eq!(budget.cap_value(51), 50);
}

#[test]
fn budget_value_operations() {
    assert_eq!(<u8 as BudgetValue>::zero(), 0);
    assert_eq!(BudgetValue::saturating_add(&250u8, &10u8), 255);
    assert_eq!(BudgetValue::saturating_add(&200u16, &10u16), 210);
    assert_eq!(BudgetValue::saturating_sub(&5u32, &10u32), 0);
    assert_eq!(BudgetValue::saturating_sub(&10u64, &4u64), 6);
    assert!(BudgetValue::at_most(&3usize, &3usize));
    assert!(!BudgetValue::at_most(&4u128, &3u128));
}

#[test]
fn books_balance_over_many_allocations() {
    // remaining + outstanding == max throughout
    let mut budget = SyncBudget::new(100u32);
    let a = budget.allocate(10).unwrap();
    let b = budget.allocate(20).unwrap();
    let c = budget.allocate(30).unwrap();
    assert_eq!(budget.remaining() + 10 + 20 + 30, 100);
    budget.free(b);
    assert_eq!(budget.remaining() + 10 + 30, 100);
    assert!(budget.allocate(61).is_none());
    budget.free(a);
    budget.free(c);
    assert!(budget.is_full());
}

#[test]
fn atomic_budget_reads_back_what_it_stored() {
    let mut budget = AtomicBudget::new(7);
    assert_eq!(budget.remaining(), 7);
    assert!(budget.is_full());
    budget.set(3);
    assert_eq!(budget.remaining(), 3);
    assert!(budget.has_capacity(3));
    assert!(!budget.has_capacity(4));
    budget.set(0);
    assert!(budget.is_empty());
    let a = budget.allocate(0).unwrap();
    budget.free(a);
    assert_eq!(budget.remaining(), 0);
}
