//! The [`Budget`] trait and the [`Allocation`]s it hands out.

use vstd::prelude::*;

use crate::value::BudgetValue;

verus! {

/// `value`, lowered to `max` where it exceeds it.
pub open spec fn capped(value: nat, max: nat) -> nat {
    if value > max {
        max
    } else {
        value
    }
}

/// What remains of `remaining` after a request for `amount`: the request is granted
/// only where `amount` fits into `remaining`, and then takes `amount` away.
pub open spec fn remaining_after_allocate(remaining: nat, amount: nat) -> nat {
    if amount <= remaining {
        (remaining - amount) as nat
    } else {
        remaining
    }
}

/// What remains of `remaining` after `amount` is given back, in a budget of capacity `max`.
pub open spec fn remaining_after_free(remaining: nat, amount: nat, max: nat) -> nat {
    capped(remaining + amount, max)
}

/// The amount an optional allocation holds: zero for none.
pub open spec fn granted_amount<T: BudgetValue>(r: Option<Allocation<T>>) -> nat {
    match r {
        Some(a) => a.amount_spec(),
        None => 0,
    }
}

/// `after` and `r` are what [`Budget::allocate`] makes of `before` (its `ensures`, clause for
/// clause) for a request of `amount`:
/// the request is granted exactly where `amount` fits into the remaining value, a granted
/// allocation holds `amount` and takes it from the remaining value, and a refused request
/// leaves the budget as it was. The maximum never changes.
pub open spec fn allocated<B: Budget>(
    before: B,
    amount: nat,
    after: B,
    r: Option<Allocation<B::Value>>,
) -> bool {
    &&& after.wf()
    &&& after.max_spec() == before.max_spec()
    &&& (r is Some <==> amount <= before.remaining_spec())
    &&& (r matches Some(a) ==> a.amount_spec() == amount)
    &&& after.remaining_spec() == remaining_after_allocate(before.remaining_spec(), amount)
    &&& (r is None ==> after == before)
}

/// `after` is what [`Budget::free`] makes of `before` (its `ensures`, clause for clause) when `allocation` is given back: its
/// amount is added to the remaining value, capped at the unchanged maximum.
pub open spec fn freed<B: Budget>(before: B, allocation: Allocation<B::Value>, after: B) -> bool {
    &&& after.wf()
    &&& after.max_spec() == before.max_spec()
    &&& after.remaining_spec() == remaining_after_free(
        before.remaining_spec(),
        allocation.amount_spec(),
        before.max_spec(),
    )
}

/// `allocate` keeps the books balanced: where a budget's remaining value and the amounts
/// held by its outstanding allocations add up to its maximum, they still do once the
/// allocation it grants (if any) is counted among them.
pub proof fn lemma_allocate_keeps_balance<B: Budget>(
    before: B,
    amount: nat,
    after: B,
    r: Option<Allocation<B::Value>>,
    outstanding: nat,
)
    requires
        before.remaining_spec() + outstanding == before.max_spec(),
        allocated(before, amount, after, r),
    ensures
        after.remaining_spec() + outstanding + granted_amount(r) == after.max_spec(),
{
}

/// `free` keeps the books balanced: where a budget's remaining value and the amounts held by
/// its outstanding allocations add up to its maximum, freeing one of them gives its whole
/// amount back (the cap at the maximum never bites), and once nothing is outstanding the
/// budget is full again.
pub proof fn lemma_free_keeps_balance<B: Budget>(
    before: B,
    allocation: Allocation<B::Value>,
    after: B,
    outstanding: nat,
)
    requires
        before.remaining_spec() + outstanding == before.max_spec(),
        allocation.amount_spec() <= outstanding,
        freed(before, allocation, after),
    ensures
        after.remaining_spec() == before.remaining_spec() + allocation.amount_spec(),
        after.remaining_spec() + (outstanding - allocation.amount_spec()) == after.max_spec(),
        outstanding == allocation.amount_spec() ==> after.remaining_spec() == after.max_spec(),
{
}

/// Freeing an allocation gives back what allocating it took: a granted allocation
/// followed by its free restores the budget's remaining value and maximum.
pub proof fn lemma_allocate_then_free_restores<B: Budget>(
    start: B,
    amount: nat,
    middle: B,
    allocation: Allocation<B::Value>,
    end: B,
)
    requires
        start.wf(),
        allocated(start, amount, middle, Some(allocation)),
        freed(middle, allocation, end),
    ensures
        end.remaining_spec() == start.remaining_spec(),
        end.max_spec() == start.max_spec(),
{
    start.lemma_wf_bounds();
}

/// A structure representing an allocation of a budgeted value.
///
/// Only [`Budget::allocate`] makes one; [`Budget::free`] takes it back and returns its
/// amount to the budget.
pub struct Allocation<T: BudgetValue> {
    amount: T,
}

impl<T: BudgetValue> Allocation<T> {
    /// The amount this allocation holds.
    pub closed spec fn amount_spec(&self) -> nat {
        self.amount.as_nat()
    }

    /// Returns the allocated amount.
    pub fn amount(&self) -> (r: T)
        ensures
            r.as_nat() == self.amount_spec(),
    {
        self.amount
    }
}

/// Trait defining the expected behavior of a budgeting-capable object.
///
/// A budget has a fixed maximum, [`Budget::max_spec`], and a remaining value,
/// [`Budget::remaining_spec`]: what it last set, which never exceeds the maximum and is
/// what [`Budget::remaining`] reads back.
pub trait Budget: Sized {
    /// Type which publicly represents the budget's storage.
    type Value: BudgetValue;

    /// The maximum allocation.
    spec fn max_spec(&self) -> nat;

    /// The remaining value, as last set.
    spec fn remaining_spec(&self) -> nat;

    /// The internal consistency of the budget.
    spec fn wf(&self) -> bool;

    /// Creates a new budget with the specified maximum allocation; it starts full.
    fn new(max_allocation: Self::Value) -> (b: Self)
        ensures
            b.wf(),
            b.max_spec() == max_allocation.as_nat(),
            b.remaining_spec() == max_allocation.as_nat(),
    ;

    /// Retrieves the remaining budget value.
    fn remaining(&self) -> (r: Self::Value)
        requires
            self.wf(),
        ensures
            r.as_nat() == self.remaining_spec(),
    ;

    /// Retrieves the maximum allocation value.
    fn max(&self) -> (r: Self::Value)
        requires
            self.wf(),
        ensures
            r.as_nat() == self.max_spec(),
    ;

    /// Sets the remaining value of the budget to `value`, capped to the maximum.
    fn set(&mut self, value: Self::Value)
        requires
            old(self).wf(),
        ensures
            final(self).wf(),
            final(self).max_spec() == old(self).max_spec(),
            final(self).remaining_spec() == capped(value.as_nat(), old(self).max_spec()),
    ;

    /// The remaining value never exceeds the maximum, which is a value of the budget's type.
    proof fn lemma_wf_bounds(&self)
        requires
            self.wf(),
        ensures
            self.remaining_spec() <= self.max_spec(),
            self.max_spec() <= Self::Value::max_nat(),
    ;

    /// Caps the input value to `self.max()`.
    fn cap_value(&self, value: Self::Value) -> (r: Self::Value)
        requires
            self.wf(),
        ensures
            r.as_nat() == capped(value.as_nat(), self.max_spec()),
    {
        let max = self.max();
        if !value.at_most(&max) {
            max
        } else {
            value
        }
    }

    /// Returns `true` if the budget has been depleted.
    fn is_empty(&self) -> (r: bool)
        requires
            self.wf(),
        ensures
            r == (self.remaining_spec() == 0),
    {
        let remaining = self.remaining();
        remaining.at_most(&Self::Value::zero())
    }

    /// Returns `true` if the budget is full.
    fn is_full(&self) -> (r: bool)
        requires
            self.wf(),
        ensures
            r == (self.remaining_spec() >= self.max_spec()),
    {
        let remaining = self.remaining();
        let max = self.max();
        max.at_most(&remaining)
    }

    /// Returns `true` if the budget has sufficient remaining capacity for `amount`.
    fn has_capacity(&self, amount: Self::Value) -> (r: bool)
        requires
            self.wf(),
        ensures
            r == (amount.as_nat() <= self.remaining_spec()),
    {
        let remaining = self.remaining();
        amount.at_most(&remaining)
    }

    /// Tries to allocate `amount` from the budget.
    ///
    /// Returns an allocation of `amount` if the budget has sufficient capacity, and takes
    /// `amount` from the remaining value; otherwise returns `None` and changes nothing.
    #[must_use]
    fn allocate(&mut self, amount: Self::Value) -> (r: Option<Allocation<Self::Value>>)
        requires
            old(self).wf(),
        ensures
            final(self).wf(),
            final(self).max_spec() == old(self).max_spec(),
            r is Some <==> amount.as_nat() <= old(self).remaining_spec(),
            r matches Some(a) ==> a.amount_spec() == amount.as_nat(),
            final(self).remaining_spec() == remaining_after_allocate(
                old(self).remaining_spec(),
                amount.as_nat(),
            ),
            r is None ==> *final(self) == *old(self),
    {
        if !self.has_capacity(amount) {
            return None;
        }
        let remaining = self.remaining();
        let new_value = remaining.saturating_sub(&amount);
        proof {
            self.lemma_wf_bounds();
        }
        self.set(new_value);
        Some(Allocation { amount })
    }

    /// Frees `allocation` back to the budget: its amount is added to the remaining value,
    /// which saturates at the maximum.
    fn free(&mut self, allocation: Allocation<Self::Value>)
        requires
            old(self).wf(),
        ensures
            final(self).wf(),
            final(self).max_spec() == old(self).max_spec(),
            final(self).remaining_spec() == remaining_after_free(
                old(self).remaining_spec(),
                allocation.amount_spec(),
                old(self).max_spec(),
            ),
    {
        let amount = allocation.amount();
        let remaining = self.remaining();
        let new_value = remaining.saturating_add(&amount);
        proof {
            self.lemma_wf_bounds();
        }
        self.set(new_value);
    }
}

} // verus!
