//! A [`Budget`] over `usize` that keeps its remaining value in an atomic.

use vstd::prelude::*;

use crate::budget::Budget;
use crate::value::BudgetValue;

verus! {

/// The number an `AtomicUsize` holds, where it is written only through `&mut` (as the atomic
/// of an [`AtomicBudget`] is): what `AtomicUsize::load` on it reads.
pub uninterp spec fn atomic_usize_value(cell: std::sync::atomic::AtomicUsize) -> usize;

/// Calls `AtomicUsize::new`: the new atomic holds `value`.
#[verifier::external_body]
fn atomic_usize_new(value: usize) -> (r: std::sync::atomic::AtomicUsize)
    ensures
        atomic_usize_value(r) == value,
{
    std::sync::atomic::AtomicUsize::new(value)
}

/// Calls `AtomicUsize::load` with `Acquire` ordering on the atomic of `budget`: it reads the
/// number that atomic holds.
///
/// It takes the budget, not any atomic: the budget's atomic is private and written only
/// through `&mut` (by `atomic_usize_store`), so nothing stores into it while it is borrowed
/// here.
#[verifier::external_body]
fn atomic_budget_load(budget: &AtomicBudget) -> (r: usize)
    ensures
        r == atomic_usize_value(budget.value),
{
    budget.value.load(std::sync::atomic::Ordering::Acquire)
}

/// Calls `AtomicUsize::store` with `Release` ordering: afterwards the atomic holds `value`.
#[verifier::external_body]
fn atomic_usize_store(cell: &mut std::sync::atomic::AtomicUsize, value: usize)
    ensures
        atomic_usize_value(*final(cell)) == value,
{
    cell.store(value, std::sync::atomic::Ordering::Release);
}

/// An atomic [`Budget`] implementation that uses an `AtomicUsize` value for storage.
///
/// The remaining value is read and written with atomic operations; it is written only
/// through `&mut self`, so a read gives back the value last stored.
#[derive(Debug)]
pub struct AtomicBudget {
    value: std::sync::atomic::AtomicUsize,
    max_alloc: usize,
}

impl Budget for AtomicBudget {
    type Value = usize;

    closed spec fn max_spec(&self) -> nat {
        self.max_alloc.as_nat()
    }

    closed spec fn remaining_spec(&self) -> nat {
        atomic_usize_value(self.value).as_nat()
    }

    closed spec fn wf(&self) -> bool {
        atomic_usize_value(self.value) <= self.max_alloc
    }

    proof fn lemma_wf_bounds(&self) {
    }

    fn new(max_allocation: usize) -> (b: Self) {
        AtomicBudget { value: atomic_usize_new(max_allocation), max_alloc: max_allocation }
    }

    fn remaining(&self) -> (r: usize) {
        atomic_budget_load(self)
    }

    fn max(&self) -> (r: usize) {
        self.max_alloc
    }

    fn set(&mut self, value: usize) {
        let value = self.cap_value(value);
        atomic_usize_store(&mut self.value, value);
    }
}

} // verus!
