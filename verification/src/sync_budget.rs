//! A single-owner [`Budget`] over any [`BudgetValue`].

use vstd::prelude::*;

use crate::budget::Budget;
use crate::value::BudgetValue;

verus! {

/// A synchronous [`Budget`] implementation that uses a [`BudgetValue`] value for storage.
///
/// It is changed through `&mut self`, so its remaining value is always the one last set.
#[derive(Debug)]
pub struct SyncBudget<N: BudgetValue> {
    value: N,
    max_alloc: N,
}

impl<N: BudgetValue> Budget for SyncBudget<N> {
    type Value = N;

    closed spec fn max_spec(&self) -> nat {
        self.max_alloc.as_nat()
    }

    closed spec fn remaining_spec(&self) -> nat {
        self.value.as_nat()
    }

    closed spec fn wf(&self) -> bool {
        self.value.as_nat() <= self.max_alloc.as_nat()
    }


    proof fn lemma_wf_bounds(&self) {
        N::lemma_in_range(self.max_alloc);
    }

    fn new(max_allocation: N) -> (b: Self) {
        SyncBudget { value: max_allocation, max_alloc: max_allocation }
    }

    fn remaining(&self) -> (r: N) {
        self.value
    }

    fn max(&self) -> (r: N) {
        self.max_alloc
    }

    fn set(&mut self, value: N) {
        let value = self.cap_value(value);
        self.value = value;
    }
}

} // verus!
