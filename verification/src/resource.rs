//! Resources handed out under budgets.

use vstd::prelude::*;

use crate::budget::Allocation;
use crate::value::BudgetValue;

verus! {

/// A source of values that can be acquired and released.
pub trait ResourceValue {
    type Value;

    /// Attempts to acquire a value from this resource.
    fn acquire(&self) -> Option<Self::Value>;

    /// Releases a previously acquired value back to the resource.
    ///
    /// By default, this simply drops the value.
    #[allow(unused_variables)]
    fn release(&self, value: Self::Value) {
    }
}

/// Handle to an allocated resource, together with the budget allocations it holds.
pub struct AllocatedResource<T, BV: BudgetValue> {
    handle: T,
    allocations: Vec<Allocation<BV>>,
}

impl<T, BV: BudgetValue> AllocatedResource<T, BV> {
    /// The underlying resource handle.
    pub closed spec fn handle_spec(&self) -> T {
        self.handle
    }

    /// Gets the underlying resource handle.
    pub fn get(&self) -> (r: &T)
        ensures
            *r == self.handle_spec(),
    {
        &self.handle
    }
}

impl<T, BV: BudgetValue> AsRef<T> for AllocatedResource<T, BV> {
    fn as_ref(&self) -> (r: &T)
        ensures
            *r == self.handle_spec(),
    {
        self.get()
    }
}

/// A resource whose values are budgeted.
pub trait Resource {
    type Value: ResourceValue;
}

} // verus!
