//! Budgets for tracking and handing out a limited resource.
//!
//! A [`Budget`] holds a maximum capacity and the amount that is still
//! available. Amounts are taken out with [`Budget::allocate`], which hands
//! back an [`Allocation`], and returned with [`Budget::free`]. The amounts are
//! values of a [`BudgetValue`] type: any of the unsigned integer types.

pub mod atomic_budget;
pub mod budget;
pub mod history;
pub mod resource;
pub mod sync_budget;
pub mod value;

pub use atomic_budget::AtomicBudget;
pub use budget::{Allocation, Budget};
pub use resource::{AllocatedResource, Resource, ResourceValue};
pub use sync_budget::SyncBudget;
pub use value::BudgetValue;
