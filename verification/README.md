# resourceful

Budgets for a limited resource, verified with Verus.

- `src/value.rs`: `BudgetValue`, the unsigned integer types a budget can count in, each
  value standing for a natural number (`as_nat`), with zero, comparison and saturating
  addition and subtraction.
- `src/budget.rs`: the `Budget` trait (`new`, `remaining`, `max`, `set`, `cap_value`,
  `is_empty`, `is_full`, `has_capacity`, `allocate`, `free`), `Allocation`, the spec
  functions the contracts are written in, and the laws that tie the operations together
  (the remaining value and the outstanding allocations always add up to the maximum).
- `src/history.rs`: laws over whole histories from `new`: the maximum never changes, the
  remaining value never exceeds it, and remaining plus outstanding allocations is the maximum.
- `src/sync_budget.rs`: `SyncBudget<N>`, a budget whose remaining value is followed exactly.
- `src/atomic_budget.rs`: `AtomicBudget`, a `usize` budget stored in an `AtomicUsize`, read
  and written through three small trusted wrappers around `new`, `load` and `store`.
- `src/resource.rs`: `ResourceValue`, `Resource` and `AllocatedResource`.

A budget is changed through `&mut self`, and an allocation is handed back explicitly with
`Budget::free`, which consumes it, so each allocation returns its amount at most once: an
allocation that is dropped without being freed never returns its amount.
