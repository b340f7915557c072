//! Laws over whole histories of a budget, from its creation on.

use vstd::prelude::*;

use crate::budget::{allocated, capped, freed, granted_amount, Allocation, Budget};
use crate::value::BudgetValue;

verus! {

/// One change made to a budget: an `allocate` of `amount` that gave `result`, a `free` of
/// `allocation`, or a `set` to `value` (`Reset`).
pub enum BudgetEvent<T: BudgetValue> {
    Allocated { amount: nat, result: Option<Allocation<T>> },
    Freed { allocation: Allocation<T> },
    Reset { value: nat },
}

/// `after` is what [`Budget::set`] makes of `before` for `value` (its `ensures`, clause for
/// clause).
pub open spec fn set_to<B: Budget>(before: B, value: nat, after: B) -> bool {
    &&& after.wf()
    &&& after.max_spec() == before.max_spec()
    &&& after.remaining_spec() == capped(value, before.max_spec())
}

/// `after` is what `event` makes of `before`, as the operation's `ensures` says.
pub open spec fn event_holds<B: Budget>(before: B, event: BudgetEvent<B::Value>, after: B) -> bool {
    match event {
        BudgetEvent::Allocated { amount, result } => allocated(before, amount, after, result),
        BudgetEvent::Freed { allocation } => freed(before, allocation, after),
        BudgetEvent::Reset { value } => set_to(before, value, after),
    }
}

/// `states[0]` is a budget fresh from [`Budget::new`] with maximum `max`, and each
/// `states[i + 1]` is what `events[i]` made of `states[i]`.
pub open spec fn is_history<B: Budget>(
    max: nat,
    states: Seq<B>,
    events: Seq<BudgetEvent<B::Value>>,
) -> bool {
    &&& states.len() == events.len() + 1
    &&& states[0].wf()
    &&& states[0].max_spec() == max
    &&& states[0].remaining_spec() == max
    &&& forall|i: int|
        #![trigger events[i]]
        0 <= i < events.len() ==> event_holds(states[i], events[i], states[i + 1])
}

/// The amount held by the allocations that `events` granted and did not free.
pub open spec fn outstanding<T: BudgetValue>(events: Seq<BudgetEvent<T>>) -> int
    decreases events.len(),
{
    if events.len() == 0 {
        0
    } else {
        let before = outstanding(events.drop_last());
        match events.last() {
            BudgetEvent::Allocated { amount, result } => before + granted_amount(result),
            BudgetEvent::Freed { allocation } => before - allocation.amount_spec(),
            BudgetEvent::Reset { value } => before,
        }
    }
}

/// Every free in `events` gives back an allocation that was outstanding, and no `set`
/// intervenes: only allocations come and go.
pub open spec fn frees_only_outstanding<T: BudgetValue>(events: Seq<BudgetEvent<T>>) -> bool {
    forall|i: int|
        0 <= i < events.len() ==> match #[trigger] events[i] {
            BudgetEvent::Allocated { .. } => true,
            BudgetEvent::Freed { allocation } => allocation.amount_spec() <= outstanding(
                events.take(i),
            ),
            BudgetEvent::Reset { .. } => false,
        }
}

proof fn lemma_state_in_range<B: Budget>(
    max: nat,
    states: Seq<B>,
    events: Seq<BudgetEvent<B::Value>>,
    k: int,
)
    requires
        is_history(max, states, events),
        0 <= k < states.len(),
    ensures
        states[k].wf(),
        states[k].max_spec() == max,
    decreases k,
{
    if k > 0 {
        lemma_state_in_range(max, states, events, k - 1);
        let e = events[k - 1];
        assert(event_holds(states[k - 1], e, states[k]));
    }
}

/// Through any history from [`Budget::new`] with maximum `max` (any mix of `set`,
/// `allocate` and `free`), the maximum stays `max`, the budget stays consistent, and the
/// remaining value never exceeds `max`.
pub proof fn lemma_history_stays_in_range<B: Budget>(
    max: nat,
    states: Seq<B>,
    events: Seq<BudgetEvent<B::Value>>,
)
    requires
        is_history(max, states, events),
    ensures
        forall|k: int|
            #![trigger states[k]]
            0 <= k < states.len() ==> states[k].wf() && states[k].max_spec() == max
                && states[k].remaining_spec() <= max,
{
    assert forall|k: int|
        #![trigger states[k]]
        0 <= k < states.len() implies states[k].wf() && states[k].max_spec() == max
            && states[k].remaining_spec() <= max by {
        lemma_state_in_range(max, states, events, k);
        states[k].lemma_wf_bounds();
    }
}

proof fn lemma_state_balanced<B: Budget>(
    max: nat,
    states: Seq<B>,
    events: Seq<BudgetEvent<B::Value>>,
    k: int,
)
    requires
        is_history(max, states, events),
        frees_only_outstanding(events),
        0 <= k < states.len(),
    ensures
        states[k].remaining_spec() + outstanding(events.take(k)) == max,
        states[k].max_spec() == max,
    decreases k,
{
    if k == 0 {
        assert(events.take(0) =~= Seq::<BudgetEvent<B::Value>>::empty());
    } else {
        lemma_state_balanced(max, states, events, k - 1);
        let before = states[k - 1];
        let after = states[k];
        let e = events[k - 1];
        assert(event_holds(before, e, after));
        assert(events.take(k).drop_last() =~= events.take(k - 1));
        assert(events.take(k).last() == e);
        match e {
            BudgetEvent::Allocated { amount, result } => {}
            BudgetEvent::Freed { allocation } => {
                assert(allocation.amount_spec() <= outstanding(events.take(k - 1)));
            }
            BudgetEvent::Reset { value } => {}
        }
    }
}

/// The books balance through every history from [`Budget::new`] with maximum `max` in which
/// allocations are granted and freed (each free giving back an outstanding allocation): at
/// every step, the remaining value plus the amount held by outstanding allocations is `max`.
/// In particular the budget is full again once every allocation has been freed.
pub proof fn lemma_history_balances<B: Budget>(
    max: nat,
    states: Seq<B>,
    events: Seq<BudgetEvent<B::Value>>,
)
    requires
        is_history(max, states, events),
        frees_only_outstanding(events),
    ensures
        forall|k: int|
            0 <= k < states.len() ==> #[trigger] states[k].remaining_spec() + outstanding(
                events.take(k),
            ) == max,
        forall|k: int|
            0 <= k < states.len() && outstanding(events.take(k)) == 0 ==> #[trigger] states[k].remaining_spec()
                == states[k].max_spec(),
{
    assert forall|k: int| 0 <= k < states.len() implies #[trigger] states[k].remaining_spec()
        + outstanding(events.take(k)) == max by {
        lemma_state_balanced(max, states, events, k);
    }
    assert forall|k: int|
        0 <= k < states.len() && outstanding(events.take(k)) == 0 implies #[trigger] states[k].remaining_spec()
        == states[k].max_spec() by {
        lemma_state_balanced(max, states, events, k);
    }
}

} // verus!
