//! What holds across calls: the count after a run of mutations, and what
//! each notification announces.

use vstd::prelude::*;
use crate::state::{delta, AppState, CounterError, Mutation};

verus! {

/// The state after applying `ms` in order from `s`, or `None` where some
/// step would leave the range of `i32`.
pub open spec fn run_from(s: AppState, ms: Seq<Mutation>) -> Option<AppState>
    decreases ms.len(),
{
    if ms.len() == 0 {
        Some(s)
    } else {
        match run_from(s, ms.drop_last()) {
            Some(t) => t.stepped(ms.last()),
            None => None,
        }
    }
}

/// One for each increment, minus one for each decrement.
pub open spec fn net_change(ms: Seq<Mutation>) -> int
    decreases ms.len(),
{
    if ms.len() == 0 {
        0
    } else {
        net_change(ms.drop_last()) + delta(ms.last())
    }
}

/// A run of mutations that all succeed moves the count by exactly one per
/// increment and minus one per decrement.
pub proof fn lemma_run_moves_by_net_change(s: AppState, ms: Seq<Mutation>)
    requires
        run_from(s, ms) is Some,
    ensures
        run_from(s, ms).unwrap().count == s.count + net_change(ms),
    decreases ms.len(),
{
    if ms.len() > 0 {
        lemma_run_moves_by_net_change(s, ms.drop_last());
    }
}

/// Starting from the zero count of a new process, the count after a run of
/// successful mutations is the number of increments minus the number of
/// decrements.
pub proof fn lemma_count_from_start(ms: Seq<Mutation>)
    requires
        run_from(AppState { count: 0 }, ms) is Some,
    ensures
        run_from(AppState { count: 0 }, ms).unwrap().count == net_change(ms),
{
    lemma_run_moves_by_net_change(AppState { count: 0 }, ms);
}

/// A successful mutation announces exactly the count that a read of the
/// state right after it returns; a refused one changes nothing.
pub proof fn lemma_payload_is_state_after(s: AppState, m: Mutation)
    ensures
        match s.stepped(m) {
            Some(n) => s.outcome(m) == Ok::<int, CounterError>(n.count as int)
                && n.count == s.count + delta(m),
            None => s.outcome(m) == Err::<int, CounterError>(CounterError::Overflow),
        },
{
}

} // verus!
