//! Counting the workers that are in a given state.

use vstd::prelude::*;
use crate::worker::WorkerState;

verus! {

/// How many entries of `states` are `state`.
pub open spec fn count(states: Seq<WorkerState>, state: WorkerState) -> nat
    decreases states.len(),
{
    if states.len() == 0 {
        0
    } else {
        count(states.drop_last(), state) + if states.last() == state {
            1nat
        } else {
            0nat
        }
    }
}

/// No more entries are in a state than there are entries.
pub proof fn lemma_count_bound(states: Seq<WorkerState>, state: WorkerState)
    ensures
        count(states, state) <= states.len(),
    decreases states.len(),
{
    if states.len() > 0 {
        lemma_count_bound(states.drop_last(), state);
    }
}

/// Changing one entry moves one unit from the count of its old state to the
/// count of its new state.
pub proof fn lemma_count_update(
    states: Seq<WorkerState>,
    i: int,
    to: WorkerState,
    state: WorkerState,
)
    requires
        0 <= i < states.len(),
    ensures
        count(states.update(i, to), state) + (if states[i] == state {
            1nat
        } else {
            0nat
        }) == count(states, state) + (if to == state {
            1nat
        } else {
            0nat
        }),
    decreases states.len(),
{
    let after = states.update(i, to);
    if i == states.len() - 1 {
        assert(after.drop_last() =~= states.drop_last());
    } else {
        assert(after.drop_last() =~= states.drop_last().update(i, to));
        lemma_count_update(states.drop_last(), i, to, state);
    }
}

/// Where no entry is in a state, its count is zero, and the other way round.
pub proof fn lemma_count_zero(states: Seq<WorkerState>, state: WorkerState)
    ensures
        count(states, state) == 0 <==> forall|i: int|
            0 <= i < states.len() ==> #[trigger] states[i] != state,
    decreases states.len(),
{
    if states.len() > 0 {
        let front = states.drop_last();
        lemma_count_zero(front, state);
        if count(states, state) == 0 {
            assert forall|i: int| 0 <= i < states.len() implies #[trigger] states[i] != state by {
                if i < front.len() {
                    assert(front[i] == states[i]);
                }
            }
        } else if states.last() != state {
            let i = choose|i: int| 0 <= i < front.len() && #[trigger] front[i] == state;
            assert(states[i] == state);
        }
    }
}

/// Where the count of a state is the number of entries, every entry is in
/// that state, and the other way round.
pub proof fn lemma_count_all(states: Seq<WorkerState>, state: WorkerState)
    ensures
        count(states, state) == states.len() <==> forall|i: int|
            0 <= i < states.len() ==> #[trigger] states[i] == state,
    decreases states.len(),
{
    if states.len() > 0 {
        let front = states.drop_last();
        lemma_count_all(front, state);
        lemma_count_bound(front, state);
        if count(states, state) == states.len() {
            assert forall|i: int| 0 <= i < states.len() implies #[trigger] states[i] == state by {
                if i < front.len() {
                    assert(front[i] == states[i]);
                }
            }
        } else if states.last() == state {
            let i = choose|i: int| 0 <= i < front.len() && #[trigger] front[i] != state;
            assert(states[i] != state);
        }
    }
}

/// Every entry is in exactly one of the three states.
pub proof fn lemma_count_partition(states: Seq<WorkerState>)
    ensures
        count(states, WorkerState::Idle) + count(states, WorkerState::Executing) + count(
            states,
            WorkerState::Exited,
        ) == states.len(),
    decreases states.len(),
{
    if states.len() > 0 {
        lemma_count_partition(states.drop_last());
    }
}

} // verus!
