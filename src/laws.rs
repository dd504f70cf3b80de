//! What holds of a store over many dispatches.
use vstd::prelude::*;

use crate::next_value;
use crate::store::{Effects, NoEffects, Reducer, Store};
use crate::ActionWithId;

verus! {

/// The state reached from `state` by reducing each of `actions` in turn.
pub open spec fn replay<State, Action, R: Reducer<State, Action>>(
    reducer: R,
    state: State,
    actions: Seq<Action>,
) -> State
    decreases actions.len(),
{
    if actions.len() == 0 {
        state
    } else {
        reducer.next_state(replay(reducer, state, actions.drop_last()), actions.last())
    }
}

/// `runs` is a store followed by what each of `actions`, stamped and reduced in
/// turn, made of it.
pub open spec fn is_run<State, Service, Action, R: Reducer<State, Action>, E>(
    runs: Seq<Store<State, Service, Action, R, E>>,
    actions: Seq<Action>,
) -> bool {
    &&& runs.len() == actions.len() + 1
    &&& forall|k: int|
        0 <= k < actions.len() ==> #[trigger] runs[k + 1].reduced_from(runs[k], actions[k])
}

/// Identifiers issued one after another increase strictly, and each issued one lies
/// above zero, as long as none before the last has reached the largest `u64`.
pub proof fn lemma_issued_ids_increase(ids: Seq<u64>, elapsed: Seq<u64>)
    requires
        ids.len() == elapsed.len() + 1,
        forall|k: int| 0 <= k < elapsed.len() ==> ids[k + 1] == next_value(ids[k], elapsed[k]),
        ids.len() >= 2 ==> ids[ids.len() - 2] < u64::MAX,
    ensures
        forall|i: int, j: int| 0 <= i < j < ids.len() ==> ids[i] < ids[j],
        forall|k: int| 1 <= k < ids.len() ==> ids[k] > 0,
    decreases ids.len(),
{
    let n = ids.len();
    if n >= 2 {
        let prefix = ids.drop_last();
        if n >= 3 {
            assert(ids[n - 2] == next_value(ids[n - 3], elapsed[n - 3]));
        }
        assert forall|k: int| 0 <= k < elapsed.drop_last().len() implies prefix[k + 1]
            == next_value(prefix[k], elapsed.drop_last()[k]) by {
            assert(ids[k + 1] == next_value(ids[k], elapsed[k]));
        }
        lemma_issued_ids_increase(prefix, elapsed.drop_last());
        assert(ids[n - 1] == next_value(ids[n - 2], elapsed[n - 2]));
        assert forall|i: int, j: int| 0 <= i < j < n implies ids[i] < ids[j] by {
            if j < n - 1 {
                assert(prefix[i] < prefix[j]);
            } else if i < n - 2 {
                assert(prefix[i] < prefix[n - 2]);
            }
        }
        assert forall|k: int| 1 <= k < n implies ids[k] > 0 by {
            if k < n - 1 {
                assert(prefix[k] > 0);
            }
        }
    }
}

/// Two dispatches with no time measured between them still get distinct identifiers,
/// the later one exactly one above the earlier.
pub proof fn lemma_zero_elapsed_advances(prev: u64)
    requires
        prev < u64::MAX,
    ensures
        next_value(prev, 0) == prev + 1,
        next_value(prev, 0) > prev,
{
}

/// Along a run every state is the replay of the actions so far, and the reducer stays.
pub proof fn lemma_run_replays<State, Service, Action, R: Reducer<State, Action>, E>(
    runs: Seq<Store<State, Service, Action, R, E>>,
    actions: Seq<Action>,
)
    requires
        is_run(runs, actions),
    ensures
        runs.last().current() == replay(runs[0].reducer(), runs[0].current(), actions),
        runs.last().reducer() == runs[0].reducer(),
    decreases actions.len(),
{
    if actions.len() > 0 {
        let n = actions.len() as int;
        let prefix = runs.drop_last();
        assert forall|k: int| 0 <= k < actions.drop_last().len() implies #[trigger] prefix[k
            + 1].reduced_from(prefix[k], actions.drop_last()[k]) by {
            assert(runs[k + 1].reduced_from(runs[k], actions[k]));
        }
        lemma_run_replays(prefix, actions.drop_last());
        assert(runs[n].reduced_from(runs[n - 1], actions[n - 1]));
    }
}

/// Two stores with one reducer and one initial state that go through one sequence of
/// actions end in one state, whatever identifiers and clock readings the dispatches got.
pub proof fn lemma_replay_deterministic<
    State,
    Service,
    Action,
    R: Reducer<State, Action>,
    E,
>(
    first: Seq<Store<State, Service, Action, R, E>>,
    second: Seq<Store<State, Service, Action, R, E>>,
    actions: Seq<Action>,
)
    requires
        is_run(first, actions),
        is_run(second, actions),
        first[0].reducer() == second[0].reducer(),
        first[0].current() == second[0].current(),
    ensures
        first.last().current() == second.last().current(),
{
    lemma_run_replays(first, actions);
    lemma_run_replays(second, actions);
}

/// On a store without effects, what `dispatch` promises makes the store after it one
/// more step of a run: stores dispatched the same actions in turn form runs, to which
/// `lemma_replay_deterministic` applies.
pub proof fn lemma_plain_dispatch_is_run_step<State, Service, Action, R: Reducer<State, Action>>(
    before: Store<State, Service, Action, R, NoEffects>,
    after: Store<State, Service, Action, R, NoEffects>,
    action: Action,
)
    requires
        exists|mid: Store<State, Service, Action, R, NoEffects>|
            {
                &&& mid.reduced_from(before, action)
                &&& before.effects().post(
                    mid,
                    ActionWithId { id: mid.last_action_id(), action },
                    after,
                )
            },
    ensures
        after.reduced_from(before, action),
{
}

} // verus!
