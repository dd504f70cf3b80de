use redux::{
    ActionId, ActionWithId, Effects, NoEffects, Reducer, Store, TimeService, WallTime,
};

#[derive(Debug, Clone, PartialEq)]
struct Counter {
    counter: i8,
    ids: Vec<u64>,
}

fn counter_at(counter: i8) -> Counter {
    Counter { counter, ids: Vec::new() }
}

#[derive(Debug, Clone, Copy, PartialEq)]
enum Action {
    Increment,
    Decrement,
}

#[derive(Clone, Copy)]
struct CounterReducer;

impl Reducer<Counter, Action> for CounterReducer {
    fn reduce(&self, state: &mut Counter, action: &ActionWithId<Action>) {
        match action.action {
            Action::Increment => state.counter += 1,
            Action::Decrement => state.counter -= 1,
        }
        state.ids.push(u64::from(action.id));
    }
}

/// A clock that moves on by a fixed step at each reading.
#[derive(Clone)]
struct SteppingClock {
    now: u64,
    step: u64,
}

impl TimeService for SteppingClock {
    fn monotonic_time(&mut self) -> u64 {
        self.now += self.step;
        self.now
    }
}

fn clock(step: u64) -> SteppingClock {
    SteppingClock { now: 0, step }
}

/// Dispatches a follow-up decrement whenever the counter reaches two.
#[derive(Clone, Copy)]
struct FollowUp;

impl Effects<Counter, SteppingClock, Action, CounterReducer> for FollowUp {
    fn run(
        &self,
        store: &mut Store<Counter, SteppingClock, Action, CounterReducer, FollowUp>,
        _action: &ActionWithId<Action>,
    ) {
        if store.state().counter == 2 {
            store.dispatch(Action::Decrement);
        }
    }
}

/// A clock that goes back by ten at each reading.
struct Backwards(u64);

impl TimeService for Backwards {
    fn monotonic_time(&mut self) -> u64 {
        self.0 -= 10;
        self.0
    }
}

fn plain_store(
    step: u64,
    seed: i128,
) -> Store<Counter, SteppingClock, Action, CounterReducer, NoEffects> {
    Store::new(
        CounterReducer,
        NoEffects,
        clock(step),
        WallTime { unix_nanos: seed },
        counter_at(0),
    )
}

#[test]
fn state_before_dispatch_is_initial() {
    let store = Store::new(
        CounterReducer,
        NoEffects,
        clock(10),
        WallTime { unix_nanos: 77 },
        counter_at(5),
    );
    assert_eq!(*store.state(), counter_at(5));
}

#[test]
fn increment_increment_decrement_gives_one() {
    let mut store = plain_store(10, 1_000);
    store.dispatch(Action::Increment);
    store.dispatch(Action::Increment);
    store.dispatch(Action::Decrement);
    assert_eq!(store.state().counter, 1);
    assert_eq!(store.state().ids, vec![1_010, 1_020, 1_030]);
}

#[test]
fn ids_advance_by_elapsed_time() {
    let mut store = plain_store(250, 5_000);
    store.dispatch(Action::Increment);
    store.dispatch(Action::Increment);
    assert_eq!(store.state().ids, vec![5_250, 5_500]);
}

#[test]
fn zero_elapsed_still_gives_distinct_ordered_ids() {
    let mut store = plain_store(0, 9_000);
    store.dispatch(Action::Increment);
    store.dispatch(Action::Decrement);
    store.dispatch(Action::Increment);
    assert_eq!(store.state().ids, vec![9_001, 9_002, 9_003]);
}

#[test]
fn first_id_lies_above_zero_when_seeded_before_epoch() {
    let mut store = plain_store(0, -3_000);
    store.dispatch(Action::Increment);
    assert_eq!(store.state().ids, vec![1]);
    assert!(ActionId::zero() < ActionId::new_unchecked(store.state().ids[0]));
}

#[test]
fn effects_dispatch_follow_up_once() {
    let mut store = Store::new(
        CounterReducer,
        FollowUp,
        clock(10),
        WallTime { unix_nanos: 100 },
        counter_at(0),
    );
    store.dispatch(Action::Increment);
    store.dispatch(Action::Increment);
    assert_eq!(store.state().counter, 1);
    // the two outer actions, then the nested decrement issued inside the second
    assert_eq!(store.state().ids, vec![110, 120, 130]);
}

#[test]
fn same_actions_give_same_state_whatever_the_clocks() {
    let actions = [
        Action::Increment,
        Action::Increment,
        Action::Decrement,
        Action::Increment,
    ];
    let mut first = plain_store(3, 1);
    let mut second = plain_store(1_000, 123_456_789);
    for a in actions {
        first.dispatch(a);
        second.dispatch(a);
    }
    assert_eq!(first.state().counter, second.state().counter);
    assert_eq!(first.state().counter, 2);
    assert_ne!(first.state().ids, second.state().ids);
}

#[test]
fn clone_is_independent() {
    let mut original = plain_store(10, 0);
    original.dispatch(Action::Increment);
    let mut copy = original.clone();
    copy.dispatch(Action::Increment);
    copy.dispatch(Action::Increment);
    assert_eq!(original.state().counter, 1);
    assert_eq!(original.state().ids, vec![10]);
    assert_eq!(copy.state().counter, 3);
    assert_eq!(copy.state().ids, vec![10, 20, 30]);
    original.dispatch(Action::Decrement);
    assert_eq!(original.state().counter, 0);
    assert_eq!(original.state().ids, vec![10, 20]);
    assert_eq!(copy.state().counter, 3);
}

#[test]
fn service_is_reachable_between_dispatches() {
    let mut store = plain_store(10, 0);
    store.service().step = 0;
    store.dispatch(Action::Increment);
    store.dispatch(Action::Increment);
    assert_eq!(store.state().ids, vec![1, 2]);
    assert_eq!(store.service().now, 10);
}

#[test]
fn next_moves_by_elapsed_or_one() {
    let id = ActionId::new_unchecked(40);
    assert_eq!(u64::from(id.next(0)), 41);
    assert_eq!(u64::from(id.next(1)), 41);
    assert_eq!(u64::from(id.next(60)), 100);
}

#[test]
fn next_stops_at_largest_value() {
    let id = ActionId::new_unchecked(u64::MAX - 5);
    assert_eq!(u64::from(id.next(100)), u64::MAX);
    assert_eq!(u64::from(ActionId::new_unchecked(u64::MAX).next(0)), u64::MAX);
}

#[test]
fn zero_sorts_first() {
    assert_eq!(u64::from(ActionId::zero()), 0);
    assert!(ActionId::zero() < ActionId::new_unchecked(1));
    assert!(ActionId::zero().next(0) > ActionId::zero());
}

#[test]
fn seed_from_wall_time() {
    assert_eq!(u64::from(WallTime { unix_nanos: 42 }.seed()), 42);
    assert_eq!(u64::from(WallTime { unix_nanos: 0 }.seed()), 0);
    assert_eq!(u64::from(WallTime { unix_nanos: -1 }.seed()), 0);
    assert_eq!(
        u64::from(WallTime { unix_nanos: i128::from(u64::MAX) + 9 }.seed()),
        8
    );
    assert_eq!(u64::from(WallTime { unix_nanos: 1i128 << 64 }.seed()), 0);
    assert_eq!(u64::from(WallTime { unix_nanos: i128::from(u64::MAX) }.seed()), u64::MAX);
}

#[test]
fn clock_going_back_counts_as_no_time() {
    let mut store = Store::new(
        CounterReducer,
        NoEffects,
        Backwards(1_000),
        WallTime { unix_nanos: 500 },
        counter_at(0),
    );
    store.dispatch(Action::Increment);
    store.dispatch(Action::Increment);
    assert_eq!(store.state().ids, vec![501, 502]);
}

#[test]
fn action_with_id_carries_both() {
    let pair = ActionWithId { id: ActionId::new_unchecked(7), action: Action::Decrement };
    let copy = pair.clone();
    assert_eq!(u64::from(copy.id), 7);
    assert_eq!(copy.action, Action::Decrement);
}
