use vstd::prelude::*;

use crate::{next_value, seed_value, ActionId, ActionWithId, WallTime};

verus! {

/// The host's clock, read once when a store is made and once per dispatch.
pub trait TimeService {
    /// The current monotonic time in nanoseconds.
    fn monotonic_time(&mut self) -> u64;
}

/// A pure reduction step: the next state is a function of the state and the action.
///
/// The identifier handed along is bookkeeping only; `next_state` does not see it, so
/// the state reached cannot depend on it. A verified implementation states its rule
/// by overriding `next_state`; the default is the rule that leaves the state as it is.
/// So what the contracts of this crate say of the state holds only of reducers that
/// override `next_state` inside verified code; an implementation written outside it
/// keeps the default, which then does not describe what it does.
pub trait Reducer<State, Action> {
    /// The state after reducing `action` on `state`.
    open spec fn next_state(&self, state: State, action: Action) -> State {
        state
    }

    fn reduce(&self, state: &mut State, action: &ActionWithId<Action>)
        ensures
            *final(state) == self.next_state(*old(state), action.action),
    ;
}

/// A side-effecting handler run after each reduction, with the whole store at hand.
///
/// It may read the state, use the service and dispatch further actions; a nested
/// dispatch runs to completion before the handler goes on. There is no depth guard:
/// nested dispatches grow the call stack, and a handler that keeps dispatching without
/// end does not return; bounding that is the handler's own duty. Through the store's
/// interface it can only move the last issued identifier forward, and it cannot
/// replace the store's reducer or handler. A verified
/// implementation states what else it does by overriding `post`; the default promises
/// nothing more. A handler that dispatches from `run` cannot be verified (the call
/// would lead back into `dispatch`), so it keeps the default: for such a handler no
/// contract here describes the nested dispatch, beyond the identifier moving forward.
pub trait Effects<State, Service, Action, R>: Sized + Copy {
    /// What running the handler on `before` for `action` leaves in `after`.
    open spec fn post(
        &self,
        before: Store<State, Service, Action, R, Self>,
        action: ActionWithId<Action>,
        after: Store<State, Service, Action, R, Self>,
    ) -> bool {
        true
    }

    fn run(
        &self,
        store: &mut Store<State, Service, Action, R, Self>,
        action: &ActionWithId<Action>,
    )
        ensures
            final(store).last_action_id()@ >= old(store).last_action_id()@,
            final(store).reducer() == old(store).reducer(),
            final(store).effects() == old(store).effects(),
            self.post(*old(store), *action, *final(store)),
    ;
}

/// The handler that does nothing: a store with it only reduces.
#[derive(Debug, Clone, Copy, PartialEq, Eq, Structural, Default)]
pub struct NoEffects;

impl<State, Service, Action, R> Effects<State, Service, Action, R> for NoEffects {
    open spec fn post(
        &self,
        before: Store<State, Service, Action, R, Self>,
        action: ActionWithId<Action>,
        after: Store<State, Service, Action, R, Self>,
    ) -> bool {
        after == before
    }

    fn run(
        &self,
        store: &mut Store<State, Service, Action, R, Self>,
        action: &ActionWithId<Action>,
    ) {
    }
}

/// Holds the state; outside the reduction step it gives read access only.
#[derive(Debug)]
pub struct StateWrapper<State> {
    pub(crate) inner: State,
}

impl<State: Clone> Clone for StateWrapper<State> {
    /// A wrapper around a clone of the state.
    fn clone(&self) -> (r: Self)
        ensures
            cloned(self.value(), r.value()),
    {
        StateWrapper { inner: self.inner.clone() }
    }
}

impl<State> StateWrapper<State> {
    pub closed spec fn value(&self) -> State {
        self.inner
    }

    /// The state, for reading.
    pub fn get(&self) -> (r: &State)
        ensures
            *r == self.value(),
    {
        &self.inner
    }

    /// The state, for the reducer to change.
    fn get_mut(&mut self) -> (r: &mut State)
        ensures
            *r == old(self).value(),
            final(self).value() == *final(r),
    {
        &mut self.inner
    }
}

/// Owns a state, the reducer and effects handler that act on it, and a service;
/// `dispatch` is the one way to change the state.
pub struct Store<State, Service, Action, R, E> {
    pub(crate) reducer: R,
    pub(crate) effects: E,
    pub(crate) state: StateWrapper<State>,
    pub(crate) service: Service,
    pub(crate) monotonic_time: u64,
    pub(crate) last_action_id: ActionId,
    pub(crate) marker: core::marker::PhantomData<Action>,
}

impl<State, Service, Action, R, E> Store<State, Service, Action, R, E> {
    pub closed spec fn current(&self) -> State {
        self.state.value()
    }

    pub closed spec fn reducer(&self) -> R {
        self.reducer
    }

    pub closed spec fn effects(&self) -> E {
        self.effects
    }

    pub closed spec fn current_service(&self) -> Service {
        self.service
    }

    /// The monotonic time recorded at the last dispatch, or at construction.
    pub closed spec fn recorded_time(&self) -> u64 {
        self.monotonic_time
    }

    /// The identifier issued last, or the seed before any dispatch.
    pub closed spec fn last_action_id(&self) -> ActionId {
        self.last_action_id
    }
}

impl<State: Clone, Service: Clone, Action, R: Copy, E: Copy> Clone for Store<
    State,
    Service,
    Action,
    R,
    E,
> {
    /// A store of its own: later dispatches on either leave the other as it is.
    fn clone(&self) -> (r: Self)
        ensures
            r.reducer() == self.reducer(),
            r.effects() == self.effects(),
            r.recorded_time() == self.recorded_time(),
            r.last_action_id() == self.last_action_id(),
            cloned(self.current(), r.current()),
            cloned(self.current_service(), r.current_service()),
    {
        Store {
            reducer: self.reducer,
            effects: self.effects,
            state: self.state.clone(),
            service: self.service.clone(),
            monotonic_time: self.monotonic_time,
            last_action_id: self.last_action_id,
            marker: core::marker::PhantomData,
        }
    }
}

/// Time elapsed from `from` to `to`, zero where the clock went back.
pub open spec fn elapsed_between(from: u64, to: u64) -> u64 {
    if to >= from {
        (to - from) as u64
    } else {
        0
    }
}

impl<State, Service, Action, R: Reducer<State, Action>, E> Store<State, Service, Action, R, E> {
    /// `self` is `before` after one dispatch of `action` was stamped and reduced,
    /// and before its effects ran: the clock was read, the identifier moved on by
    /// the time that elapsed, and the reducer produced the state.
    pub open spec fn reduced_from(self, before: Self, action: Action) -> bool {
        &&& self.reducer() == before.reducer()
        &&& self.effects() == before.effects()
        &&& self.last_action_id()@ == next_value(
            before.last_action_id()@,
            elapsed_between(before.recorded_time(), self.recorded_time()),
        )
        &&& self.current() == before.reducer().next_state(before.current(), action)
    }
}

impl<State, Service: TimeService, Action, R: Reducer<State, Action>, E: Effects<
    State,
    Service,
    Action,
    R,
>> Store<State, Service, Action, R, E> {
    /// Makes a store holding `initial_state`, with identifiers seeded from `initial_time`.
    pub fn new(
        reducer: R,
        effects: E,
        service: Service,
        initial_time: WallTime,
        initial_state: State,
    ) -> (s: Self)
        ensures
            s.current() == initial_state,
            s.reducer() == reducer,
            s.effects() == effects,
            s.last_action_id()@ == seed_value(initial_time),
    {
        let mut service = service;
        let initial_monotonic_time = service.monotonic_time();
        Store {
            reducer,
            effects,
            state: StateWrapper { inner: initial_state },
            service,
            monotonic_time: initial_monotonic_time,
            last_action_id: initial_time.seed(),
            marker: core::marker::PhantomData,
        }
    }

    /// The current state.
    pub fn state(&self) -> (r: &State)
        ensures
            *r == self.current(),
    {
        self.state.get()
    }

    /// The service, for host-level calls outside of dispatch.
    pub fn service(&mut self) -> (r: &mut Service)
        ensures
            *r == old(self).current_service(),
            final(self).current_service() == *final(r),
            final(self).current() == old(self).current(),
            final(self).reducer() == old(self).reducer(),
            final(self).effects() == old(self).effects(),
            final(self).recorded_time() == old(self).recorded_time(),
            final(self).last_action_id() == old(self).last_action_id(),
    {
        &mut self.service
    }

    /// Stamps `action` with a fresh identifier, reduces it on the state, then runs
    /// the effects handler on the updated store.
    pub fn dispatch(&mut self, action: Action)
        ensures
            exists|mid: Self|
                {
                    &&& mid.reduced_from(*old(self), action)
                    &&& old(self).effects().post(
                        mid,
                        ActionWithId { id: mid.last_action_id(), action },
                        *final(self),
                    )
                    &&& final(self).last_action_id()@ >= mid.last_action_id()@
                },
            final(self).last_action_id()@ >= old(self).last_action_id()@,
            final(self).reducer() == old(self).reducer(),
            final(self).effects() == old(self).effects(),
            old(self).last_action_id()@ < u64::MAX ==> final(self).last_action_id()@
                > old(self).last_action_id()@,
    {
        let ghost before = *self;
        let now = self.service.monotonic_time();
        let elapsed = now.saturating_sub(self.monotonic_time);
        self.monotonic_time = now;
        self.last_action_id = self.last_action_id.next(elapsed);
        let action_with_id = ActionWithId { id: self.last_action_id, action };
        self.dispatch_reducer(&action_with_id);
        let ghost mid = *self;
        self.dispatch_effects(&action_with_id);
        assert(mid.reduced_from(before, action));
        assert(action_with_id == ActionWithId { id: mid.last_action_id(), action });
    }

    /// Runs the reducer on the state.
    fn dispatch_reducer(&mut self, action_with_id: &ActionWithId<Action>)
        ensures
            *final(self) == (Store {
                state: StateWrapper {
                    inner: old(self).reducer.next_state(old(self).current(), action_with_id.action),
                },
                ..*old(self)
            }),
    {
        self.reducer.reduce(self.state.get_mut(), action_with_id);
    }

    /// Runs the effects handler on the store.
    fn dispatch_effects(&mut self, action_with_id: &ActionWithId<Action>)
        ensures
            final(self).last_action_id@ >= old(self).last_action_id@,
            final(self).reducer == old(self).reducer,
            final(self).effects == old(self).effects,
            old(self).effects.post(*old(self), *action_with_id, *final(self)),
    {
        let effects = self.effects;
        effects.run(self, action_with_id);
    }
}

} // verus!
