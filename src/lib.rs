//! A single-threaded store in the reducer/effects style.
//!
//! One authoritative state value lives in a [`Store`]. It changes only through
//! [`Store::dispatch`], which stamps every action with a fresh, strictly increasing
//! [`ActionId`], runs the pure reducer on the state and then runs the effects handler
//! with the whole store at hand.
use vstd::prelude::*;

pub mod laws;
pub mod store;

pub use store::{Effects, NoEffects, Reducer, StateWrapper, Store, TimeService};

verus! {

/// The value an identifier takes after `prev` when `elapsed` nanoseconds of
/// monotonic time passed since it was issued: it moves on by the elapsed time,
/// by one at least, and stops at the largest `u64`.
pub open spec fn next_value(prev: u64, elapsed: u64) -> u64 {
    let step: int = if elapsed == 0 { 1 } else { elapsed as int };
    if prev + step > u64::MAX {
        u64::MAX
    } else {
        (prev + step) as u64
    }
}

/// Identifier of a dispatched action; identifiers issued by one store are totally
/// ordered by the order of dispatch.
#[derive(Debug, Clone, Copy, PartialEq, Eq, Structural, PartialOrd, Ord, Hash)]
pub struct ActionId(u64);

impl View for ActionId {
    type V = u64;

    closed spec fn view(&self) -> u64 {
        self.0
    }
}

impl ActionId {
    /// The identifier of "no action yet"; it sorts before every issued identifier.
    pub fn zero() -> (r: ActionId)
        ensures
            r@ == 0,
    {
        ActionId(0)
    }

    /// Builds an identifier from a raw value, as a store does once to seed its
    /// identifiers, or to restore one read back from a log. Nothing checks that the
    /// value was ever issued.
    pub fn new_unchecked(value: u64) -> (r: ActionId)
        ensures
            r@ == value,
    {
        ActionId(value)
    }

    /// The identifier that follows this one after `elapsed` nanoseconds.
    pub fn next(self, elapsed: u64) -> (r: ActionId)
        ensures
            r@ == next_value(self@, elapsed),
            self@ < u64::MAX ==> r@ > self@,
            self@ < u64::MAX && elapsed == 0 ==> r@ == self@ + 1,
            r@ > 0,
    {
        let step: u64 = if elapsed == 0 { 1 } else { elapsed };
        ActionId(self.0.saturating_add(step))
    }
}

impl From<ActionId> for u64 {
    fn from(id: ActionId) -> (r: u64)
        ensures
            r == id@,
    {
        id.0
    }
}

impl vstd::std_specs::convert::FromSpecImpl<ActionId> for u64 {
    open spec fn obeys_from_spec() -> bool {
        true
    }

    open spec fn from_spec(id: ActionId) -> u64 {
        id@
    }
}

/// An action together with the identifier its dispatch issued.
#[derive(Debug, Clone)]
pub struct ActionWithId<Action> {
    pub id: ActionId,
    pub action: Action,
}

/// A wall-clock reading, in nanoseconds since the Unix epoch (negative before it).
#[derive(Debug, Clone, Copy, PartialEq, Eq, Structural)]
pub struct WallTime {
    pub unix_nanos: i128,
}

/// The number of distinct `u64` values.
pub const U64_RANGE: i128 = 0x1_0000_0000_0000_0000;

/// The value a store seeds its identifiers from: the nanoseconds since the epoch,
/// taken modulo 2^64, and zero for a time before the epoch.
pub open spec fn seed_value(t: WallTime) -> u64 {
    if t.unix_nanos <= 0 {
        0
    } else {
        (t.unix_nanos % U64_RANGE) as u64
    }
}

impl WallTime {
    /// The identifier a store made at this time starts from.
    pub fn seed(&self) -> (r: ActionId)
        ensures
            r@ == seed_value(*self),
    {
        if self.unix_nanos <= 0 {
            ActionId::new_unchecked(0)
        } else {
            ActionId::new_unchecked((self.unix_nanos % U64_RANGE) as u64)
        }
    }
}

} // verus!
