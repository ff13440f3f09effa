//! What a cacheable state has to provide, and how long it is kept.
use vstd::prelude::*;
use std::hash::Hash;
use std::time::Duration;
use crate::clock::duration_as_nanos;
use crate::clock::duration_nanos;
use crate::error::StateError;
use crate::registry::StateRegistry;

verus! {

/// How long a cached state is kept.
pub enum StateCacheType {
    /// The state is kept for good; a sweep only marks it for a refresh.
    Persistent,
    /// The state is dropped by the first sweep that finds it unused for
    /// longer than the given time.
    Timed(Duration),
    /// The state is dropped by every sweep.
    Volatile,
}

impl StateCacheType {
    /// Whether a sweep at time `now` drops a state of this kind that was last
    /// used at `last_access`. Times are in nanoseconds.
    pub open spec fn expires(self, last_access: u128, now: u128) -> bool {
        match self {
            StateCacheType::Persistent => false,
            StateCacheType::Volatile => true,
            StateCacheType::Timed(timeout) => now - last_access > duration_nanos(timeout),
        }
    }

    pub fn is_expired(&self, last_access: u128, now: u128) -> (r: bool)
        ensures
            r == self.expires(last_access, now),
    {
        match self {
            StateCacheType::Persistent => false,
            StateCacheType::Volatile => true,
            StateCacheType::Timed(timeout) => {
                let limit: u128 = duration_as_nanos(timeout);
                now > last_access && now - last_access > limit
            },
        }
    }
}

/// A value that the registry can make, keep and refresh on request.
///
/// `create` and `update` are handed the registry and may ask it for other
/// states. They must leave it well formed, which every use of its public
/// functions does.
pub trait State: Sized + Send + 'static {
    /// Selects which instance of the state is meant, and is handed to
    /// `create`. Instances are told apart by the parameter's hash.
    type Parameter: Hash + PartialEq;

    /// Makes a new instance. `update` is called on it before it is handed
    /// out. Without an implementation of its own the state cannot be made by
    /// the registry and has to be put there with `set`.
    fn create(states: &mut StateRegistry, _param: Self::Parameter) -> (r: Result<Self, StateError>)
        requires
            old(states).wf(),
        ensures
            final(states).wf(),
        default_ensures
            r == Err::<Self, StateError>(StateError::ManualInstallRequired),
            *final(states) == *old(states),
    {
        Err(StateError::ManualInstallRequired)
    }

    /// How long instances are kept. Without an implementation of its own a
    /// state is volatile.
    fn cache_type() -> (r: StateCacheType)
        default_ensures
            r is Volatile,
    {
        StateCacheType::Volatile
    }

    /// Brings the instance up to date; called at most once between two
    /// sweeps.
    fn update(&mut self, states: &mut StateRegistry) -> (r: Result<(), StateError>)
        requires
            old(states).wf(),
        ensures
            final(states).wf(),
        default_ensures
            r is Ok,
            *final(self) == *old(self),
            *final(states) == *old(states),
    {
        Ok(())
    }
}

} // verus!
