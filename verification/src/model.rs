//! The registry as a mathematical object: a bounded map from cache keys to
//! slot contents, and the transitions that the registry's functions perform
//! on it.
use vstd::prelude::*;
use crate::allocator::CacheKey;
use crate::error::StateError;
use crate::payload::payload_type;
use crate::payload::Payload;
use crate::state::StateCacheType;

verus! {

/// A cached value with its bookkeeping.
pub struct InternalState {
    /// The value, without its static type.
    pub value: Payload,
    /// The key that the value is cached under.
    pub cache_key: CacheKey,
    /// How long the value is kept.
    pub cache_type: StateCacheType,
    /// Whether the value is due for a refresh before it is handed out.
    pub dirty: bool,
    /// When the value was last used, in nanoseconds of the registry's clock.
    pub last_access: u128,
}

impl InternalState {
    /// Whether the value is of the type that the record's key names.
    pub open spec fn typed(self) -> bool {
        payload_type(self.value) == self.cache_key.0
    }
}

/// What a slot holds.
pub enum Slot {
    /// No value. The slot may still be reserved for a key.
    Empty,
    /// The value is being created or refreshed by a call that has not
    /// returned yet.
    Busy,
    /// A value.
    Live(InternalState),
}

/// What has to happen before the value of a key can be handed out.
pub enum Plan {
    /// The key has no slot and none is free.
    Full,
    /// The key's value is being created or refreshed.
    Conflict,
    /// The value is there and up to date.
    Ready,
    /// The value is there and due for a refresh.
    Refresh,
    /// There is no value yet.
    Create,
}

/// The abstract state of a registry: its number of slots, and the content of
/// the slot of each key that has one.
pub struct RegistryModel {
    pub capacity: nat,
    pub entries: Map<CacheKey, Slot>,
}

/// The error that tells a caller that the value of `key` is being created or
/// refreshed: a borrow conflict for a caller that wants to write, a circular
/// dependency for one that wants to read.
pub open spec fn conflict_error(key: CacheKey, exclusive: bool) -> StateError {
    if exclusive {
        StateError::BorrowConflict
    } else {
        StateError::CircularDependency { key }
    }
}

/// The failure in a result, if it is one.
pub open spec fn failure_of<V>(result: Result<V, StateError>) -> Option<StateError> {
    match result {
        Ok(_) => None,
        Err(failure) => Some(failure),
    }
}

/// What a sweep at time `now` leaves of a slot: `None` where the value is
/// dropped and the slot given up. A live value that was handed out since the
/// last sweep counts as used at `now`; every live value that stays is marked
/// for a refresh. Empty and busy slots are left alone.
pub open spec fn swept_slot(slot: Slot, now: u128) -> Option<Slot> {
    match slot {
        Slot::Live(record) => {
            let used = if record.dirty {
                record.last_access
            } else {
                now
            };
            if record.cache_type.expires(used, now) {
                None
            } else {
                Some(Slot::Live(InternalState { dirty: true, last_access: used, ..record }))
            }
        },
        other => Some(other),
    }
}

impl RegistryModel {
    /// A registry holds no more keys than it has slots, and each record
    /// under the key it carries, with a value of the type that the key names.
    pub open spec fn valid(self) -> bool {
        &&& self.entries.dom().finite()
        &&& self.entries.dom().len() <= self.capacity
        &&& forall|key: CacheKey| #[trigger]
            self.is_live(key) ==> self.record(key).cache_key == key && self.record(key).typed()
    }

    /// A registry of `capacity` slots without any key.
    pub open spec fn empty(capacity: nat) -> Self {
        RegistryModel { capacity, entries: Map::empty() }
    }

    /// The number of slots that no key has.
    pub open spec fn free_slots(self) -> nat {
        (self.capacity - self.entries.dom().len()) as nat
    }

    /// The content of the slot of `key`; empty where the key has no slot.
    pub open spec fn slot(self, key: CacheKey) -> Slot {
        if self.entries.contains_key(key) {
            self.entries[key]
        } else {
            Slot::Empty
        }
    }

    /// Whether a value is cached under `key` and can be looked at.
    pub open spec fn is_live(self, key: CacheKey) -> bool {
        self.slot(key) is Live
    }

    /// Whether the value of `key` is being created or refreshed.
    pub open spec fn is_busy(self, key: CacheKey) -> bool {
        self.slot(key) is Busy
    }

    /// The record cached under `key`; meaningful where `is_live(key)`.
    pub open spec fn record(self, key: CacheKey) -> InternalState {
        self.slot(key)->Live_0
    }

    /// Whether a value is cached under `key` that needs no refresh.
    pub open spec fn is_clean(self, key: CacheKey) -> bool {
        self.is_live(key) && !self.record(key).dirty
    }

    /// The registry with the slot of `key` holding `slot`.
    pub open spec fn with_slot(self, key: CacheKey, slot: Slot) -> Self {
        RegistryModel { entries: self.entries.insert(key, slot), ..self }
    }

    /// The registry with `payload` as the value cached under `key`.
    pub open spec fn with_payload(self, key: CacheKey, payload: Payload) -> Self {
        self.with_slot(key, Slot::Live(InternalState { value: payload, ..self.record(key) }))
    }

    /// Whether `after` is this registry once a caller that was handed the
    /// value of `key` for writing is done with it: the same but for the
    /// value, where one was `handed` out, and the same where none was.
    pub open spec fn written(self, key: CacheKey, handed: bool, after: Self) -> bool {
        if handed {
            exists|payload: Payload|
                after == #[trigger] self.with_payload(key, payload) && payload_type(payload)
                    == payload_type(self.record(key).value)
        } else {
            after == self
        }
    }

    /// The registry with `key` and its slot given up.
    pub open spec fn without(self, key: CacheKey) -> Self {
        RegistryModel { entries: self.entries.remove(key), ..self }
    }

    /// What a request for the value of `key` finds.
    pub open spec fn plan(self, key: CacheKey) -> Plan {
        if !self.entries.contains_key(key) && self.free_slots() == 0 {
            Plan::Full
        } else {
            match self.slot(key) {
                Slot::Busy => Plan::Conflict,
                Slot::Empty => Plan::Create,
                Slot::Live(record) => if record.dirty {
                    Plan::Refresh
                } else {
                    Plan::Ready
                },
            }
        }
    }

    /// The registry after a request for `key` was admitted: where the value
    /// has to be created or refreshed, the key's slot is busy until that is
    /// done; otherwise nothing changes.
    pub open spec fn checked_out(self, key: CacheKey) -> Self {
        match self.plan(key) {
            Plan::Create => self.with_slot(key, Slot::Busy),
            Plan::Refresh => self.with_slot(key, Slot::Busy),
            _ => self,
        }
    }

    /// What holds of the preparation of the value of `key`, begun at time
    /// `now`, that left the registry as `after` and ended with `failure`, or
    /// with success where that is `None`.
    ///
    /// The state's own `create` and `update` run in the middle of it and may
    /// use the registry themselves, so `after` is pinned down only where
    /// neither is called: where the key cannot get a slot, where its value is
    /// being created or refreshed, and where the value is there and up to
    /// date. However the preparation ends, it does not leave the key's slot
    /// busy.
    pub open spec fn prepares(
        self,
        after: Self,
        key: CacheKey,
        now: u128,
        exclusive: bool,
        failure: Option<StateError>,
    ) -> bool {
        &&& (self.plan(key) is Full) == (failure == Some(StateError::CapacityExceeded))
        &&& self.plan(key) is Conflict ==> failure == Some(conflict_error(key, exclusive))
        &&& failure is Some && failure->0 is CircularDependency ==> self.plan(key) is Conflict
        &&& self.plan(key) is Full || self.plan(key) is Conflict || self.plan(key) is Ready
            ==> after == self
        &&& self.plan(key) is Ready ==> failure is None
        &&& failure is None ==> after.is_clean(key) && after.record(key).cache_key == key
        &&& self.plan(key) is Create && failure is None ==> after.record(key).last_access == now
        &&& self.plan(key) is Refresh && failure is None ==> after.record(key).last_access
            == self.record(key).last_access && after.record(key).cache_type == self.record(
            key,
        ).cache_type
        &&& failure is Some && failure->0 is ConstructionFailed ==> self.plan(key) is Create
            && failure->0->ConstructionFailed_key == key
        &&& failure is Some && failure->0 is RefreshFailed ==> (self.plan(key) is Create
            || self.plan(key) is Refresh) && failure->0->RefreshFailed_key == key
        &&& failure is Some ==> !(failure->0 is ManualInstallRequired) && !(failure->0 is Failed)
            && !(failure->0 is TypeMismatch)
        &&& !(self.plan(key) is Conflict) ==> !after.is_busy(key)
    }

    /// What holds of a request for the value of `key` as a value of some
    /// type, made at time `now`, that left the registry as `after` and ended
    /// with `failure`, or with success where that is `None`. `typed` says
    /// whether the key names the type that was asked for.
    ///
    /// A value that is there and up to date is handed out as it is if it is
    /// of the type asked for, and is a type mismatch if it is not. Every
    /// other request goes through a preparation, and succeeds only for the
    /// type that the key names.
    pub open spec fn resolves(
        self,
        after: Self,
        key: CacheKey,
        now: u128,
        exclusive: bool,
        typed: bool,
        failure: Option<StateError>,
    ) -> bool {
        if self.plan(key) is Ready {
            after == self && failure == if typed {
                None
            } else {
                Some(StateError::TypeMismatch)
            }
        } else {
            self.prepares(after, key, now, exclusive, failure) && (failure is None ==> typed)
        }
    }

    /// Whether the busy slot of `key` can take `record` back: the record is
    /// the key's, and its value of the type that the key names.
    pub open spec fn accepts(self, key: CacheKey, record: InternalState) -> bool {
        self.is_busy(key) && record.cache_key == key && record.typed()
    }

    /// The registry after the refresh of `record`, checked out for `key`,
    /// ended with `refreshed`: the record goes back into its slot, up to
    /// date if the refresh succeeded and still due for one if it failed.
    pub open spec fn settled(
        self,
        key: CacheKey,
        record: InternalState,
        refreshed: Result<(), StateError>,
    ) -> Self {
        if self.accepts(key, record) {
            self.with_slot(
                key,
                Slot::Live(InternalState { dirty: record.dirty && refreshed is Err, ..record }),
            )
        } else {
            self
        }
    }

    /// What the caller is told after the refresh of `record` for `key` ended
    /// with `refreshed`.
    pub open spec fn settled_result(
        self,
        key: CacheKey,
        record: InternalState,
        refreshed: Result<(), StateError>,
    ) -> Result<(), StateError> {
        match refreshed {
            Err(cause) => Err(StateError::RefreshFailed { key, cause: Box::new(cause) }),
            Ok(_) => if self.accepts(key, record) {
                Ok(())
            } else {
                Err(StateError::BorrowConflict)
            },
        }
    }

    /// The registry after the creation of the value of `key` failed: the
    /// slot is empty again and stays reserved for the key.
    pub open spec fn abandoned(self, key: CacheKey) -> Self {
        if self.is_busy(key) {
            self.with_slot(key, Slot::Empty)
        } else {
            self
        }
    }

    /// The registry after `record` was put in by hand: it replaces what its
    /// key had, unless its value is not of the type that its key names, the
    /// key cannot get a slot, or the key's value is being created or
    /// refreshed.
    pub open spec fn installed(self, record: InternalState) -> Self {
        if !record.typed() {
            self
        } else {
            match self.plan(record.cache_key) {
                Plan::Full => self,
                Plan::Conflict => self,
                _ => self.with_slot(record.cache_key, Slot::Live(record)),
            }
        }
    }

    /// What the caller is told after `record` was put in by hand.
    pub open spec fn installed_result(self, record: InternalState) -> Result<(), StateError> {
        if !record.typed() {
            Err(StateError::TypeMismatch)
        } else {
            match self.plan(record.cache_key) {
                Plan::Full => Err(StateError::CapacityExceeded),
                Plan::Conflict => Err(StateError::BorrowConflict),
                _ => Ok(()),
            }
        }
    }

    /// The registry after a sweep at time `now`: each key keeps what
    /// `swept_slot` leaves of its slot, and gives the slot up where that is
    /// nothing.
    pub open spec fn sweep(self, now: u128) -> Self {
        RegistryModel {
            capacity: self.capacity,
            entries: Map::new(
                |key: CacheKey|
                    self.entries.contains_key(key) && swept_slot(self.entries[key], now) is Some,
                |key: CacheKey| swept_slot(self.entries[key], now)->0,
            ),
        }
    }
}

} // verus!
