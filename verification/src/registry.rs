//! The state registry: a table of cached values with lazy construction,
//! refresh on demand and expiry at each sweep.
use vstd::prelude::*;
use std::time::Instant;
use crate::allocator::CacheKey;
use crate::allocator::StateAllocator;
use crate::clock::clock_elapsed;
use crate::clock::clock_start;
use crate::clock::duration_as_nanos;
use crate::error::StateError;
use crate::model::conflict_error;
use crate::model::failure_of;
use crate::model::swept_slot;
use crate::model::InternalState;
use crate::model::Plan;
use crate::model::RegistryModel;
use crate::model::Slot;
use crate::allocator::cache_key_of;
use crate::allocator::hashes_to;
use crate::allocator::same_key;
use crate::payload::downcast_mut;
use crate::payload::view_as;
use crate::payload::yields;
use crate::payload::erase;
use crate::payload::is_tag_of;
use crate::payload::payload_type;
use crate::payload::same_type;
use crate::payload::stored_type;
use crate::payload::Payload;
use crate::state::State;

verus! {

/// What a caller that was admitted to the value of a key has to do next.
pub enum Checkout {
    /// Nothing: the value is there and up to date.
    Ready,
    /// Create the value. The key's slot is busy until the caller settles or
    /// abandons it.
    Create,
    /// Refresh the record, which was taken out of its slot. The slot is busy
    /// until the caller settles it.
    Refresh(InternalState),
}

/// Whether `slot` may stand in a slot whose owner is `owner`: a slot without
/// an owner is empty, and a record lies in the slot of its own key, with a
/// value of the type that the key names.
pub open spec fn slot_fits(slot: Slot, owner: Option<CacheKey>) -> bool {
    match slot {
        Slot::Empty => true,
        Slot::Busy => owner is Some,
        Slot::Live(record) => owner == Some(record.cache_key) && record.typed(),
    }
}

/// A table of cached values of any type, of fixed size.
pub struct StateRegistry {
    allocator: StateAllocator,
    states: Vec<Slot>,
    epoch: Instant,
}

impl View for StateRegistry {
    type V = RegistryModel;

    closed spec fn view(&self) -> RegistryModel {
        RegistryModel {
            capacity: self.states@.len(),
            entries: Map::new(
                |key: CacheKey| self.allocator.lookup().contains_key(key),
                |key: CacheKey| self.states@[self.allocator.lookup()[key] as int],
            ),
        }
    }
}

impl StateRegistry {
    /// The registry's invariant: the allocator is consistent and has one
    /// slot for each cell of the table, and each cell fits its owner.
    pub closed spec fn wf(&self) -> bool {
        &&& self.allocator.wf()
        &&& self.allocator.capacity() == self.states@.len()
        &&& forall|i: int|
            0 <= i < self.states@.len() ==> slot_fits(
                #[trigger] self.states@[i],
                self.allocator.key_at(i),
            )
    }

    /// A well-formed registry holds no more keys than it has slots.
    pub proof fn lemma_valid(&self)
        requires
            self.wf(),
        ensures
            self@.valid(),
    {
        self.lemma_free();
    }

    /// The model's free slots are the allocator's.
    proof fn lemma_free(&self)
        requires
            self.wf(),
        ensures
            self@.valid(),
            self@.free_slots() == self.allocator.free().len(),
    {
        assert(self@.entries.dom() =~= self.allocator.lookup().dom());
    }

    /// A registry of `capacity` slots, all of them free.
    pub fn new(capacity: usize) -> (r: Self)
        ensures
            r.wf(),
            r@ == RegistryModel::empty(capacity as nat),
    {
        let allocator = StateAllocator::new(capacity);
        let mut states: Vec<Slot> = Vec::new();
        let mut made: usize = 0;
        while made < capacity
            invariant
                made <= capacity,
                states@.len() == made,
                forall|i: int| 0 <= i < made ==> states@[i] is Empty,
            decreases capacity - made,
        {
            states.push(Slot::Empty);
            made = made + 1;
        }
        let r = StateRegistry { allocator, states, epoch: clock_start() };
        proof {
            assert(r@.entries =~= Map::<CacheKey, Slot>::empty());
        }
        r
    }

    /// The time on the registry's clock: the nanoseconds since it was made.
    pub fn now(&self) -> (r: u128) {
        let elapsed = clock_elapsed(&self.epoch);
        duration_as_nanos(&elapsed)
    }

    /// The number of slots.
    pub fn capacity(&self) -> (r: usize)
        requires
            self.wf(),
        ensures
            r == self@.capacity,
    {
        self.states.len()
    }

    /// The number of slots that no key has.
    pub fn free_slots(&self) -> (r: usize)
        requires
            self.wf(),
        ensures
            r == self@.free_slots(),
    {
        proof {
            self.lemma_free();
        }
        self.allocator.free_count()
    }

    /// Whether `key` has a slot, with or without a value in it.
    pub fn contains_key(&self, key: &CacheKey) -> (r: bool)
        requires
            self.wf(),
        ensures
            r == self@.entries.contains_key(*key),
    {
        self.allocator.find(key).is_some()
    }

    /// The record cached under `key`, unless there is none or it is being
    /// created or refreshed.
    pub fn record(&self, key: &CacheKey) -> (r: Option<&InternalState>)
        requires
            self.wf(),
        ensures
            r == if self@.is_live(*key) {
                Some(&self@.record(*key))
            } else {
                None
            },
    {
        match self.allocator.find(key) {
            None => None,
            Some(index) => match &self.states[index] {
                Slot::Live(record) => Some(record),
                _ => None,
            },
        }
    }

    /// Whether the value of `key` is being created or refreshed.
    pub fn is_busy(&self, key: &CacheKey) -> (r: bool)
        requires
            self.wf(),
        ensures
            r == self@.is_busy(*key),
    {
        self.busy_slot(key).is_some()
    }

    /// The slot of `key`, if it is busy.
    fn busy_slot(&self, key: &CacheKey) -> (r: Option<usize>)
        requires
            self.wf(),
        ensures
            r is Some == self@.is_busy(*key),
            r matches Some(index) ==> self.allocator.lookup().contains_key(*key)
                && self.allocator.lookup()[*key] == index,
    {
        match self.allocator.find(key) {
            None => None,
            Some(index) => match &self.states[index] {
                Slot::Busy => Some(index),
                _ => None,
            },
        }
    }

    /// Gives `key` a slot if it has none and one is free, and reports the
    /// key's slot.
    fn reserve(&mut self, key: &CacheKey) -> (r: Option<usize>)
        requires
            old(self).wf(),
        ensures
            final(self).wf(),
            (r is None) == (old(self)@.plan(*key) is Full),
            r is None ==> final(self)@ == old(self)@,
            r matches Some(index) ==> {
                &&& final(self).allocator.lookup().contains_key(*key)
                &&& final(self).allocator.lookup()[*key] == index
                &&& final(self).states@[index as int] == old(self)@.slot(*key)
                &&& final(self)@ == old(self)@.with_slot(*key, old(self)@.slot(*key))
            },
    {
        proof {
            old(self).lemma_free();
        }
        let r = self.allocator.index_for(key, true);
        proof {
            if r is Some {
                assert(self@.entries =~= old(self)@.entries.insert(*key, old(self)@.slot(*key)));
            }
        }
        r
    }

    /// Puts `slot` into the slot of `key`, which is slot `index`, and hands
    /// out what was there.
    fn replace_slot(&mut self, key: &CacheKey, index: usize, slot: Slot) -> (previous: Slot)
        requires
            old(self).wf(),
            old(self).allocator.lookup().contains_key(*key),
            old(self).allocator.lookup()[*key] == index,
            slot_fits(slot, Some(*key)),
        ensures
            final(self).wf(),
            final(self)@ == old(self)@.with_slot(*key, slot),
            previous == old(self)@.slot(*key),
            final(self).allocator == old(self).allocator,
            final(self).states@ == old(self).states@.update(index as int, slot),
    {
        let mut taken = slot;
        std::mem::swap(&mut self.states[index], &mut taken);
        proof {
            assert(self@.entries =~= old(self)@.entries.insert(*key, slot));
        }
        taken
    }

    /// Admits a request for the value of `key`, and says what the caller has
    /// to do before the value can be handed out.
    ///
    /// A key without a slot is given one. Where the value has to be created
    /// or refreshed, the slot is busy until the caller calls `settle` or
    /// `abandon`; a request for a busy key fails, with a borrow conflict for
    /// an `exclusive` request and a circular dependency for a shared one.
    pub fn checkout(&mut self, key: &CacheKey, exclusive: bool) -> (r: Result<
        Checkout,
        StateError,
    >)
        requires
            old(self).wf(),
        ensures
            final(self).wf(),
            final(self)@ == old(self)@.checked_out(*key),
            r == match old(self)@.plan(*key) {
                Plan::Full => Err::<Checkout, StateError>(StateError::CapacityExceeded),
                Plan::Conflict => Err(conflict_error(*key, exclusive)),
                Plan::Ready => Ok(Checkout::Ready),
                Plan::Create => Ok(Checkout::Create),
                Plan::Refresh => Ok(Checkout::Refresh(old(self)@.record(*key))),
            },
    {
        let index = match self.reserve(key) {
            Some(index) => index,
            None => {
                return Err(StateError::CapacityExceeded);
            },
        };
        proof {
            assert(self@.with_slot(*key, Slot::Busy).entries =~= old(self)@.with_slot(
                *key,
                Slot::Busy,
            ).entries);
        }
        match &self.states[index] {
            Slot::Busy => {
                proof {
                    assert(self@.entries =~= old(self)@.entries);
                }
                if exclusive {
                    return Err(StateError::BorrowConflict);
                } else {
                    return Err(StateError::CircularDependency { key: *key });
                }
            },
            Slot::Empty => {},
            Slot::Live(record) => {
                if !record.dirty {
                    proof {
                        assert(self@.entries =~= old(self)@.entries);
                    }
                    return Ok(Checkout::Ready);
                }
            },
        }
        let previous = self.replace_slot(key, index, Slot::Busy);
        match previous {
            Slot::Live(record) => Ok(Checkout::Refresh(record)),
            _ => Ok(Checkout::Create),
        }
    }

    /// Ends a refresh: puts `record`, checked out for `key`, back into its
    /// slot and passes on how the refresh went.
    ///
    /// After a successful refresh the record is up to date; after a failed
    /// one it stays due for a refresh, and the failure is reported with the
    /// key. A record that the slot cannot take back is dropped: the slot is
    /// not busy, the record belongs to another key, or its value is not of
    /// the type that the key names.
    pub fn settle(
        &mut self,
        key: &CacheKey,
        record: InternalState,
        refreshed: Result<(), StateError>,
    ) -> (r: Result<(), StateError>)
        requires
            old(self).wf(),
        ensures
            final(self).wf(),
            final(self)@ == old(self)@.settled(*key, record, refreshed),
            r == old(self)@.settled_result(*key, record, refreshed),
    {
        let mut record = record;
        let failure = match refreshed {
            Ok(_) => {
                record.dirty = false;
                None
            },
            Err(cause) => Some(cause),
        };
        let accepted = match self.busy_slot(key) {
            Some(index) => {
                if same_key(&record.cache_key, key) && same_type(
                    &stored_type(&record.value),
                    &key.0,
                ) {
                    let _ = self.replace_slot(key, index, Slot::Live(record));
                    true
                } else {
                    false
                }
            },
            None => false,
        };
        match failure {
            Some(cause) => Err(StateError::RefreshFailed { key: *key, cause: Box::new(cause) }),
            None => if accepted {
                Ok(())
            } else {
                Err(StateError::BorrowConflict)
            },
        }
    }

    /// Ends a creation that failed with `cause`: the busy slot of `key` is
    /// empty again, and the failure is reported with the key.
    pub fn abandon(&mut self, key: &CacheKey, cause: StateError) -> (r: StateError)
        requires
            old(self).wf(),
        ensures
            final(self).wf(),
            final(self)@ == old(self)@.abandoned(*key),
            r == (StateError::ConstructionFailed { key: *key, cause: Box::new(cause) }),
    {
        match self.busy_slot(key) {
            Some(index) => {
                let _ = self.replace_slot(key, index, Slot::Empty);
            },
            None => {},
        }
        StateError::ConstructionFailed { key: *key, cause: Box::new(cause) }
    }

    /// Puts `record` in by hand, in place of what its key had. Fails where
    /// the record's value is not of the type that its key names, where the
    /// key has no slot and none is free, and where the key's value is being
    /// created or refreshed.
    pub fn install(&mut self, record: InternalState) -> (r: Result<(), StateError>)
        requires
            old(self).wf(),
        ensures
            final(self).wf(),
            final(self)@ == old(self)@.installed(record),
            r == old(self)@.installed_result(record),
    {
        let key = record.cache_key;
        if !same_type(&stored_type(&record.value), &key.0) {
            return Err(StateError::TypeMismatch);
        }
        let index = match self.reserve(&key) {
            Some(index) => index,
            None => {
                return Err(StateError::CapacityExceeded);
            },
        };
        proof {
            assert(self@.with_slot(key, Slot::Live(record)).entries =~= old(self)@.with_slot(
                key,
                Slot::Live(record),
            ).entries);
        }
        let busy = match &self.states[index] {
            Slot::Busy => true,
            _ => false,
        };
        if busy {
            proof {
                assert(self@.entries =~= old(self)@.entries);
            }
            return Err(StateError::BorrowConflict);
        }
        let _ = self.replace_slot(&key, index, Slot::Live(record));
        Ok(())
    }

    /// The payload cached under `key`, for writing, unless there is none or
    /// it is being created or refreshed. What the caller leaves in it is the
    /// registry's new payload for the key; nothing else changes. The
    /// registry stays well formed if the caller leaves a value of the same
    /// type.
    pub(crate) fn payload_mut(&mut self, key: &CacheKey) -> (r: Option<&mut Payload>)
        requires
            old(self).wf(),
        ensures
            match r {
                Some(payload) => {
                    &&& payload_type(*final(payload)) == payload_type(*payload) ==> final(self).wf()
                    &&& old(self)@.is_live(*key)
                    &&& *payload == old(self)@.record(*key).value
                    &&& final(self)@ == old(self)@.with_slot(
                        *key,
                        Slot::Live(
                            InternalState { value: *final(payload), ..old(self)@.record(*key) },
                        ),
                    )
                },
                None => !old(self)@.is_live(*key) && final(self)@ == old(self)@ && final(self).wf(),
            },
    {
        let index = match self.allocator.find(key) {
            Some(index) => index,
            None => {
                return None;
            },
        };
        let live = match &self.states[index] {
            Slot::Live(_) => true,
            _ => false,
        };
        if !live {
            return None;
        }
        let ghost before = *self;
        match &mut self.states[index] {
            Slot::Live(record) => {
                let payload = &mut record.value;
                proof {
                    let after = StateRegistry {
                        allocator: before.allocator,
                        states: after_borrow(self.states),
                        epoch: before.epoch,
                    };
                    let slot = Slot::Live(
                        InternalState { value: *final(payload), ..before@.record(*key) },
                    );
                    assert(after@.entries =~= before@.entries.insert(*key, slot));
                }
                Some(payload)
            },
            _ => None,
        }
    }

    /// The sweep that starts a new tick, at the time that the registry's
    /// clock shows.
    pub fn invalidate_states(&mut self)
        requires
            old(self).wf(),
        ensures
            final(self).wf(),
            exists|now: u128| final(self)@ == #[trigger] old(self)@.sweep(now),
    {
        let now = self.now();
        self.invalidate_states_at(now);
    }

    /// The sweep that starts a new tick, at time `now`.
    ///
    /// Every value that was handed out since the last sweep counts as used at
    /// `now`. Volatile values are dropped, timed values are dropped where
    /// more than their time has passed since they were last used, and what
    /// stays is marked for a refresh. A dropped value gives up its slot.
    /// Values that are being created or refreshed are left alone.
    pub fn invalidate_states_at(&mut self, now: u128)
        requires
            old(self).wf(),
        ensures
            final(self).wf(),
            final(self)@ == old(self)@.sweep(now),
    {
        let mut index: usize = 0;
        while index < self.states.len()
            invariant
                self.wf(),
                index <= self.states@.len(),
                self.states@.len() == old(self).states@.len(),
                old(self).wf(),
                forall|k: CacheKey| #[trigger]
                    self.allocator.lookup().contains_key(k) ==> old(
                        self,
                    ).allocator.lookup().contains_key(k) && self.allocator.lookup()[k] == old(
                        self,
                    ).allocator.lookup()[k],
                forall|k: CacheKey| #[trigger]
                    old(self).allocator.lookup().contains_key(k) ==> (
                    self.allocator.lookup().contains_key(k) <==> old(self).allocator.lookup()[k]
                        >= index || swept_slot(
                        old(self).states@[old(self).allocator.lookup()[k] as int],
                        now,
                    ) is Some),
                forall|j: int|
                    0 <= j < index ==> #[trigger] self.states@[j] == match swept_slot(
                        old(self).states@[j],
                        now,
                    ) {
                        Some(slot) => slot,
                        None => Slot::Empty,
                    },
                forall|j: int|
                    index <= j < self.states@.len() ==> #[trigger] self.states@[j] == old(
                        self,
                    ).states@[j],
                forall|j: int|
                    index <= j < self.states@.len() ==> #[trigger] self.allocator.key_at(j) == old(
                        self,
                    ).allocator.key_at(j),
            decreases self.states@.len() - index,
        {
            let mut slot = Slot::Empty;
            std::mem::swap(&mut self.states[index], &mut slot);
            match slot {
                Slot::Live(record) => {
                    let mut record = record;
                    if !record.dirty {
                        record.last_access = now;
                        record.dirty = true;
                    }
                    if record.cache_type.is_expired(record.last_access, now) {
                        self.allocator.free_entry(&record.cache_key);
                    } else {
                        self.states[index] = Slot::Live(record);
                    }
                },
                other => {
                    self.states[index] = other;
                },
            }
            index = index + 1;
        }
        proof {
            assert(self@.entries =~= old(self)@.sweep(now).entries);
        }
    }
}

/// Whether `record` is what is filed for `value`, a `T`, under `key` at
/// time `now`: a record of the key, last used at `now`, kept as long as
/// `T::cache_type` says, with `value` in it, and due for a refresh as
/// `dirty` says.
pub open spec fn filed_record<T: State>(
    record: InternalState,
    key: CacheKey,
    now: u128,
    dirty: bool,
    value: T,
) -> bool {
    &&& record.cache_key == key
    &&& record.dirty == dirty
    &&& record.last_access == now
    &&& record.typed()
    &&& call_ensures(T::cache_type, (), record.cache_type)
    &&& yields::<T>(record.value, Some(&value))
}

/// Whether a creation for `key` that ended with `made`, in a registry that
/// was `before`, leaves the registry as `after` and gives `step`.
///
/// A failure of `create` is reported with the key, and the key's slot is
/// given up. So is a value made for a key that does not name its type. Any
/// other value is filed in a record that is due for its first refresh, and
/// the registry left alone.
pub open spec fn admits<T: State>(
    before: RegistryModel,
    key: CacheKey,
    now: u128,
    made: Result<T, StateError>,
    after: RegistryModel,
    step: Result<InternalState, StateError>,
) -> bool {
    match made {
        Err(cause) => after == before.abandoned(key) && step == Err::<InternalState, StateError>(
            StateError::ConstructionFailed { key, cause: Box::new(cause) },
        ),
        Ok(value) => if is_tag_of::<T>(key.0) {
            after == before && step is Ok && filed_record::<T>(step->Ok_0, key, now, true, value)
        } else {
            after == before.abandoned(key) && step == Err::<InternalState, StateError>(
                StateError::ConstructionFailed {
                    key,
                    cause: Box::new(StateError::TypeMismatch),
                },
            )
        },
    }
}

/// Whether the refresh of `record` for `key`, which ended with `refreshed`,
/// left `written` as the record's value and the registry as `mid`, gives
/// `r` and leaves the registry as `after`: the record goes back into its
/// slot with what was written.
pub open spec fn refreshed_into<T: State>(
    record: InternalState,
    written: T,
    mid: RegistryModel,
    key: CacheKey,
    refreshed: Result<(), StateError>,
    after: RegistryModel,
    r: Result<(), StateError>,
) -> bool {
    exists|value: Payload| #[trigger]
        yields::<T>(value, Some(&written)) && payload_type(value) == payload_type(record.value)
            && after == mid.settled(key, InternalState { value, ..record }, refreshed) && r
            == mid.settled_result(key, InternalState { value, ..record }, refreshed)
}

/// What a request for the value of `key` as a `T` ends with, once the value
/// was `prepared`: the failure of the preparation, or else success if the
/// key names the type `T` and a type mismatch if it does not.
pub open spec fn handed_out<T: State>(
    key: CacheKey,
    prepared: Result<(), StateError>,
) -> Option<StateError> {
    match prepared {
        Err(failure) => Some(failure),
        Ok(_) => if is_tag_of::<T>(key.0) {
            None
        } else {
            Some(StateError::TypeMismatch)
        },
    }
}

/// Brings the value in `value` up to date, as a `T`: the refresh that a
/// record of a `T` is due.
///
/// Where the value is no `T`, this is a type mismatch and nothing changes.
/// Where it is one, its `update` is called on it with the registry as it
/// is, and what that returns is the result; what `update` leaves of the
/// value and of the registry is what this function leaves of them. The
/// value keeps its type either way.
pub fn value_update_proxy<T: State>(value: &mut Payload, states: &mut StateRegistry) -> (r: Result<
    (),
    StateError,
>)
    requires
        old(states).wf(),
    ensures
        final(states).wf(),
        payload_type(*final(value)) == payload_type(*old(value)),
        !is_tag_of::<T>(payload_type(*old(value))) ==> r == Err::<(), StateError>(
            StateError::TypeMismatch,
        ) && *final(value) == *old(value) && *final(states) == *old(states),
        is_tag_of::<T>(payload_type(*old(value))) ==> exists|
            state: &mut T,
            handed: &mut StateRegistry,
        |
            #[trigger] call_ensures(T::update, (state, handed), r) && yields::<T>(
                *old(value),
                Some(&*state),
            ) && yields::<T>(*final(value), Some(&*final(state))) && *handed == *old(states)
                && *final(handed) == *final(states),
{
    match downcast_mut::<T>(value) {
        Some(state) => state.update(states),
        None => Err(StateError::TypeMismatch),
    }
}

impl StateRegistry {
    /// The key under which the registry caches the `T` made from `params`:
    /// the identifier of `T`, and the hash of `params`.
    pub fn key_for<T: State>(params: &T::Parameter) -> (r: CacheKey)
        ensures
            is_tag_of::<T>(r.0),
            hashes_to::<T::Parameter>(params, r.1),
    {
        cache_key_of::<T, T::Parameter>(params)
    }

    /// Makes sure that the value of `key` is there and up to date, as a `T`
    /// made from `params`: creates it where there is none, and refreshes it
    /// where it is due for a refresh, which a new value always is.
    ///
    /// Where a value has to be created, `create` is called once, with
    /// `params` and the registry as `checkout` left it, and its outcome is
    /// taken as `admit_created` says. A record that was made or found due
    /// for a refresh is refreshed as `refresh_record` says, in the registry
    /// that the step before left. A value that had to be created or
    /// refreshed is there afterwards only if `key` names the type `T`, and a
    /// created one is kept as long as `T::cache_type` says.
    pub fn initialize_value<T: State>(
        &mut self,
        key: CacheKey,
        now: u128,
        params: T::Parameter,
        exclusive: bool,
    ) -> (r: Result<(), StateError>)
        requires
            old(self).wf(),
        ensures
            final(self).wf(),
            old(self)@.prepares(final(self)@, key, now, exclusive, failure_of(r)),
            r is Ok && !(old(self)@.plan(key) is Ready) ==> is_tag_of::<T>(key.0),
            r is Ok && old(self)@.plan(key) is Create ==> call_ensures(
                T::cache_type,
                (),
                final(self)@.record(key).cache_type,
            ),
            old(self)@.plan(key) is Refresh && !is_tag_of::<T>(key.0) ==> final(self)@ == old(
                self,
            )@.checked_out(key).settled(
                key,
                old(self)@.record(key),
                Err(StateError::TypeMismatch),
            ) && r == old(self)@.checked_out(key).settled_result(
                key,
                old(self)@.record(key),
                Err(StateError::TypeMismatch),
            ),
            old(self)@.plan(key) is Refresh && is_tag_of::<T>(key.0) ==> exists|
                state: &mut T,
                handed: &mut StateRegistry,
                refreshed: Result<(), StateError>,
            |
                #[trigger] call_ensures(T::update, (state, handed), refreshed) && yields::<T>(
                    old(self)@.record(key).value,
                    Some(&*state),
                ) && (*handed)@ == old(self)@.checked_out(key) && refreshed_into::<T>(
                    old(self)@.record(key),
                    *final(state),
                    (*final(handed))@,
                    key,
                    refreshed,
                    final(self)@,
                    r,
                ),
            old(self)@.plan(key) is Create ==> exists|
                handed: &mut StateRegistry,
                made: Result<T, StateError>,
                filed: RegistryModel,
                step: Result<InternalState, StateError>,
            |
                #[trigger] call_ensures(T::create, (handed, params), made) && (*handed)@ == old(
                    self,
                )@.checked_out(key) && #[trigger] admits::<T>(
                    (*final(handed))@,
                    key,
                    now,
                    made,
                    filed,
                    step,
                ) && match step {
                    Err(failure) => final(self)@ == filed && r == Err::<(), StateError>(failure),
                    Ok(record) => exists|
                        state: &mut T,
                        again: &mut StateRegistry,
                        refreshed: Result<(), StateError>,
                    |
                        #[trigger] call_ensures(T::update, (state, again), refreshed)
                            && yields::<T>(record.value, Some(&*state)) && (*again)@ == filed
                            && refreshed_into::<T>(
                            record,
                            *final(state),
                            (*final(again))@,
                            key,
                            refreshed,
                            final(self)@,
                            r,
                        ),
                },
    {
        let record = match self.checkout(&key, exclusive) {
            Err(failure) => {
                return Err(failure);
            },
            Ok(Checkout::Ready) => {
                return Ok(());
            },
            Ok(Checkout::Refresh(record)) => record,
            Ok(Checkout::Create) => {
                let made = T::create(self, params);
                match self.admit_created::<T>(&key, now, made) {
                    Err(failure) => {
                        return Err(failure);
                    },
                    Ok(record) => record,
                }
            },
        };
        self.refresh_record::<T>(&key, record)
    }

    /// Takes the outcome of the creation of the value of `key` as a `T`, at
    /// time `now`.
    ///
    /// A failure is reported with the key, and the key's busy slot is empty
    /// again. A value is filed in a fresh record, which is due for its first
    /// refresh and kept as long as `T::cache_type` says; the registry is left
    /// alone until the record is settled. A value made for a key that does
    /// not name the type `T` is dropped, and reported as a failed creation.
    pub fn admit_created<T: State>(
        &mut self,
        key: &CacheKey,
        now: u128,
        made: Result<T, StateError>,
    ) -> (r: Result<InternalState, StateError>)
        requires
            old(self).wf(),
        ensures
            final(self).wf(),
            admits::<T>(old(self)@, *key, now, made, final(self)@, r),
    {
        match made {
            Err(cause) => Err(self.abandon(key, cause)),
            Ok(value) => {
                let value = erase(value);
                if !same_type(&stored_type(&value), &key.0) {
                    return Err(self.abandon(key, StateError::TypeMismatch));
                }
                Ok(
                    InternalState {
                        value,
                        cache_key: *key,
                        cache_type: T::cache_type(),
                        dirty: true,
                        last_access: now,
                    },
                )
            },
        }
    }

    /// Refreshes `record`, checked out for `key`, as a record of a `T`, and
    /// puts it back into its slot.
    ///
    /// Where the record's value is no `T`, it goes back as it is and the
    /// refresh has failed with a type mismatch. Where it is one, `update` is
    /// called on it with the registry as it is, and the record goes back
    /// with what `update` left of the value, into the registry that `update`
    /// left: up to date if `update` succeeded, and still due for a refresh
    /// if it failed.
    pub fn refresh_record<T: State>(&mut self, key: &CacheKey, record: InternalState) -> (r: Result<
        (),
        StateError,
    >)
        requires
            old(self).wf(),
        ensures
            final(self).wf(),
            !is_tag_of::<T>(payload_type(record.value)) ==> final(self)@ == old(self)@.settled(
                *key,
                record,
                Err(StateError::TypeMismatch),
            ) && r == old(self)@.settled_result(*key, record, Err(StateError::TypeMismatch)),
            is_tag_of::<T>(payload_type(record.value)) ==> exists|
                state: &mut T,
                handed: &mut StateRegistry,
                refreshed: Result<(), StateError>,
            |
                #[trigger] call_ensures(T::update, (state, handed), refreshed) && yields::<T>(
                    record.value,
                    Some(&*state),
                ) && *handed == *old(self) && refreshed_into::<T>(
                    record,
                    *final(state),
                    (*final(handed))@,
                    *key,
                    refreshed,
                    final(self)@,
                    r,
                ),
    {
        let mut record = record;
        let refreshed = value_update_proxy::<T>(&mut record.value, self);
        self.settle(key, record, refreshed)
    }

    /// Puts `value` into the registry as the `T` of `params`, in place of
    /// what was there, stamped with the clock's time. It is up to date until
    /// the next sweep. Fails where the key has no slot and none is free, and
    /// where the key's value is being created or refreshed.
    pub fn set<T: State>(&mut self, value: T, params: T::Parameter) -> (r: Result<(), StateError>)
        requires
            old(self).wf(),
        ensures
            final(self).wf(),
            exists|key: CacheKey, now: u128, record: InternalState|
                is_tag_of::<T>(key.0) && hashes_to::<T::Parameter>(&params, key.1)
                    && #[trigger] filed_record::<T>(record, key, now, false, value) && final(self)@ == old(self)@.installed(record) && r == old(self)@.installed_result(record),
    {
        let key = Self::key_for::<T>(&params);
        let now = self.now();
        self.set_keyed::<T>(key, now, value)
    }

    /// Puts `value` into the registry under `key`, in place of what was
    /// there, stamped with `now`. It is up to date until the next sweep.
    /// Fails with a type mismatch, and changes nothing, where `key` does not
    /// name the type `T`; and where the key has no slot and none is free, or
    /// the key's value is being created or refreshed.
    pub fn set_keyed<T: State>(&mut self, key: CacheKey, now: u128, value: T) -> (r: Result<
        (),
        StateError,
    >)
        requires
            old(self).wf(),
        ensures
            final(self).wf(),
            !is_tag_of::<T>(key.0) ==> final(self)@ == old(self)@ && r == Err::<(), StateError>(
                StateError::TypeMismatch,
            ),
            is_tag_of::<T>(key.0) ==> exists|record: InternalState| #[trigger]
                filed_record::<T>(record, key, now, false, value) && final(self)@ == old(
                    self,
                )@.installed(record) && r == old(self)@.installed_result(record),
    {
        let ghost given = value;
        let record = InternalState {
            value: erase(value),
            cache_key: key,
            cache_type: T::cache_type(),
            dirty: false,
            last_access: now,
        };
        assert(is_tag_of::<T>(key.0) ==> filed_record::<T>(record, key, now, false, given));
        self.install(record)
    }

    /// The `T` of `params`, exactly where the registry holds a value under
    /// the key of `T` and `params` that is not being created or refreshed.
    /// Creates nothing.
    pub fn get<T: State>(&self, params: T::Parameter) -> (r: Option<&T>)
        requires
            self.wf(),
        ensures
            exists|key: CacheKey|
                is_tag_of::<T>(key.0) && hashes_to::<T::Parameter>(&params, key.1) && (r is Some
                    <==> #[trigger] self@.is_live(key)) && (r is Some ==> yields::<T>(
                    self@.record(key).value,
                    r,
                )),
    {
        let key = Self::key_for::<T>(&params);
        self.get_keyed::<T>(&key)
    }

    /// The value cached under `key`, exactly where there is one, it is not
    /// being created or refreshed, and `key` names the type `T`: the value
    /// of that key's record, seen as a `T`. Creates nothing.
    pub fn get_keyed<T: State>(&self, key: &CacheKey) -> (r: Option<&T>)
        requires
            self.wf(),
        ensures
            r is Some <==> self@.is_live(*key) && is_tag_of::<T>(key.0),
            r is Some ==> yields::<T>(self@.record(*key).value, r),
    {
        match self.record(key) {
            Some(record) => view_as::<T>(&record.value),
            None => None,
        }
    }

    /// The `T` of `params` for writing, exactly where the registry holds a
    /// value under the key of `T` and `params` that is not being created or
    /// refreshed. Creates nothing; what the caller writes is all that
    /// changes.
    pub fn get_mut<T: State>(&mut self, params: T::Parameter) -> (r: Option<&mut T>)
        requires
            old(self).wf(),
        ensures
            final(self).wf(),
            exists|key: CacheKey|
                is_tag_of::<T>(key.0) && hashes_to::<T::Parameter>(&params, key.1) && (r is Some
                    <==> #[trigger] old(self)@.is_live(key)) && old(self)@.written(
                    key,
                    r is Some,
                    final(self)@,
                ) && (r matches Some(state) ==> yields::<T>(
                    old(self)@.record(key).value,
                    Some(&*state),
                ) && yields::<T>(final(self)@.record(key).value, Some(&*final(state)))),
    {
        let key = Self::key_for::<T>(&params);
        self.get_mut_keyed::<T>(&key)
    }

    /// The value cached under `key` for writing, exactly where there is one,
    /// it is not being created or refreshed, and `key` names the type `T`:
    /// the value of that key's record, seen as a `T`. Creates nothing; what
    /// the caller writes is the record's value afterwards, and all that
    /// changes.
    pub fn get_mut_keyed<T: State>(&mut self, key: &CacheKey) -> (r: Option<&mut T>)
        requires
            old(self).wf(),
        ensures
            final(self).wf(),
            r is Some <==> old(self)@.is_live(*key) && is_tag_of::<T>(key.0),
            old(self)@.written(*key, r is Some, final(self)@),
            r matches Some(state) ==> yields::<T>(old(self)@.record(*key).value, Some(&*state))
                && yields::<T>(final(self)@.record(*key).value, Some(&*final(state))),
    {
        match self.payload_mut(key) {
            Some(payload) => {
                let ghost left = *final(payload);
                let r = downcast_mut::<T>(payload);
                proof {
                    let written = old(self)@.with_payload(*key, left);
                    if r is None {
                        assert(written.entries =~= old(self)@.entries);
                    }
                }
                r
            },
            None => None,
        }
    }

    /// The `T` of `params`, created if there is none and refreshed if it is
    /// due for a refresh: what `resolve_keyed` gives for the key of `T` and
    /// `params`, at the time that the registry's clock shows.
    pub fn resolve<T: State>(&mut self, params: T::Parameter) -> (r: Result<&T, StateError>)
        requires
            old(self).wf(),
        ensures
            final(self).wf(),
            exists|key: CacheKey, now: u128, handed: &mut StateRegistry|
                is_tag_of::<T>(key.0) && hashes_to::<T::Parameter>(&params, key.1)
                    && #[trigger] call_ensures(
                    StateRegistry::resolve_keyed::<T>,
                    (handed, key, now, params),
                    r,
                ) && *handed == *old(self) && *final(handed) == *final(self),
    {
        let key = Self::key_for::<T>(&params);
        let now = self.now();
        self.resolve_keyed::<T>(key, now, params)
    }

    /// The value cached under `key`, as a `T`: created from `params` if there
    /// is none, with `now` as the time of its last use, and refreshed if it
    /// is due for a refresh.
    ///
    /// The registry is left as `initialize_value` leaves it. Where that
    /// succeeds and `key` names the type `T`, the result is the value of the
    /// key's record, seen as a `T`. A value that is there and up to date
    /// under a key that does not name `T` is a type mismatch; a value that
    /// is being created or refreshed by a caller further up is a circular
    /// dependency.
    pub fn resolve_keyed<T: State>(
        &mut self,
        key: CacheKey,
        now: u128,
        params: T::Parameter,
    ) -> (r: Result<&T, StateError>)
        requires
            old(self).wf(),
        ensures
            final(self).wf(),
            old(self)@.resolves(
                final(self)@,
                key,
                now,
                false,
                is_tag_of::<T>(key.0),
                failure_of(r),
            ),
            exists|handed: &mut StateRegistry, prepared: Result<(), StateError>|
                #[trigger] call_ensures(
                    StateRegistry::initialize_value::<T>,
                    (handed, key, now, params, false),
                    prepared,
                ) && *handed == *old(self) && *final(handed) == *final(self) && failure_of(r)
                    == handed_out::<T>(key, prepared),
            r matches Ok(value) ==> yields::<T>(final(self)@.record(key).value, Some(value)),
    {
        match self.initialize_value::<T>(key, now, params, false) {
            Err(failure) => {
                return Err(failure);
            },
            Ok(_) => {},
        }
        match self.get_keyed::<T>(&key) {
            Some(value) => Ok(value),
            None => Err(StateError::TypeMismatch),
        }
    }

    /// The `T` of `params` for writing, created if there is none and
    /// refreshed if it is due for a refresh: what `resolve_mut_keyed` gives
    /// for the key of `T` and `params`, at the time that the registry's
    /// clock shows.
    pub fn resolve_mut<T: State>(&mut self, params: T::Parameter) -> (r: Result<
        &mut T,
        StateError,
    >)
        requires
            old(self).wf(),
        ensures
            final(self).wf(),
            exists|key: CacheKey, now: u128, handed: &mut StateRegistry|
                is_tag_of::<T>(key.0) && hashes_to::<T::Parameter>(&params, key.1)
                    && #[trigger] call_ensures(
                    StateRegistry::resolve_mut_keyed::<T>,
                    (handed, key, now, params),
                    r,
                ) && *handed == *old(self) && *final(handed) == *final(self),
    {
        let key = Self::key_for::<T>(&params);
        let now = self.now();
        self.resolve_mut_keyed::<T>(key, now, params)
    }

    /// The value cached under `key` for writing, as a `T`: created from
    /// `params` if there is none, with `now` as the time of its last use, and
    /// refreshed if it is due for a refresh.
    ///
    /// The value is made ready as `initialize_value` does it. Where that
    /// succeeds and `key` names the type `T`, the result is the value of the
    /// key's record, seen as a `T`; what the caller writes is the record's
    /// value afterwards, and all that changes. A value that is there and up
    /// to date under a key that does not name `T` is a type mismatch; a value
    /// that is being created or refreshed by a caller further up is a borrow
    /// conflict.
    pub fn resolve_mut_keyed<T: State>(
        &mut self,
        key: CacheKey,
        now: u128,
        params: T::Parameter,
    ) -> (r: Result<&mut T, StateError>)
        requires
            old(self).wf(),
        ensures
            final(self).wf(),
            exists|handed: &mut StateRegistry, prepared: Result<(), StateError>|
                #[trigger] call_ensures(
                    StateRegistry::initialize_value::<T>,
                    (handed, key, now, params, true),
                    prepared,
                ) && *handed == *old(self) && failure_of(r) == handed_out::<T>(key, prepared)
                    && old(self)@.resolves(
                    (*final(handed))@,
                    key,
                    now,
                    true,
                    is_tag_of::<T>(key.0),
                    failure_of(r),
                ) && (*final(handed))@.written(key, r is Ok, final(self)@) && (r matches Ok(
                    state,
                ) ==> yields::<T>((*final(handed))@.record(key).value, Some(&*state))
                    && yields::<T>(final(self)@.record(key).value, Some(&*final(state)))),
    {
        let ghost typed = is_tag_of::<T>(key.0);
        match self.initialize_value::<T>(key, now, params, true) {
            Err(failure) => {
                proof {
                    assert(old(self)@.resolves(self@, key, now, true, typed, Some(failure)));
                    assert(self@.written(key, false, self@));
                }
                return Err(failure);
            },
            Ok(_) => {},
        }
        let ghost ready = self@;
        match self.get_mut_keyed::<T>(&key) {
            Some(value) => {
                proof {
                    assert(old(self)@.resolves(ready, key, now, true, typed, None));
                }
                Ok(value)
            },
            None => {
                proof {
                    assert(old(self)@.resolves(
                        ready,
                        key,
                        now,
                        true,
                        typed,
                        Some(StateError::TypeMismatch),
                    ));
                }
                Err(StateError::TypeMismatch)
            },
        }
    }
}

} // verus!
