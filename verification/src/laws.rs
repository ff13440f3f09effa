//! What holds of the registry in every state, stated over its model.
use vstd::prelude::*;
use vstd::set_lib::lemma_len_subset;
use crate::allocator::CacheKey;
use crate::allocator::StateAllocator;
use crate::error::StateError;
use crate::model::conflict_error;
use crate::model::swept_slot;
use crate::model::InternalState;
use crate::model::RegistryModel;
use crate::model::Slot;

verus! {

/// Two different keys never share a slot.
pub proof fn law_distinct_slots(allocator: StateAllocator, key: CacheKey, other: CacheKey)
    requires
        allocator.wf(),
        allocator.lookup().contains_key(key),
        allocator.lookup().contains_key(other),
        key != other,
    ensures
        allocator.lookup()[key] != allocator.lookup()[other],
{
}

/// What is done for one key leaves the slot of every other key as it was:
/// admitting a request, taking a record back, giving up a creation, and
/// putting a record in by hand.
pub proof fn law_key_independence(
    registry: RegistryModel,
    key: CacheKey,
    other: CacheKey,
    record: InternalState,
    refreshed: Result<(), StateError>,
)
    requires
        key != other,
    ensures
        registry.checked_out(key).slot(other) == registry.slot(other),
        registry.settled(key, record, refreshed).slot(other) == registry.slot(other),
        registry.abandoned(key).slot(other) == registry.slot(other),
        record.cache_key == key ==> registry.installed(record).slot(other) == registry.slot(other),
{
}

/// A value that is there and up to date is handed out as it is: a request
/// for it calls for neither creation nor refresh and changes nothing.
pub proof fn law_single_refresh(registry: RegistryModel, key: CacheKey)
    requires
        registry.is_clean(key),
    ensures
        registry.plan(key) is Ready,
        registry.checked_out(key) == registry,
{
}

/// After a request for a key succeeded, the value is up to date, so the next
/// request for it finds it ready and leaves the registry as it is, whatever
/// time has passed: between two sweeps a value is created or refreshed at
/// most once.
pub proof fn law_resolved_is_ready(
    before: RegistryModel,
    after: RegistryModel,
    later: RegistryModel,
    key: CacheKey,
    now: u128,
    then: u128,
    exclusive: bool,
    typed: bool,
    failure: Option<StateError>,
)
    requires
        before.resolves(after, key, now, exclusive, typed, None),
        after.resolves(later, key, then, exclusive, typed, failure),
    ensures
        after.plan(key) is Ready,
        later == after,
        failure is None,
{
}

/// A sweep keeps no key that it did not find, so a registry that was valid
/// stays valid.
pub proof fn law_sweep_valid(registry: RegistryModel, now: u128)
    requires
        registry.valid(),
    ensures
        registry.sweep(now).valid(),
        registry.sweep(now).capacity == registry.capacity,
        registry.sweep(now).entries.dom().subset_of(registry.entries.dom()),
        registry.sweep(now).free_slots() >= registry.free_slots(),
{
    let swept = registry.sweep(now);
    lemma_len_subset(swept.entries.dom(), registry.entries.dom());
    assert forall|key: CacheKey| #[trigger] swept.is_live(key) implies swept.record(key).cache_key
        == key && swept.record(key).typed() by {
        assert(registry.is_live(key));
    }
}

/// A sweep that drops a value leaves a slot free.
pub proof fn law_eviction_frees(registry: RegistryModel, key: CacheKey, now: u128)
    requires
        registry.valid(),
        registry.entries.contains_key(key),
        swept_slot(registry.entries[key], now) is None,
    ensures
        !registry.sweep(now).entries.contains_key(key),
        registry.sweep(now).free_slots() >= 1,
{
    let swept = registry.sweep(now);
    lemma_len_subset(swept.entries.dom(), registry.entries.dom().remove(key));
}

/// A volatile value is gone after the next sweep, at whatever time that
/// comes: the key has no slot then, a lookup finds nothing, and a request
/// for the key creates the value anew.
pub proof fn law_volatile_eviction(registry: RegistryModel, key: CacheKey, now: u128)
    requires
        registry.valid(),
        registry.is_live(key),
        registry.record(key).cache_type is Volatile,
    ensures
        !registry.sweep(now).entries.contains_key(key),
        !registry.sweep(now).is_live(key),
        registry.sweep(now).plan(key) is Create,
{
    law_eviction_frees(registry, key, now);
}

/// A persistent value is still there after a sweep, unchanged but marked for
/// a refresh: a lookup finds it, and the next request for the key refreshes
/// it and does not create it.
pub proof fn law_persistent_survival(registry: RegistryModel, key: CacheKey, now: u128)
    requires
        registry.valid(),
        registry.is_live(key),
        registry.record(key).cache_type is Persistent,
    ensures
        registry.sweep(now).is_live(key),
        registry.sweep(now).record(key).dirty,
        registry.sweep(now).record(key).value == registry.record(key).value,
        registry.sweep(now).record(key).cache_type is Persistent,
        registry.sweep(now).plan(key) is Refresh,
{
}

/// The time at which a sweep at `now` takes a record to have been used last:
/// `now` itself where the record was handed out since the sweep before.
pub open spec fn last_use(record: InternalState, now: u128) -> u128 {
    if record.dirty {
        record.last_access
    } else {
        now
    }
}

/// A timed value stays through a sweep that comes no later than its time
/// after its last use, and is then marked for a refresh; the first sweep that
/// comes later drops it.
pub proof fn law_timed_expiry(registry: RegistryModel, key: CacheKey, now: u128)
    requires
        registry.valid(),
        registry.is_live(key),
        registry.record(key).cache_type is Timed,
    ensures
        !registry.record(key).cache_type.expires(last_use(registry.record(key), now), now) ==> {
            &&& registry.sweep(now).is_live(key)
            &&& registry.sweep(now).record(key).dirty
            &&& registry.sweep(now).record(key).last_access == last_use(registry.record(key), now)
            &&& registry.sweep(now).record(key).cache_type == registry.record(key).cache_type
            &&& registry.sweep(now).record(key).value == registry.record(key).value
        },
        registry.record(key).cache_type.expires(last_use(registry.record(key), now), now)
            ==> !registry.sweep(now).entries.contains_key(key),
        !registry.record(key).dirty ==> registry.sweep(now).is_live(key),
{
}

/// A timed value that is not asked for between two sweeps is judged by the
/// second sweep on the time since the use that the first one saw: it stays
/// where that is within its time and is dropped where it is not.
pub proof fn law_timed_expiry_unused(
    registry: RegistryModel,
    key: CacheKey,
    first: u128,
    second: u128,
)
    requires
        registry.valid(),
        registry.is_live(key),
        registry.record(key).cache_type is Timed,
        registry.sweep(first).is_live(key),
    ensures
        registry.sweep(first).sweep(second).entries.contains_key(key)
            == !registry.record(key).cache_type.expires(
            last_use(registry.record(key), first),
            second,
        ),
{
}

/// A key without a slot is admitted exactly where a slot is free: a registry
/// takes as many keys as it has slots, and the next one is turned away.
pub proof fn law_capacity_limit(registry: RegistryModel, key: CacheKey)
    requires
        registry.valid(),
        !registry.entries.contains_key(key),
    ensures
        registry.entries.dom().len() < registry.capacity ==> {
            &&& registry.plan(key) is Create
            &&& registry.checked_out(key).entries.contains_key(key)
            &&& registry.checked_out(key).entries.dom().len() == registry.entries.dom().len() + 1
            &&& registry.checked_out(key).valid()
        },
        registry.entries.dom().len() == registry.capacity ==> {
            &&& registry.plan(key) is Full
            &&& registry.checked_out(key) == registry
        },
{
    if registry.entries.dom().len() < registry.capacity {
        let after = registry.checked_out(key);
        assert forall|k: CacheKey| #[trigger] after.is_live(k) implies after.record(k).cache_key
            == k && after.record(k).typed() by {
            assert(registry.is_live(k));
        }
    }
}

/// In a full registry, a sweep that drops a value makes room: a key without
/// a slot is admitted afterwards.
pub proof fn law_capacity_regained(
    registry: RegistryModel,
    dropped: CacheKey,
    key: CacheKey,
    now: u128,
)
    requires
        registry.valid(),
        registry.entries.contains_key(dropped),
        swept_slot(registry.entries[dropped], now) is None,
        !registry.sweep(now).entries.contains_key(key),
    ensures
        registry.sweep(now).plan(key) is Create,
{
    law_eviction_frees(registry, dropped, now);
}

/// While the value of a key is being created or refreshed, a request for the
/// same key is turned away, as a circular dependency for a reader and as a
/// borrow conflict for a writer, and changes nothing. A request for another
/// key finds that key as it was before.
pub proof fn law_cycle_detection(
    registry: RegistryModel,
    key: CacheKey,
    other: CacheKey,
    after: RegistryModel,
    now: u128,
    exclusive: bool,
    typed: bool,
    failure: Option<StateError>,
)
    requires
        registry.valid(),
        registry.plan(key) is Create || registry.plan(key) is Refresh,
        registry.checked_out(key).resolves(after, key, now, exclusive, typed, failure),
        other != key,
    ensures
        registry.checked_out(key).is_busy(key),
        registry.checked_out(key).plan(key) is Conflict,
        failure == Some(conflict_error(key, exclusive)),
        after == registry.checked_out(key),
        registry.checked_out(key).slot(other) == registry.slot(other),
        !registry.is_busy(other) ==> !(registry.checked_out(key).plan(other) is Conflict),
{
}

/// Every step that the registry takes leaves it valid: it never holds more
/// keys than it has slots, and a record lies under its own key, with a value
/// of the type that the key names.
pub proof fn law_valid_preserved(
    registry: RegistryModel,
    key: CacheKey,
    record: InternalState,
    refreshed: Result<(), StateError>,
    now: u128,
)
    requires
        registry.valid(),
    ensures
        registry.checked_out(key).valid(),
        registry.settled(key, record, refreshed).valid(),
        registry.abandoned(key).valid(),
        registry.installed(record).valid(),
        registry.sweep(now).valid(),
{
    law_sweep_valid(registry, now);
    lemma_with_slot_valid(registry, key, Slot::Busy);
    lemma_with_slot_valid(registry, key, Slot::Empty);
    if registry.accepts(key, record) {
        lemma_with_slot_valid(
            registry,
            key,
            Slot::Live(InternalState { dirty: record.dirty && refreshed is Err, ..record }),
        );
    }
    if record.typed() {
        lemma_with_slot_valid(registry, record.cache_key, Slot::Live(record));
    }
}

/// Filling the slot of a key that has one, or that can get one, keeps the
/// registry valid, where a record goes under its own key and holds a value
/// of the type that the key names.
proof fn lemma_with_slot_valid(registry: RegistryModel, key: CacheKey, slot: Slot)
    requires
        registry.valid(),
        slot is Live ==> slot->Live_0.cache_key == key && slot->Live_0.typed(),
    ensures
        registry.entries.contains_key(key) || registry.free_slots() > 0 ==> registry.with_slot(
            key,
            slot,
        ).valid(),
{
    let after = registry.with_slot(key, slot);
    if registry.entries.contains_key(key) || registry.free_slots() > 0 {
        assert forall|k: CacheKey| #[trigger] after.is_live(k) implies after.record(k).cache_key
            == k && after.record(k).typed() by {
            if k != key {
                assert(registry.is_live(k));
            }
        }
    }
}

/// The registry after requests for `keys` were admitted one after the other.
pub open spec fn admitted(registry: RegistryModel, keys: Seq<CacheKey>) -> RegistryModel
    decreases keys.len(),
{
    if keys.len() == 0 {
        registry
    } else {
        admitted(registry, keys.drop_last()).checked_out(keys.last())
    }
}

/// An empty registry of `capacity` slots admits any `capacity` different
/// keys, each of which finds a free slot and has its value created; after
/// that, every further key is turned away.
pub proof fn law_capacity_fill(capacity: nat, keys: Seq<CacheKey>, extra: CacheKey)
    requires
        keys.no_duplicates(),
        keys.len() <= capacity,
    ensures
        admitted(RegistryModel::empty(capacity), keys).valid(),
        admitted(RegistryModel::empty(capacity), keys).entries.dom() == keys.to_set(),
        admitted(RegistryModel::empty(capacity), keys).free_slots() == capacity - keys.len(),
        forall|i: int|
            0 <= i < keys.len() ==> (#[trigger] admitted(
                RegistryModel::empty(capacity),
                keys.take(i),
            )).plan(keys[i]) is Create,
        keys.len() == capacity && !keys.contains(extra) ==> admitted(
            RegistryModel::empty(capacity),
            keys,
        ).plan(extra) is Full,
    decreases keys.len(),
{
    let start = RegistryModel::empty(capacity);
    if keys.len() > 0 {
        let front = keys.drop_last();
        let last = keys.last();
        law_capacity_fill(capacity, front, last);
        law_capacity_limit(admitted(start, front), last);
        assert forall|k: CacheKey|
            admitted(start, keys).entries.dom().contains(k) == keys.to_set().contains(k) by {
            if k != last && !front.contains(k) && keys.contains(k) {
                let j = choose|j: int| 0 <= j < keys.len() && keys[j] == k;
                assert(front[j] == k);
            }
        }
        assert(admitted(start, keys).entries.dom() =~= keys.to_set());
        assert forall|i: int| 0 <= i < keys.len() implies (#[trigger] admitted(
            start,
            keys.take(i),
        )).plan(keys[i]) is Create by {
            if i < front.len() {
                assert(keys.take(i) =~= front.take(i));
            }
        }
    }
}

} // verus!
