use std::sync::atomic::AtomicUsize;
use std::sync::atomic::Ordering;
use std::time::Duration;

use utils_state::State;
use utils_state::StateCacheType;
use utils_state::StateError;
use utils_state::StateRegistry;

static VOLATILE_CREATED: AtomicUsize = AtomicUsize::new(0);
static VOLATILE_UPDATED: AtomicUsize = AtomicUsize::new(0);
static KEPT_CREATED: AtomicUsize = AtomicUsize::new(0);
static KEPT_UPDATED: AtomicUsize = AtomicUsize::new(0);

struct Fleeting {
    tag: u32,
}

impl State for Fleeting {
    type Parameter = u32;

    fn create(_states: &mut StateRegistry, param: u32) -> Result<Self, StateError> {
        VOLATILE_CREATED.fetch_add(1, Ordering::SeqCst);
        Ok(Fleeting { tag: param })
    }

    fn update(&mut self, _states: &mut StateRegistry) -> Result<(), StateError> {
        VOLATILE_UPDATED.fetch_add(1, Ordering::SeqCst);
        Ok(())
    }
}

struct Kept {
    refreshes: u32,
}

impl State for Kept {
    type Parameter = ();

    fn create(_states: &mut StateRegistry, _param: ()) -> Result<Self, StateError> {
        KEPT_CREATED.fetch_add(1, Ordering::SeqCst);
        Ok(Kept { refreshes: 0 })
    }

    fn cache_type() -> StateCacheType {
        StateCacheType::Persistent
    }

    fn update(&mut self, _states: &mut StateRegistry) -> Result<(), StateError> {
        KEPT_UPDATED.fetch_add(1, Ordering::SeqCst);
        self.refreshes += 1;
        Ok(())
    }
}

struct Lingering;

impl State for Lingering {
    type Parameter = ();

    fn create(_states: &mut StateRegistry, _param: ()) -> Result<Self, StateError> {
        Ok(Lingering)
    }

    fn cache_type() -> StateCacheType {
        StateCacheType::Timed(Duration::from_millis(5))
    }
}

struct Tagged {
    tag: u32,
}

impl State for Tagged {
    type Parameter = u32;

    fn create(_states: &mut StateRegistry, param: u32) -> Result<Self, StateError> {
        Ok(Tagged { tag: param })
    }
}

struct Plain;

impl State for Plain {
    type Parameter = ();

    fn create(_states: &mut StateRegistry, _param: ()) -> Result<Self, StateError> {
        Ok(Plain)
    }
}

#[test]
fn default_policy_is_volatile() {
    assert!(matches!(Plain::cache_type(), StateCacheType::Volatile));
    let mut states = StateRegistry::new(1);
    assert!(states.resolve::<Plain>(()).is_ok());
    states.invalidate_states();
    assert!(states.get::<Plain>(()).is_none());
    assert_eq!(states.free_slots(), 1);
}

#[test]
fn policy_expiry_by_kind() {
    assert!(!StateCacheType::Persistent.is_expired(0, u128::MAX));
    assert!(StateCacheType::Volatile.is_expired(7, 7));
    assert!(StateCacheType::Volatile.is_expired(9, 7));
    let timed = StateCacheType::Timed(Duration::from_nanos(10));
    assert!(!timed.is_expired(100, 100));
    assert!(!timed.is_expired(100, 110));
    assert!(timed.is_expired(100, 111));
    assert!(!timed.is_expired(100, 50));
    let second = StateCacheType::Timed(Duration::from_secs(1));
    assert!(!second.is_expired(0, 1_000_000_000));
    assert!(second.is_expired(0, 1_000_000_001));
    let none = StateCacheType::Timed(Duration::from_nanos(0));
    assert!(!none.is_expired(5, 5));
    assert!(none.is_expired(5, 6));
}

#[test]
fn resolving_twice_in_a_tick_refreshes_once() {
    let mut states = StateRegistry::new(2);
    assert_eq!(states.resolve::<Kept>(()).unwrap().refreshes, 1);
    assert_eq!(states.resolve::<Kept>(()).unwrap().refreshes, 1);
    assert_eq!(states.resolve_mut::<Kept>(()).unwrap().refreshes, 1);
    assert_eq!(KEPT_CREATED.load(Ordering::SeqCst), 1);
    assert_eq!(KEPT_UPDATED.load(Ordering::SeqCst), 1);
    states.invalidate_states();
    assert_eq!(states.get::<Kept>(()).unwrap().refreshes, 1);
    assert_eq!(states.resolve::<Kept>(()).unwrap().refreshes, 2);
    assert_eq!(states.resolve::<Kept>(()).unwrap().refreshes, 2);
    assert_eq!(KEPT_CREATED.load(Ordering::SeqCst), 1);
    assert_eq!(KEPT_UPDATED.load(Ordering::SeqCst), 2);
}

#[test]
fn volatile_value_is_recreated_after_a_sweep() {
    let mut states = StateRegistry::new(2);
    assert_eq!(states.resolve::<Fleeting>(7).unwrap().tag, 7);
    assert_eq!(VOLATILE_CREATED.load(Ordering::SeqCst), 1);
    assert_eq!(VOLATILE_UPDATED.load(Ordering::SeqCst), 1);
    assert_eq!(states.resolve::<Fleeting>(7).unwrap().tag, 7);
    assert_eq!(VOLATILE_CREATED.load(Ordering::SeqCst), 1);
    states.invalidate_states();
    assert!(states.get::<Fleeting>(7).is_none());
    assert_eq!(states.free_slots(), 2);
    assert_eq!(states.resolve::<Fleeting>(7).unwrap().tag, 7);
    assert_eq!(VOLATILE_CREATED.load(Ordering::SeqCst), 2);
    assert_eq!(VOLATILE_UPDATED.load(Ordering::SeqCst), 2);
}

#[test]
fn persistent_value_is_marked_dirty_by_a_sweep() {
    let mut states = StateRegistry::new(1);
    let key = StateRegistry::key_for::<Lasting>(&());
    assert!(states.resolve_keyed::<Lasting>(key, 10, ()).is_ok());
    assert!(!states.record(&key).unwrap().dirty);
    assert_eq!(states.record(&key).unwrap().last_access, 10);
    states.invalidate_states_at(50);
    let record = states.record(&key).unwrap();
    assert!(record.dirty);
    assert_eq!(record.last_access, 50);
    assert_eq!(record.cache_key, key);
    states.invalidate_states_at(90);
    assert_eq!(states.record(&key).unwrap().last_access, 50);
    assert!(states.resolve_keyed::<Lasting>(key, 95, ()).is_ok());
    assert!(!states.record(&key).unwrap().dirty);
    assert_eq!(states.record(&key).unwrap().last_access, 50);
}

struct Lasting;

impl State for Lasting {
    type Parameter = ();

    fn create(_states: &mut StateRegistry, _param: ()) -> Result<Self, StateError> {
        Ok(Lasting)
    }

    fn cache_type() -> StateCacheType {
        StateCacheType::Persistent
    }
}

#[test]
fn timed_value_expires_after_its_time() {
    let mut states = StateRegistry::new(1);
    let key = StateRegistry::key_for::<Lingering>(&());
    assert!(states.resolve_keyed::<Lingering>(key, 1_000, ()).is_ok());
    states.invalidate_states_at(2_000);
    assert!(states.get_keyed::<Lingering>(&key).is_some());
    assert_eq!(states.record(&key).unwrap().last_access, 2_000);
    states.invalidate_states_at(2_000 + 5_000_000);
    assert!(states.get_keyed::<Lingering>(&key).is_some());
    assert_eq!(states.record(&key).unwrap().last_access, 2_000);
    states.invalidate_states_at(2_000 + 5_000_001);
    assert!(states.get_keyed::<Lingering>(&key).is_none());
    assert!(!states.contains_key(&key));
    assert_eq!(states.free_slots(), 1);
}

#[test]
fn timed_value_that_is_used_stays() {
    let mut states = StateRegistry::new(1);
    let key = StateRegistry::key_for::<Lingering>(&());
    let mut now: u128 = 0;
    for _ in 0..4 {
        assert!(states.resolve_keyed::<Lingering>(key, now, ()).is_ok());
        now += 4_000_000;
        states.invalidate_states_at(now);
        assert!(states.get_keyed::<Lingering>(&key).is_some());
    }
    now += 4_000_000;
    states.invalidate_states_at(now);
    assert!(states.get_keyed::<Lingering>(&key).is_some());
    now += 4_000_000;
    states.invalidate_states_at(now);
    assert!(states.get_keyed::<Lingering>(&key).is_none());
}

#[test]
fn sweep_with_an_earlier_time_drops_no_timed_value() {
    let mut states = StateRegistry::new(1);
    let key = StateRegistry::key_for::<Lingering>(&());
    assert!(states.resolve_keyed::<Lingering>(key, 9_000_000_000, ()).is_ok());
    states.invalidate_states_at(9_000_000_000);
    states.invalidate_states_at(5);
    assert!(states.get_keyed::<Lingering>(&key).is_some());
}

#[test]
fn capacity_is_regained_by_eviction() {
    let mut states = StateRegistry::new(3);
    assert!(states.resolve::<Tagged>(100).is_ok());
    assert!(states.resolve::<Tagged>(101).is_ok());
    assert!(states.resolve::<Lasting>(()).is_ok());
    assert_eq!(states.free_slots(), 0);
    assert_eq!(states.resolve::<Tagged>(102).err(), Some(StateError::CapacityExceeded));
    assert!(states.get::<Tagged>(102).is_none());
    assert!(states.resolve::<Tagged>(100).is_ok());
    states.invalidate_states();
    assert_eq!(states.free_slots(), 2);
    assert!(states.resolve::<Tagged>(102).is_ok());
    assert!(states.resolve::<Tagged>(103).is_ok());
    assert_eq!(states.resolve::<Tagged>(104).err(), Some(StateError::CapacityExceeded));
    assert!(states.get::<Lasting>(()).is_some());
}

#[test]
fn two_parameters_have_two_values() {
    let mut states = StateRegistry::new(2);
    assert_eq!(states.resolve::<Tagged>(1).unwrap().tag, 1);
    assert_eq!(states.resolve::<Tagged>(2).unwrap().tag, 2);
    states.resolve_mut::<Tagged>(1).unwrap().tag = 10;
    assert_eq!(states.get::<Tagged>(1).unwrap().tag, 10);
    assert_eq!(states.get::<Tagged>(2).unwrap().tag, 2);
    states.get_mut::<Tagged>(2).unwrap().tag = 20;
    assert_eq!(states.resolve::<Tagged>(1).unwrap().tag, 10);
    assert_eq!(states.resolve::<Tagged>(2).unwrap().tag, 20);
    assert_eq!(states.free_slots(), 0);
}
