use std::sync::atomic::AtomicUsize;
use std::sync::atomic::Ordering;

use utils_state::registry::Checkout;
use utils_state::State;
use utils_state::StateCacheType;
use utils_state::StateError;
use utils_state::StateRegistry;

struct Root {
    handle: u64,
}

impl State for Root {
    type Parameter = ();

    fn cache_type() -> StateCacheType {
        StateCacheType::Persistent
    }
}

struct Other;

impl State for Other {
    type Parameter = ();

    fn create(_states: &mut StateRegistry, _param: ()) -> Result<Self, StateError> {
        Ok(Other)
    }
}

struct Broken;

impl State for Broken {
    type Parameter = ();

    fn create(_states: &mut StateRegistry, _param: ()) -> Result<Self, StateError> {
        Err(StateError::Failed("no source".to_string()))
    }
}

static FLAKY_ATTEMPTS: AtomicUsize = AtomicUsize::new(0);

struct Flaky;

impl State for Flaky {
    type Parameter = ();

    fn create(_states: &mut StateRegistry, _param: ()) -> Result<Self, StateError> {
        if FLAKY_ATTEMPTS.fetch_add(1, Ordering::SeqCst) == 0 {
            Err(StateError::Failed("not yet".to_string()))
        } else {
            Ok(Flaky)
        }
    }
}

static STALE_UPDATES: AtomicUsize = AtomicUsize::new(0);

struct Stale;

impl State for Stale {
    type Parameter = ();

    fn create(_states: &mut StateRegistry, _param: ()) -> Result<Self, StateError> {
        Ok(Stale)
    }

    fn cache_type() -> StateCacheType {
        StateCacheType::Persistent
    }

    fn update(&mut self, _states: &mut StateRegistry) -> Result<(), StateError> {
        if STALE_UPDATES.fetch_add(1, Ordering::SeqCst) == 1 {
            Err(StateError::Failed("lost".to_string()))
        } else {
            Ok(())
        }
    }
}

struct Needy;

impl State for Needy {
    type Parameter = ();

    fn create(states: &mut StateRegistry, _param: ()) -> Result<Self, StateError> {
        let handle = states.resolve::<Root>(())?.handle;
        assert_eq!(handle, 42);
        Ok(Needy)
    }
}

struct Selfish;

impl State for Selfish {
    type Parameter = u8;

    fn create(states: &mut StateRegistry, param: u8) -> Result<Self, StateError> {
        let key = StateRegistry::key_for::<Selfish>(&param);
        assert!(states.is_busy(&key));
        assert!(states.get::<Selfish>(param).is_none());
        assert!(states.get_mut::<Selfish>(param).is_none());
        assert_eq!(
            states.resolve::<Selfish>(param).err(),
            Some(StateError::CircularDependency { key })
        );
        assert_eq!(states.resolve_mut::<Selfish>(param).err(), Some(StateError::BorrowConflict));
        assert_eq!(states.set(Selfish, param), Err(StateError::BorrowConflict));
        states.invalidate_states();
        assert!(states.is_busy(&key));
        states.resolve::<Selfish>(param)?;
        Ok(Selfish)
    }
}

#[test]
fn state_without_create_has_to_be_set() {
    let mut states = StateRegistry::new(2);
    let key = StateRegistry::key_for::<Root>(&());
    assert_eq!(
        states.resolve::<Root>(()).err(),
        Some(StateError::ConstructionFailed {
            key,
            cause: Box::new(StateError::ManualInstallRequired),
        })
    );
    assert!(states.get::<Root>(()).is_none());
    assert!(states.contains_key(&key));
    assert!(!states.is_busy(&key));
    assert_eq!(states.set(Root { handle: 42 }, ()), Ok(()));
    assert_eq!(states.get::<Root>(()).unwrap().handle, 42);
    assert_eq!(states.resolve::<Root>(()).unwrap().handle, 42);
    assert!(states.resolve::<Needy>(()).is_ok());
    assert_eq!(states.free_slots(), 0);
}

#[test]
fn set_value_is_clean_and_replaces() {
    let mut states = StateRegistry::new(1);
    let key = StateRegistry::key_for::<Root>(&());
    assert_eq!(states.set_keyed(key, 77, Root { handle: 1 }), Ok(()));
    assert!(!states.record(&key).unwrap().dirty);
    assert_eq!(states.record(&key).unwrap().last_access, 77);
    assert_eq!(states.set_keyed(key, 78, Root { handle: 2 }), Ok(()));
    assert_eq!(states.get::<Root>(()).unwrap().handle, 2);
    assert_eq!(states.record(&key).unwrap().last_access, 78);
    assert_eq!(states.free_slots(), 0);
    assert_eq!(states.set(Other, ()), Err(StateError::CapacityExceeded));
    states.invalidate_states();
    assert_eq!(states.get::<Root>(()).unwrap().handle, 2);
}

#[test]
fn failure_of_a_dependency_is_passed_on() {
    let mut states = StateRegistry::new(2);
    let needy = StateRegistry::key_for::<Needy>(&());
    let root = StateRegistry::key_for::<Root>(&());
    let failure = states.resolve::<Needy>(()).err().unwrap();
    assert_eq!(
        failure,
        StateError::ConstructionFailed {
            key: needy,
            cause: Box::new(StateError::ConstructionFailed {
                key: root,
                cause: Box::new(StateError::ManualInstallRequired),
            }),
        }
    );
    assert!(!failure.is_structural());
    assert!(StateError::CapacityExceeded.is_structural());
    assert!(StateError::BorrowConflict.is_structural());
    assert!(StateError::CircularDependency { key: root }.is_structural());
    assert!(!StateError::TypeMismatch.is_structural());
}

#[test]
fn failed_create_is_reported_and_installs_nothing() {
    let mut states = StateRegistry::new(1);
    let key = StateRegistry::key_for::<Broken>(&());
    assert_eq!(
        states.resolve::<Broken>(()).err(),
        Some(StateError::ConstructionFailed {
            key,
            cause: Box::new(StateError::Failed("no source".to_string())),
        })
    );
    assert!(states.get::<Broken>(()).is_none());
    assert!(states.record(&key).is_none());
    assert!(matches!(
        states.resolve_mut::<Broken>(()).err(),
        Some(StateError::ConstructionFailed { .. })
    ));
}

#[test]
fn failed_create_does_not_poison_the_slot() {
    let mut states = StateRegistry::new(1);
    assert!(states.resolve::<Flaky>(()).is_err());
    assert!(states.resolve::<Flaky>(()).is_ok());
    assert!(states.get::<Flaky>(()).is_some());
}

#[test]
fn failed_update_is_reported_and_retried() {
    let mut states = StateRegistry::new(1);
    let key = StateRegistry::key_for::<Stale>(&());
    assert!(states.resolve::<Stale>(()).is_ok());
    states.invalidate_states();
    assert_eq!(
        states.resolve::<Stale>(()).err(),
        Some(StateError::RefreshFailed {
            key,
            cause: Box::new(StateError::Failed("lost".to_string())),
        })
    );
    assert!(states.record(&key).unwrap().dirty);
    assert!(states.get::<Stale>(()).is_some());
    assert!(states.resolve::<Stale>(()).is_ok());
    assert!(!states.record(&key).unwrap().dirty);
    assert_eq!(STALE_UPDATES.load(Ordering::SeqCst), 3);
}

#[test]
fn state_that_asks_for_itself_is_turned_away() {
    let mut states = StateRegistry::new(2);
    let key = StateRegistry::key_for::<Selfish>(&3);
    assert_eq!(
        states.resolve::<Selfish>(3).err(),
        Some(StateError::ConstructionFailed {
            key,
            cause: Box::new(StateError::CircularDependency { key }),
        })
    );
    assert!(!states.is_busy(&key));
    assert!(states.get::<Selfish>(3).is_none());
}

#[test]
fn value_of_another_type_is_a_mismatch() {
    let mut states = StateRegistry::new(1);
    let key = StateRegistry::key_for::<Other>(&());
    assert!(states.resolve_keyed::<Other>(key, 0, ()).is_ok());
    assert!(states.get_keyed::<Other>(&key).is_some());
    assert!(states.get_keyed::<Root>(&key).is_none());
    assert!(states.get_mut_keyed::<Root>(&key).is_none());
    assert!(states.get_keyed::<Other>(&key).is_some());
    assert!(states.get_mut_keyed::<Other>(&key).is_some());
    assert_eq!(states.resolve_keyed::<Root>(key, 1, ()).err(), Some(StateError::TypeMismatch));
    assert_eq!(states.resolve_mut_keyed::<Root>(key, 1, ()).err(), Some(StateError::TypeMismatch));
    states.invalidate_states_at(2);
    assert!(!states.contains_key(&key));
}

#[test]
fn checkout_protocol_by_hand() {
    let mut states = StateRegistry::new(1);
    let key = StateRegistry::key_for::<Other>(&());
    let stranger = StateRegistry::key_for::<Root>(&());
    assert!(matches!(states.checkout(&key, false), Ok(Checkout::Create)));
    assert!(states.is_busy(&key));
    assert_eq!(states.free_slots(), 0);
    assert_eq!(
        states.checkout(&key, false).err(),
        Some(StateError::CircularDependency { key })
    );
    assert_eq!(states.checkout(&key, true).err(), Some(StateError::BorrowConflict));
    assert_eq!(states.checkout(&stranger, true).err(), Some(StateError::CapacityExceeded));
    assert_eq!(
        states.abandon(&key, StateError::TypeMismatch),
        StateError::ConstructionFailed { key, cause: Box::new(StateError::TypeMismatch) }
    );
    assert!(!states.is_busy(&key));
    assert!(states.contains_key(&key));
    assert!(states.resolve_keyed::<Other>(key, 5, ()).is_ok());
    assert!(matches!(states.checkout(&key, false), Ok(Checkout::Ready)));
    states.invalidate_states_at(6);
    assert!(!states.contains_key(&key));
}

#[test]
fn settle_puts_a_record_back() {
    let mut states = StateRegistry::new(2);
    let key = StateRegistry::key_for::<Stale>(&());
    let other = StateRegistry::key_for::<Other>(&());
    assert_eq!(states.set_keyed(key, 3, Stale), Ok(()));
    states.invalidate_states_at(4);
    let record = match states.checkout(&key, true) {
        Ok(Checkout::Refresh(record)) => record,
        _ => panic!("a dirty record is due for a refresh"),
    };
    assert!(record.dirty);
    assert!(states.is_busy(&key));
    assert!(states.record(&key).is_none());
    assert_eq!(
        states.settle(&key, record, Err(StateError::TypeMismatch)),
        Err(StateError::RefreshFailed { key, cause: Box::new(StateError::TypeMismatch) })
    );
    assert!(states.record(&key).unwrap().dirty);
    let record = match states.checkout(&key, true) {
        Ok(Checkout::Refresh(record)) => record,
        _ => panic!("a dirty record is due for a refresh"),
    };
    assert!(matches!(states.checkout(&other, true), Ok(Checkout::Create)));
    assert_eq!(states.settle(&other, record, Ok(())), Err(StateError::BorrowConflict));
    assert!(states.is_busy(&key));
    assert!(states.is_busy(&other));
}

#[test]
fn install_puts_a_record_in_by_hand() {
    let mut states = StateRegistry::new(2);
    let key = StateRegistry::key_for::<Stale>(&());
    let stranger = StateRegistry::key_for::<Other>(&());
    assert_eq!(states.set_keyed(key, 3, Stale), Ok(()));
    states.invalidate_states_at(4);
    let record = match states.checkout(&key, false) {
        Ok(Checkout::Refresh(record)) => record,
        _ => panic!("a dirty record is due for a refresh"),
    };
    let mut moved = record;
    moved.cache_key = stranger;
    assert_eq!(states.install(moved), Err(StateError::TypeMismatch));
    assert!(!states.contains_key(&stranger));
    assert!(states.is_busy(&key));
    let _ = states.abandon(&key, StateError::BorrowConflict);
    assert!(states.record(&key).is_none());
    assert_eq!(states.set_keyed(key, 9, Stale), Ok(()));
    let record = match states.checkout(&key, false) {
        Ok(Checkout::Ready) => states.record(&key).map(|record| record.last_access),
        _ => None,
    };
    assert_eq!(record, Some(9));
}

#[test]
fn record_of_another_type_is_not_taken_back() {
    let mut states = StateRegistry::new(2);
    let key = StateRegistry::key_for::<Stale>(&());
    let other = StateRegistry::key_for::<Other>(&());
    assert_eq!(states.set_keyed(key, 1, Stale), Ok(()));
    assert_eq!(states.set_keyed(other, 1, Other), Ok(()));
    states.invalidate_states_at(2);
    assert!(!states.contains_key(&other));
    let record = match states.checkout(&key, true) {
        Ok(Checkout::Refresh(record)) => record,
        _ => panic!("a dirty record is due for a refresh"),
    };
    assert!(matches!(states.checkout(&other, true), Ok(Checkout::Create)));
    let mut moved = record;
    moved.cache_key = other;
    assert_eq!(states.settle(&other, moved, Ok(())), Err(StateError::BorrowConflict));
    assert!(states.is_busy(&other));
    assert!(states.record(&other).is_none());
}

#[test]
fn value_set_under_the_key_of_another_type_is_a_mismatch() {
    let mut states = StateRegistry::new(1);
    let other = StateRegistry::key_for::<Other>(&());
    assert_eq!(states.set_keyed(other, 1, Stale), Err(StateError::TypeMismatch));
    assert!(!states.contains_key(&other));
    assert_eq!(states.free_slots(), 1);
    assert_eq!(
        states.resolve_keyed::<Stale>(other, 2, ()).err(),
        Some(StateError::ConstructionFailed {
            key: other,
            cause: Box::new(StateError::TypeMismatch),
        })
    );
    assert!(!states.is_busy(&other));
    assert!(states.resolve_keyed::<Other>(other, 3, ()).is_ok());
}

#[test]
fn creation_outcome_is_admitted_by_hand() {
    let mut states = StateRegistry::new(1);
    let key = StateRegistry::key_for::<Stale>(&());
    assert!(matches!(states.checkout(&key, false), Ok(Checkout::Create)));
    let record = states.admit_created::<Stale>(&key, 7, Ok(Stale)).ok().unwrap();
    assert!(record.dirty);
    assert_eq!(record.last_access, 7);
    assert_eq!(record.cache_key, key);
    assert!(matches!(record.cache_type, StateCacheType::Persistent));
    assert!(states.is_busy(&key));
    assert!(states.record(&key).is_none());
    assert_eq!(states.refresh_record::<Stale>(&key, record), Ok(()));
    assert!(!states.is_busy(&key));
    assert!(!states.record(&key).unwrap().dirty);
    assert_eq!(states.record(&key).unwrap().last_access, 7);
    assert!(states.get_keyed::<Stale>(&key).is_some());
}

#[test]
fn failed_creation_gives_the_slot_up() {
    let mut states = StateRegistry::new(1);
    let key = StateRegistry::key_for::<Other>(&());
    assert!(matches!(states.checkout(&key, false), Ok(Checkout::Create)));
    let failure = states
        .admit_created::<Other>(&key, 7, Err(StateError::Failed("gone".to_string())))
        .err();
    assert_eq!(
        failure,
        Some(StateError::ConstructionFailed {
            key,
            cause: Box::new(StateError::Failed("gone".to_string())),
        })
    );
    assert!(!states.is_busy(&key));
    assert!(states.contains_key(&key));
    assert!(matches!(states.checkout(&key, false), Ok(Checkout::Create)));
    let failure = states.admit_created::<Root>(&key, 8, Ok(Root { handle: 1 })).err();
    assert_eq!(
        failure,
        Some(StateError::ConstructionFailed { key, cause: Box::new(StateError::TypeMismatch) })
    );
    assert!(!states.is_busy(&key));
    assert!(states.record(&key).is_none());
}

#[test]
fn record_is_refreshed_as_its_own_type_only() {
    let mut states = StateRegistry::new(1);
    let key = StateRegistry::key_for::<Other>(&());
    assert_eq!(states.set_keyed(key, 1, Other), Ok(()));
    states.invalidate_states_at(2);
    assert!(!states.contains_key(&key));
    assert!(matches!(states.checkout(&key, true), Ok(Checkout::Create)));
    let record = states.admit_created::<Other>(&key, 3, Ok(Other)).ok().unwrap();
    assert_eq!(
        states.refresh_record::<Root>(&key, record),
        Err(StateError::RefreshFailed { key, cause: Box::new(StateError::TypeMismatch) })
    );
    assert!(states.record(&key).unwrap().dirty);
    assert!(states.get_keyed::<Other>(&key).is_some());
    assert!(states.resolve_keyed::<Other>(key, 4, ()).is_ok());
    assert!(!states.record(&key).unwrap().dirty);
}

#[test]
fn set_value_is_what_a_lookup_gives() {
    let mut states = StateRegistry::new(2);
    assert_eq!(states.set(Root { handle: 7 }, ()), Ok(()));
    assert_eq!(states.get::<Root>(()).unwrap().handle, 7);
    states.get_mut::<Root>(()).unwrap().handle = 8;
    assert_eq!(states.get::<Root>(()).unwrap().handle, 8);
    states.resolve_mut::<Root>(()).unwrap().handle = 9;
    assert_eq!(states.resolve::<Root>(()).unwrap().handle, 9);
    assert_eq!(states.resolve::<Root>(()).unwrap().handle, 9);
}
