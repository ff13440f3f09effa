use utils_state::State;
use utils_state::StateCacheType;
use utils_state::StateError;
use utils_state::StateRegistry;

struct StateA;

impl State for StateA {
    type Parameter = ();

    fn create(_states: &mut StateRegistry, _params: Self::Parameter) -> Result<Self, StateError> {
        println!("State A created");
        Ok(Self)
    }

    fn cache_type() -> StateCacheType {
        StateCacheType::Volatile
    }
}

struct StateB;

impl State for StateB {
    type Parameter = ();

    fn create(_states: &mut StateRegistry, _params: Self::Parameter) -> Result<Self, StateError> {
        println!("State B created");
        Ok(Self)
    }

    fn cache_type() -> StateCacheType {
        StateCacheType::Persistent
    }
}

struct StateC;

impl State for StateC {
    type Parameter = u64;

    fn create(states: &mut StateRegistry, params: Self::Parameter) -> Result<Self, StateError> {
        assert!(states.resolve::<StateA>(()).is_ok());
        println!("State C({}) created", params);
        assert!(states.resolve::<StateB>(()).is_ok());
        if params == 1 {
            assert!(states.resolve::<StateC>(1).is_err());
        } else {
            assert!(states.resolve::<StateC>(1).is_ok());
        }
        Ok(Self)
    }

    fn cache_type() -> StateCacheType {
        StateCacheType::Persistent
    }
}

#[test]
fn test_creation_0() {
    let mut states = StateRegistry::new(10);
    assert!(states.resolve::<StateA>(()).is_ok());
}

#[test]
fn test_creation_1() {
    let mut states = StateRegistry::new(4);
    assert!(states.resolve::<StateC>(0).is_ok());
}

#[test]
fn test_expire() {
    let mut states = StateRegistry::new(2);
    assert!(states.resolve::<StateA>(()).is_ok());
    assert!(states.resolve::<StateB>(()).is_ok());
    states.invalidate_states();
    assert!(states.get::<StateA>(()).is_none());
    assert!(states.get::<StateB>(()).is_some());
    assert!(states.resolve::<StateA>(()).is_ok());
    assert!(states.resolve::<StateB>(()).is_ok());
    assert!(states.get::<StateA>(()).is_some());
    assert!(states.get::<StateB>(()).is_some());
}

#[test]
fn nested_request_for_the_same_key_is_a_circular_dependency() {
    let mut states = StateRegistry::new(4);
    assert!(states.resolve::<StateC>(1).is_ok());
    assert_eq!(states.free_slots(), 1);
}

#[test]
fn new_registry_is_empty() {
    let states = StateRegistry::new(3);
    assert_eq!(states.capacity(), 3);
    assert_eq!(states.free_slots(), 3);
    assert!(states.get::<StateA>(()).is_none());
    let key = StateRegistry::key_for::<StateA>(&());
    assert!(!states.contains_key(&key));
    assert!(!states.is_busy(&key));
    assert!(states.record(&key).is_none());
}

#[test]
fn registry_of_no_slots_turns_every_key_away() {
    let mut states = StateRegistry::new(0);
    assert_eq!(states.resolve::<StateA>(()).err(), Some(StateError::CapacityExceeded));
    assert_eq!(states.set(StateA, ()), Err(StateError::CapacityExceeded));
    states.invalidate_states();
    assert_eq!(states.free_slots(), 0);
}

#[test]
fn keys_of_two_types_with_the_same_parameter_differ() {
    let a = StateRegistry::key_for::<StateA>(&());
    let b = StateRegistry::key_for::<StateB>(&());
    assert_ne!(a, b);
    assert_eq!(a.1, b.1);
    assert_eq!(a, StateRegistry::key_for::<StateA>(&()));
    let mut states = StateRegistry::new(2);
    assert!(states.resolve::<StateA>(()).is_ok());
    assert!(states.resolve::<StateB>(()).is_ok());
    assert_eq!(states.free_slots(), 0);
    assert!(states.contains_key(&a));
    assert!(states.contains_key(&b));
}

#[test]
fn keys_of_two_parameters_differ() {
    let one = StateRegistry::key_for::<StateC>(&1);
    let two = StateRegistry::key_for::<StateC>(&2);
    assert_ne!(one, two);
    assert_eq!(one.0, two.0);
}
