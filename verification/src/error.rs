//! Failures reported by the state registry.
use vstd::prelude::*;
use crate::allocator::CacheKey;

verus! {

/// Why a request to the registry, or the construction or refresh of a state,
/// did not succeed.
#[derive(Debug, PartialEq, Eq)]
pub enum StateError {
    /// A new key needed a slot and every slot is taken.
    CapacityExceeded,
    /// The slot is held by an initialisation or refresh that has not finished.
    BorrowConflict,
    /// The state cached under `key` was asked for while it was being created
    /// or refreshed: it depends on itself.
    CircularDependency { key: CacheKey },
    /// The `create` of the state cached under `key` failed; `cause` is what it
    /// returned.
    ConstructionFailed { key: CacheKey, cause: Box<StateError> },
    /// The `update` of the state cached under `key` failed; `cause` is what it
    /// returned.
    RefreshFailed { key: CacheKey, cause: Box<StateError> },
    /// The slot of this key holds a value of another type than the one asked for.
    TypeMismatch,
    /// The state has no `create` of its own and has to be put into the
    /// registry with `set`.
    ManualInstallRequired,
    /// A failure of the state's own logic, with its message.
    Failed(String),
}

impl StateError {
    /// Whether the failure is one of the registry's own: no slot, or a slot
    /// in use, rather than a failure inside a state's `create` or `update`.
    pub open spec fn spec_is_structural(&self) -> bool {
        match self {
            StateError::CapacityExceeded => true,
            StateError::BorrowConflict => true,
            StateError::CircularDependency { .. } => true,
            _ => false,
        }
    }

    pub fn is_structural(&self) -> (r: bool)
        ensures
            r == self.spec_is_structural(),
    {
        match self {
            StateError::CapacityExceeded => true,
            StateError::BorrowConflict => true,
            StateError::CircularDependency { .. } => true,
            _ => false,
        }
    }
}

} // verus!
