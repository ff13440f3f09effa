//! A typed cache of derived values with per-type expiry, and a few small
//! pieces of front-end state.
pub mod allocator;
pub mod clock;
pub mod error;
pub mod laws;
pub mod model;
pub mod payload;
pub mod registry;
pub mod render_backend;
pub mod settings_manager;
pub mod state;

pub use allocator::CacheKey;
pub use allocator::StateAllocator;
pub use error::StateError;
pub use payload::Payload;
pub use render_backend::RenderBackendType;
pub use settings_manager::SettingsManager;
pub use model::InternalState;
pub use model::RegistryModel;
pub use model::Slot;
pub use registry::Checkout;
pub use registry::StateRegistry;
pub use state::State;
pub use state::StateCacheType;
