//! Pinned resource shortcuts.

pub mod pin;
pub mod resource_type;
pub mod store;

pub use pin::Pin;
pub use resource_type::ResourceType;
pub use store::{PinError, PinStore};
