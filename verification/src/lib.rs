//! A verified device-identity store: one flat device record kept under a
//! well-known key of a persistent key-value document, with get-or-create,
//! update-registration and clear operations.

pub mod device;
pub mod json;
pub mod store;

