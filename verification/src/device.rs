//! The device record: the one entity this library tracks, and the closed
//! error taxonomy its operations report.

use vstd::prelude::*;

verus! {

/// The single persisted entity: an opaque unique identifier, a host platform
/// tag, a mutable registration flag, and a creation timestamp in milliseconds
/// since the epoch. All fields but `registered` are set once at creation and
/// never change afterwards.
#[derive(Clone, Debug, PartialEq, Eq)]
pub struct DeviceInfo {
    pub device_id: String,
    pub platform: String,
    pub registered: bool,
    pub created_at: i64,
}

/// The record `d` with its registration flag replaced by `flag` and every
/// other field unchanged.
pub open spec fn with_registered(d: DeviceInfo, flag: bool) -> DeviceInfo {
    DeviceInfo { registered: flag, ..d }
}

/// The closed error taxonomy of the store operations: the backing document
/// cannot be opened, a write or persist step failed, or an update was asked
/// of an absent (or structurally undecodable) record. The first two carry
/// the underlying failure's description as context.
#[derive(Clone, Debug, PartialEq, Eq)]
pub enum DeviceStoreError {
    StoreUnavailable(String),
    PersistFailure(String),
    NotFound,
}

impl DeviceStoreError {
    /// A human-readable description of the failure.
    pub fn message(&self) -> (r: String)
        ensures
            *self is NotFound ==> r@ == "Device info not found"@,
            *self matches DeviceStoreError::StoreUnavailable(m) ==> r == m,
            *self matches DeviceStoreError::PersistFailure(m) ==> r == m,
    {
        match self {
            DeviceStoreError::NotFound => "Device info not found".to_owned(),
            DeviceStoreError::StoreUnavailable(m) => m.clone(),
            DeviceStoreError::PersistFailure(m) => m.clone(),
        }
    }
}

} // verus!
