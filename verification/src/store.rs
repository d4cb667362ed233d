//! The device-identity store: a handle on the one well-known slot of the
//! backing document, with get-or-create, update-registration and clear.
//!
//! The handle holds the slot's current value as a structural JSON-like
//! value; the caller that owns the real persistent document reads the slot
//! into the handle before an operation and writes it back afterwards, so
//! the logic here is verified for every possible slot content.

use vstd::prelude::*;

use crate::device::{with_registered, DeviceInfo, DeviceStoreError};
use crate::json::{
    decode_device_info, decoded, encode_device_info, encodes, lemma_encodes_decoded, JsonValue,
};

verus! {

/// The content of the well-known slot: absent, or some JSON-like value
/// (well-formed or not — a corrupt value is representable on purpose).
pub struct DeviceStore {
    pub value: Option<JsonValue>,
}

/// The record the store currently holds: the decoded slot value, or `None`
/// when the slot is absent or structurally undecodable.
pub open spec fn stored_device(s: DeviceStore) -> Option<DeviceInfo> {
    match s.value {
        Some(v) => decoded(v),
        None => None,
    }
}

/// The hyphenated text form of a UUID: 36 characters, each a lowercase hex
/// digit or a hyphen. Non-empty in particular.
pub open spec fn is_hyphenated_uuid(s: Seq<char>) -> bool {
    s.len() == 36 && forall|i: int|
        0 <= i < 36 ==> (s[i] == '-' || ('0' <= s[i] && s[i] <= '9') || ('a' <= s[i] && s[i]
            <= 'f'))
}

/// Relies on uuid's `Uuid::new_v4` and its `Display` impl: the hyphenated
/// form of a fresh random UUID, 36 characters of lowercase hex and hyphens.
/// Which UUID comes back is random and is not specified.
#[verifier::external_body]
fn fresh_device_id() -> (r: String)
    ensures
        is_hyphenated_uuid(r@),
{
    uuid::Uuid::new_v4().to_string()
}

/// Relies on chrono's `Utc::now` and `timestamp_millis`: the clock decides
/// the value, so nothing is promised of it.
#[verifier::external_body]
fn now_millis() -> (r: i64) {
    chrono::Utc::now().timestamp_millis()
}

impl DeviceStore {
    /// An empty store: the slot is absent.
    pub fn new() -> (r: DeviceStore)
        ensures
            r.value is None,
    {
        DeviceStore { value: None }
    }

    /// A store whose slot holds `value` (or is absent).
    pub fn from_value(value: Option<JsonValue>) -> (r: DeviceStore)
        ensures
            r.value == value,
    {
        DeviceStore { value }
    }

    /// Return the stored record if the slot decodes to one; otherwise
    /// create a fresh record — new random identifier, the given platform
    /// tag, `registered` false, the current time — store its canonical
    /// encoding, and return it.
    pub fn get_or_create_device_info(&mut self, platform: String) -> (r: DeviceInfo)
        ensures
            stored_device(*old(self)) matches Some(d) ==> r == d && *final(self) == *old(self),
            stored_device(*old(self)) is None ==> {
                &&& r.registered == false
                &&& r.platform == platform
                &&& is_hyphenated_uuid(r.device_id@)
                &&& final(self).value matches Some(v) && encodes(v, r)
                &&& stored_device(*final(self)) == Some(r)
            },
    {
        let existing: Option<DeviceInfo> = match &self.value {
            Some(v) => decode_device_info(v),
            None => None,
        };
        if let Some(d) = existing {
            return d;
        }
        let info = DeviceInfo {
            device_id: fresh_device_id(),
            platform,
            registered: false,
            created_at: now_millis(),
        };
        let encoded = encode_device_info(&info);
        proof {
            lemma_encodes_decoded(encoded, info);
        }
        self.value = Some(encoded);
        info
    }

    /// Set the registration flag of the stored record to `registered` and
    /// store the updated record, leaving every other field as it was. When
    /// the slot is absent or undecodable, fail with the not-found error and
    /// change nothing.
    pub fn update_device_registration(&mut self, registered: bool) -> (r: Result<
        (),
        DeviceStoreError,
    >)
        ensures
            stored_device(*old(self)) matches Some(d) ==> {
                &&& r is Ok
                &&& final(self).value matches Some(v) && encodes(v, with_registered(d, registered))
                &&& stored_device(*final(self)) == Some(with_registered(d, registered))
            },
            stored_device(*old(self)) is None ==> r == Err::<(), DeviceStoreError>(
                DeviceStoreError::NotFound,
            ) && *final(self) == *old(self),
    {
        let existing: Option<DeviceInfo> = match &self.value {
            Some(v) => decode_device_info(v),
            None => None,
        };
        match existing {
            Some(d) => {
                let updated = DeviceInfo { registered, ..d };
                let encoded = encode_device_info(&updated);
                proof {
                    lemma_encodes_decoded(encoded, updated);
                }
                self.value = Some(encoded);
                Ok(())
            },
            None => Err(DeviceStoreError::NotFound),
        }
    }

    /// Remove the record: leave the slot absent, whatever it held. A no-op
    /// on an empty store.
    pub fn clear_device_id(&mut self)
        ensures
            final(self).value is None,
            stored_device(*final(self)) is None,
    {
        self.value = None;
    }
}

/// Law: get-or-create is idempotent once a record is stored. After an
/// operation leaves the slot holding an encoding of record `d` — as both
/// creation and update do — the store's record is exactly `d`, so a
/// following get-or-create returns `d` and changes nothing.
pub proof fn lemma_get_or_create_idempotent(s: DeviceStore, d: DeviceInfo)
    requires
        s.value matches Some(v) && encodes(v, d),
    ensures
        stored_device(s) == Some(d),
{
    match s.value {
        Some(v) => lemma_encodes_decoded(v, d),
        None => {},
    }
}

/// Law: updating the registration flag does not regenerate the identity.
/// The updated record keeps the identifier, platform tag and creation time
/// of the old one, and carries the requested flag.
pub proof fn lemma_update_preserves_identity(d: DeviceInfo, flag: bool)
    ensures
        with_registered(d, flag).device_id == d.device_id,
        with_registered(d, flag).platform == d.platform,
        with_registered(d, flag).created_at == d.created_at,
        with_registered(d, flag).registered == flag,
{
}

} // verus!
