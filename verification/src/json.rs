//! A structural model of the JSON-like values the backing document holds,
//! and the codec between such a value and a [`DeviceInfo`] record.
//!
//! The persisted record is a flat object of four scalar fields. Anything
//! else — a bare scalar, a missing field, a field of the wrong shape — is
//! structurally undecodable, which the operations treat as an absent record.

use vstd::prelude::*;

use crate::device::DeviceInfo;

verus! {

/// A scalar JSON value. A value of any other shape (a fractional number, a
/// nested array or object) carries no field of the record and is modelled
/// as `Null`, which decodes the same way: not at all.
#[derive(Clone, Debug, PartialEq, Eq)]
pub enum JsonScalar {
    Null,
    Bool(bool),
    Int(i64),
    Str(String),
}

/// A JSON-like document value: a scalar, or an object of key/scalar pairs
/// looked up by first match.
#[derive(Debug, PartialEq, Eq)]
pub enum JsonValue {
    Scalar(JsonScalar),
    Obj(Vec<(String, JsonScalar)>),
}

/// First-match lookup of `key` among `entries`.
pub open spec fn lookup_spec(entries: Seq<(String, JsonScalar)>, key: Seq<char>) -> Option<
    JsonScalar,
>
    decreases entries.len(),
{
    if entries.len() == 0 {
        None
    } else if entries[0].0@ == key {
        Some(entries[0].1)
    } else {
        lookup_spec(entries.skip(1), key)
    }
}

/// The record held by an object's entries, if each of the four fields is
/// present with the right shape.
pub open spec fn decoded_entries(entries: Seq<(String, JsonScalar)>) -> Option<DeviceInfo> {
    match (
        lookup_spec(entries, "device_id"@),
        lookup_spec(entries, "platform"@),
        lookup_spec(entries, "registered"@),
        lookup_spec(entries, "created_at"@),
    ) {
        (
            Some(JsonScalar::Str(device_id)),
            Some(JsonScalar::Str(platform)),
            Some(JsonScalar::Bool(registered)),
            Some(JsonScalar::Int(created_at)),
        ) => Some(DeviceInfo { device_id, platform, registered, created_at }),
        _ => None,
    }
}

/// The record a stored value decodes to, if it is structurally a record
/// at all.
pub open spec fn decoded(v: JsonValue) -> Option<DeviceInfo> {
    match v {
        JsonValue::Obj(entries) => decoded_entries(entries@),
        _ => None,
    }
}

/// `v` is the canonical encoding of the record `d`: an object of exactly
/// the four fields, in a fixed order.
pub open spec fn encodes(v: JsonValue, d: DeviceInfo) -> bool {
    &&& v matches JsonValue::Obj(entries)
    &&& entries@.len() == 4
    &&& entries@[0].0@ == "device_id"@
    &&& entries@[0].1 == JsonScalar::Str(d.device_id)
    &&& entries@[1].0@ == "platform"@
    &&& entries@[1].1 == JsonScalar::Str(d.platform)
    &&& entries@[2].0@ == "registered"@
    &&& entries@[2].1 == JsonScalar::Bool(d.registered)
    &&& entries@[3].0@ == "created_at"@
    &&& entries@[3].1 == JsonScalar::Int(d.created_at)
}

/// Law: the codec round-trips. A value that canonically encodes a record
/// decodes back to exactly that record, so a record once stored is found
/// again unchanged.
pub proof fn lemma_encodes_decoded(v: JsonValue, d: DeviceInfo)
    requires
        encodes(v, d),
    ensures
        decoded(v) == Some(d),
{
    reveal_with_fuel(lookup_spec, 6);
    reveal_strlit("device_id");
    reveal_strlit("platform");
    reveal_strlit("registered");
    reveal_strlit("created_at");
    match v {
        JsonValue::Obj(entries) => {
            let s = entries@;
            assert(s.skip(1).len() == 3 && s.skip(1)[0] == s[1] && s.skip(1)[1] == s[2] && s.skip(
                1,
            )[2] == s[3]);
            assert(s.skip(1).skip(1) =~= s.skip(2));
            assert(s.skip(2).len() == 2 && s.skip(2)[0] == s[2] && s.skip(2)[1] == s[3]);
            assert(s.skip(2).skip(1) =~= s.skip(3));
            assert(s.skip(3).len() == 1 && s.skip(3)[0] == s[3]);
            assert("registered"@[0] == 'r' && "created_at"@[0] == 'c');
            assert("device_id"@.len() == 9 && "platform"@.len() == 8 && "registered"@.len() == 10
                && "created_at"@.len() == 10);
            assert("platform"@ != "device_id"@);
            assert("registered"@ != "device_id"@ && "registered"@ != "platform"@);
            assert("created_at"@ != "device_id"@ && "created_at"@ != "platform"@ && "created_at"@
                != "registered"@);
            assert(lookup_spec(s, "device_id"@) == Some(JsonScalar::Str(d.device_id)));
            assert(lookup_spec(s, "platform"@) == Some(JsonScalar::Str(d.platform)));
            assert(lookup_spec(s, "registered"@) == Some(JsonScalar::Bool(d.registered)));
            assert(lookup_spec(s, "created_at"@) == Some(JsonScalar::Int(d.created_at)));
        },
        _ => {
            assert(false);
        },
    }
}

/// First-match lookup of `key` among the entries of an object.
fn obj_lookup<'a>(entries: &'a Vec<(String, JsonScalar)>, key: &String) -> (r: Option<
    &'a JsonScalar,
>)
    ensures
        match r {
            Some(s) => lookup_spec(entries@, key@) == Some(*s),
            None => lookup_spec(entries@, key@) is None,
        },
{
    let mut i: usize = 0;
    proof {
        assert(entries@.skip(0) =~= entries@);
    }
    while i < entries.len()
        invariant
            i <= entries@.len(),
            lookup_spec(entries@, key@) == lookup_spec(entries@.skip(i as int), key@),
        decreases entries@.len() - i,
    {
        let pair = &entries[i];
        proof {
            assert(entries@.skip(i as int)[0] == entries@[i as int]);
        }
        if pair.0 == *key {
            return Some(&pair.1);
        }
        proof {
            assert(entries@.skip(i as int).skip(1) =~= entries@.skip(i as int + 1));
        }
        i = i + 1;
    }
    None
}

/// Decode a stored value into the record it structurally holds, if any.
pub fn decode_device_info(v: &JsonValue) -> (r: Option<DeviceInfo>)
    ensures
        r == decoded(*v),
{
    match v {
        JsonValue::Obj(entries) => {
            let key_device_id: String = "device_id".to_owned();
            let key_platform: String = "platform".to_owned();
            let key_registered: String = "registered".to_owned();
            let key_created_at: String = "created_at".to_owned();
            let f_device_id = obj_lookup(entries, &key_device_id);
            let f_platform = obj_lookup(entries, &key_platform);
            let f_registered = obj_lookup(entries, &key_registered);
            let f_created_at = obj_lookup(entries, &key_created_at);
            match (f_device_id, f_platform, f_registered, f_created_at) {
                (
                    Some(JsonScalar::Str(device_id)),
                    Some(JsonScalar::Str(platform)),
                    Some(JsonScalar::Bool(registered)),
                    Some(JsonScalar::Int(created_at)),
                ) => Some(
                    DeviceInfo {
                        device_id: device_id.clone(),
                        platform: platform.clone(),
                        registered: *registered,
                        created_at: *created_at,
                    },
                ),
                _ => None,
            }
        },
        _ => None,
    }
}

/// Encode a record as the canonical stored value.
pub fn encode_device_info(d: &DeviceInfo) -> (r: JsonValue)
    ensures
        encodes(r, *d),
{
    let mut entries: Vec<(String, JsonScalar)> = Vec::new();
    entries.push(("device_id".to_owned(), JsonScalar::Str(d.device_id.clone())));
    entries.push(("platform".to_owned(), JsonScalar::Str(d.platform.clone())));
    entries.push(("registered".to_owned(), JsonScalar::Bool(d.registered)));
    entries.push(("created_at".to_owned(), JsonScalar::Int(d.created_at)));
    JsonValue::Obj(entries)
}

} // verus!
