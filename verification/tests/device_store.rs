use device_store::device::{DeviceInfo, DeviceStoreError};
use device_store::json::{decode_device_info, encode_device_info, JsonScalar, JsonValue};
use device_store::store::DeviceStore;

fn entry(key: &str, value: JsonScalar) -> (String, JsonScalar) {
    (key.to_owned(), value)
}

fn sample_record() -> DeviceInfo {
    DeviceInfo {
        device_id: "d1".to_owned(),
        platform: "linux".to_owned(),
        registered: false,
        created_at: 1700000000000,
    }
}

#[test]
fn get_or_create_on_empty_store_is_idempotent() {
    let mut store = DeviceStore::new();
    let first = store.get_or_create_device_info("linux".to_owned());
    let second = store.get_or_create_device_info("linux".to_owned());
    assert_eq!(first, second);
}

#[test]
fn fresh_record_is_unregistered_with_nonempty_unique_id() {
    let mut store_a = DeviceStore::new();
    let mut store_b = DeviceStore::new();
    let a = store_a.get_or_create_device_info("linux".to_owned());
    let b = store_b.get_or_create_device_info("linux".to_owned());
    assert!(!a.registered);
    assert!(!b.registered);
    assert!(!a.device_id.is_empty());
    assert_ne!(a.device_id, b.device_id);
}

#[test]
fn fresh_device_id_is_hyphenated_lowercase_hex() {
    let mut store = DeviceStore::new();
    let record = store.get_or_create_device_info("linux".to_owned());
    assert_eq!(record.device_id.len(), 36);
    for c in record.device_id.chars() {
        assert!(c == '-' || c.is_ascii_digit() || ('a'..='f').contains(&c));
    }
}

#[test]
fn update_keeps_identity_and_sets_flag() {
    let mut store = DeviceStore::new();
    let created = store.get_or_create_device_info("linux".to_owned());
    assert_eq!(store.update_device_registration(true), Ok(()));
    let after = store.get_or_create_device_info("linux".to_owned());
    assert!(after.registered);
    assert_eq!(after.device_id, created.device_id);
    assert_eq!(after.created_at, created.created_at);
    assert_eq!(after.platform, created.platform);
}

#[test]
fn update_on_empty_store_fails_without_writing() {
    let mut store = DeviceStore::new();
    let result = store.update_device_registration(true);
    assert_eq!(result, Err(DeviceStoreError::NotFound));
    assert!(store.value.is_none());
}

#[test]
fn update_on_corrupt_record_fails_without_writing() {
    let corrupt = JsonValue::Scalar(JsonScalar::Str("not a record".to_owned()));
    let mut store = DeviceStore::from_value(Some(corrupt));
    let result = store.update_device_registration(false);
    assert_eq!(result, Err(DeviceStoreError::NotFound));
    assert_eq!(
        store.value,
        Some(JsonValue::Scalar(JsonScalar::Str("not a record".to_owned())))
    );
}

#[test]
fn clear_on_empty_store_is_a_noop() {
    let mut store = DeviceStore::new();
    store.clear_device_id();
    assert!(store.value.is_none());
}

#[test]
fn clear_then_create_regenerates_identity() {
    let mut store = DeviceStore::new();
    let before = store.get_or_create_device_info("linux".to_owned());
    store.clear_device_id();
    assert!(store.value.is_none());
    let after = store.get_or_create_device_info("linux".to_owned());
    assert_ne!(before.device_id, after.device_id);
    assert!(!after.registered);
}

#[test]
fn get_or_create_overwrites_corrupt_record() {
    let corrupt = JsonValue::Obj(vec![entry("device_id", JsonScalar::Bool(true))]);
    let mut store = DeviceStore::from_value(Some(corrupt));
    let record = store.get_or_create_device_info("macos".to_owned());
    assert!(!record.registered);
    assert_eq!(record.platform, "macos");
    let again = store.get_or_create_device_info("macos".to_owned());
    assert_eq!(record, again);
}

#[test]
fn encode_decode_round_trip() {
    let record = sample_record();
    let encoded = encode_device_info(&record);
    assert_eq!(decode_device_info(&encoded), Some(record));
}

#[test]
fn encode_produces_the_canonical_object() {
    let encoded = encode_device_info(&sample_record());
    let expected = JsonValue::Obj(vec![
        entry("device_id", JsonScalar::Str("d1".to_owned())),
        entry("platform", JsonScalar::Str("linux".to_owned())),
        entry("registered", JsonScalar::Bool(false)),
        entry("created_at", JsonScalar::Int(1700000000000)),
    ]);
    assert_eq!(encoded, expected);
}

#[test]
fn decode_rejects_non_objects() {
    assert_eq!(decode_device_info(&JsonValue::Scalar(JsonScalar::Null)), None);
    assert_eq!(decode_device_info(&JsonValue::Scalar(JsonScalar::Int(7))), None);
    assert_eq!(decode_device_info(&JsonValue::Obj(vec![])), None);
}

#[test]
fn decode_rejects_missing_or_misshapen_fields() {
    let missing_created_at = JsonValue::Obj(vec![
        entry("device_id", JsonScalar::Str("d1".to_owned())),
        entry("platform", JsonScalar::Str("linux".to_owned())),
        entry("registered", JsonScalar::Bool(false)),
    ]);
    assert_eq!(decode_device_info(&missing_created_at), None);

    let wrong_flag_shape = JsonValue::Obj(vec![
        entry("device_id", JsonScalar::Str("d1".to_owned())),
        entry("platform", JsonScalar::Str("linux".to_owned())),
        entry("registered", JsonScalar::Str("yes".to_owned())),
        entry("created_at", JsonScalar::Int(1)),
    ]);
    assert_eq!(decode_device_info(&wrong_flag_shape), None);
}

#[test]
fn decode_ignores_extra_fields_and_order() {
    let shuffled = JsonValue::Obj(vec![
        entry("extra", JsonScalar::Null),
        entry("created_at", JsonScalar::Int(1700000000000)),
        entry("registered", JsonScalar::Bool(false)),
        entry("platform", JsonScalar::Str("linux".to_owned())),
        entry("device_id", JsonScalar::Str("d1".to_owned())),
    ]);
    assert_eq!(decode_device_info(&shuffled), Some(sample_record()));
}

#[test]
fn error_messages_describe_each_failure() {
    assert_eq!(DeviceStoreError::NotFound.message(), "Device info not found");
    assert_eq!(
        DeviceStoreError::StoreUnavailable("no such file".to_owned()).message(),
        "no such file"
    );
    assert_eq!(
        DeviceStoreError::PersistFailure("disk full".to_owned()).message(),
        "disk full"
    );
}
