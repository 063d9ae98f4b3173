use clipboardpro::keys::{
    get_hardware_uuid, key_entry_user, key_entry_with_key, new_key_entry, retrieve_key,
    retrieve_key_with_uuid, store_key_with_uuid, KeyError, APP_NAME,
};

#[test]
fn host_name_is_trimmed() {
    let id = get_hardware_uuid(Ok("  desk-7\n\t".to_string())).unwrap();
    assert_eq!(id, "desk-7");
}

#[test]
fn unicode_white_space_is_trimmed() {
    let id = get_hardware_uuid(Ok("\u{3000}\u{a0}box one\u{2028}".to_string())).unwrap();
    assert_eq!(id, "box one");
}

#[test]
fn blank_host_name_becomes_empty() {
    assert_eq!(get_hardware_uuid(Ok(" \r\n ".to_string())).unwrap(), "");
}

#[test]
fn host_name_error_is_passed_on() {
    let id = get_hardware_uuid(Err(sys_info::Error::Unknown));
    assert!(matches!(id, Err(sys_info::Error::Unknown)));
}

#[test]
fn device_id_of_this_machine_has_no_surrounding_white_space() {
    if let Ok(id) = get_hardware_uuid(sys_info::hostname()) {
        assert_eq!(id.trim(), id);
    }
}

#[test]
fn record_name_is_device_then_purpose() {
    assert_eq!(key_entry_user("desk-7".to_string(), "clipboard"), "desk-7clipboard");
    assert_eq!(APP_NAME, "clipboardplusplus");
}

#[test]
fn new_record_holds_a_256_bit_key() {
    let entry = new_key_entry("desk-7".to_string(), "sync");
    assert_eq!(entry.user, "desk-7sync");
    assert_eq!(entry.secret.len(), 44);
    assert!(entry.secret.ends_with('='));
    let key = retrieve_key_with_uuid(Some(entry.secret.clone())).unwrap();
    assert_eq!(key.len(), 32);
}

#[test]
fn fresh_keys_differ() {
    let a = new_key_entry("d".to_string(), "p");
    let b = new_key_entry("d".to_string(), "p");
    assert_ne!(a.secret, b.secret);
}

#[test]
fn stored_key_reads_back() {
    let entry = store_key_with_uuid(Ok(" desk-7\n".to_string()), "backup".to_string()).unwrap();
    assert_eq!(entry.user, "desk-7backup");
    assert_eq!(entry.secret.len(), 44);
    let key = retrieve_key_with_uuid(Some(entry.secret)).unwrap();
    assert_eq!(key.len(), 32);
}

#[test]
fn store_passes_host_name_error_on() {
    let entry = store_key_with_uuid(Err(sys_info::Error::UnsupportedSystem), "backup".to_string());
    assert!(matches!(entry, Err(sys_info::Error::UnsupportedSystem)));
}

#[test]
fn known_secret_decodes() {
    assert_eq!(retrieve_key_with_uuid(Some("AAEC".to_string())), Ok(vec![0u8, 1, 2]));
    assert_eq!(retrieve_key_with_uuid(Some("aGVsbG8=".to_string())), Ok(b"hello".to_vec()));
}

#[test]
fn unopened_record_is_reported() {
    let err = retrieve_key_with_uuid(None).unwrap_err();
    assert_eq!(err, KeyError::EntryUnavailable);
    assert_eq!(err.message(), "Failed to retrieve value");
}

#[test]
fn invalid_secret_is_reported() {
    let err = retrieve_key_with_uuid(Some("not base64!".to_string())).unwrap_err();
    assert_eq!(err, KeyError::InvalidEncoding);
    assert_eq!(err.message(), "Stored key is not valid Base64");
}

#[test]
fn empty_lookup_does_nothing() {
    retrieve_key();
}

#[test]
fn record_holds_the_given_key() {
    let mut key = [0u8; 32];
    key[31] = 7;
    let entry = key_entry_with_key("desk-7".to_string(), "sync", key);
    assert_eq!(entry.user, "desk-7sync");
    assert_eq!(entry.secret, format!("{}c=", "A".repeat(42)));
    assert_eq!(retrieve_key_with_uuid(Some(entry.secret)), Ok(key.to_vec()));
}
