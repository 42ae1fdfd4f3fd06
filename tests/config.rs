use vdo_link_vault::config::{
    load_decrypted_url_from_config, save_encrypted_url_to_config, ConfigRecord,
};

const KEY: &str = "abcdefghijklmnopqrstuvwxyz012345";

#[test]
fn round_trip() {
    for text in ["", "x", "https://vdo.ninja/?push=abc123", "ünïcödé ✓ text with spaces"] {
        let record = save_encrypted_url_to_config(KEY, text);
        assert_eq!(load_decrypted_url_from_config(Some(record), KEY), Some(text.to_string()));
    }
}

#[test]
fn round_trip_with_short_key() {
    let record = save_encrypted_url_to_config("k", "hello");
    assert_eq!(load_decrypted_url_from_config(Some(record), "k"), Some("hello".to_string()));
}

#[test]
fn ciphertext_is_base64_and_not_the_plaintext() {
    let url = "https://vdo.ninja/?push=abc123";
    let record = save_encrypted_url_to_config(KEY, url);
    assert_ne!(record.encrypted_url, url);
    assert_eq!(record.encrypted_url.len() % 4, 0);
    assert!(record
        .encrypted_url
        .chars()
        .all(|c| c.is_ascii_alphanumeric() || c == '+' || c == '/' || c == '='));
}

#[test]
fn encryption_is_deterministic() {
    let a = save_encrypted_url_to_config(KEY, "same text");
    let b = save_encrypted_url_to_config(KEY, "same text");
    assert_eq!(a.encrypted_url, b.encrypted_url);
}

#[test]
fn wrong_key_gives_none() {
    let record = save_encrypted_url_to_config(KEY, "https://vdo.ninja/?push=abc123");
    let other = "ZYXWVUTSRQPONMLKJIHGFEDCBA987654";
    assert_eq!(load_decrypted_url_from_config(Some(record), other), None);
}

#[test]
fn missing_record_gives_none() {
    assert_eq!(load_decrypted_url_from_config(None, KEY), None);
}

#[test]
fn invalid_base64_gives_none() {
    let record = ConfigRecord { encrypted_url: "not base64 at all!".to_string() };
    assert_eq!(load_decrypted_url_from_config(Some(record), KEY), None);
}
