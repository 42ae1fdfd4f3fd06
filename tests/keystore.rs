use vdo_link_vault::keystore::{generate_new_encryption_key, load_or_generate_encryption_key};

#[test]
fn new_key_is_thirty_two_alphanumerics() {
    let k = generate_new_encryption_key();
    assert_eq!(k.len(), 32);
    assert!(k.chars().all(|c| c.is_ascii_alphanumeric()));
}

#[test]
fn missing_key_file_creates_a_key() {
    let loaded = load_or_generate_encryption_key(None);
    assert!(loaded.created);
    assert_eq!(loaded.key.len(), 32);
    assert!(loaded.key.chars().all(|c| c.is_ascii_alphanumeric()));
}

#[test]
fn stored_key_is_returned_unchanged() {
    let loaded = load_or_generate_encryption_key(Some("my stored key".to_string()));
    assert!(!loaded.created);
    assert_eq!(loaded.key, "my stored key");
}

#[test]
fn two_loads_return_the_same_key() {
    let first = load_or_generate_encryption_key(None);
    // The application writes the new key to the key file; the next load reads it.
    let file = first.key.clone();
    let second = load_or_generate_encryption_key(Some(file));
    assert!(!second.created);
    assert_eq!(second.key, first.key);
}
