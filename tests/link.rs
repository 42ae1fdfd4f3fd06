use vdo_link_vault::config::load_decrypted_url_from_config;
use vdo_link_vault::link::{generate_new_random_link, set_and_save_vdo_ninja_link};
use vdo_link_vault::policy::PolicyViolation;

const KEY: &str = "Q1w2E3r4T5y6U7i8O9p0AaSsDdFfGgHh";

#[test]
fn generated_link_loads_back() {
    let saved = generate_new_random_link(KEY);
    assert!(saved.url.starts_with("https://vdo.ninja/?push="));
    assert_eq!(load_decrypted_url_from_config(Some(saved.record), KEY), Some(saved.url));
}

#[test]
fn manual_link_without_audience() {
    let saved = set_and_save_vdo_ninja_link("abc123", "", KEY).unwrap();
    assert_eq!(saved.url, "https://vdo.ninja/?push=abc123");
    assert_eq!(
        load_decrypted_url_from_config(Some(saved.record), KEY),
        Some("https://vdo.ninja/?push=abc123".to_string())
    );
}

#[test]
fn manual_link_with_valid_audience() {
    let saved = set_and_save_vdo_ninja_link("abc123", "Valid1Pass!", KEY).unwrap();
    assert_eq!(saved.url, "https://vdo.ninja/?push=abc123&audience=Valid1Pass!");
    assert_eq!(
        load_decrypted_url_from_config(Some(saved.record), KEY),
        Some("https://vdo.ninja/?push=abc123&audience=Valid1Pass!".to_string())
    );
}

#[test]
fn manual_link_with_weak_audience_is_refused() {
    assert!(matches!(
        set_and_save_vdo_ninja_link("abc123", "weak", KEY),
        Err(PolicyViolation::TooShort)
    ));
    assert!(matches!(
        set_and_save_vdo_ninja_link("abc123", "NoSpecial1", KEY),
        Err(PolicyViolation::MissingSpecial)
    ));
}

#[test]
fn nothing_saved_loads_as_none() {
    assert_eq!(load_decrypted_url_from_config(None, KEY), None);
}
