use vdo_link_vault::generator::{
    compose_link_url, generate_random_secure_url, random_password, random_push_id,
};
use vdo_link_vault::policy::validate_audience_password;

fn in_alphabet(c: char) -> bool {
    c.is_ascii_alphanumeric() || "!@#$%^&*".contains(c)
}

#[test]
fn generated_passwords_always_validate() {
    for _ in 0..10_000 {
        let p = random_password();
        assert_eq!(p.len(), 16);
        assert!(p.chars().all(in_alphabet));
        assert_eq!(validate_audience_password(&p), Ok(()));
    }
}

#[test]
fn push_id_is_eight_alphanumerics() {
    for _ in 0..1000 {
        let id = random_push_id();
        assert_eq!(id.len(), 8);
        assert!(id.chars().all(|c| c.is_ascii_alphanumeric()));
    }
}

#[test]
fn compose_with_audience() {
    assert_eq!(
        compose_link_url("abc123", "Valid1Pass!"),
        "https://vdo.ninja/?push=abc123&audience=Valid1Pass!"
    );
}

#[test]
fn compose_without_audience() {
    assert_eq!(compose_link_url("abc123", ""), "https://vdo.ninja/?push=abc123");
}

#[test]
fn random_url_has_the_template_shape() {
    let url = generate_random_secure_url();
    let rest = url.strip_prefix("https://vdo.ninja/?push=").unwrap();
    let (push, password) = rest.split_once("&audience=").unwrap();
    assert_eq!(push.len(), 8);
    assert!(push.chars().all(|c| c.is_ascii_alphanumeric()));
    assert_eq!(password.len(), 16);
    assert_eq!(validate_audience_password(password), Ok(()));
}
