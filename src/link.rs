//! The operations that the application calls: make a link, encrypt it for
//! the configuration file, and hand back what is to be stored.
use vstd::prelude::*;
use crate::config::{ciphertext_of, save_encrypted_url_to_config, ConfigRecord};
use crate::generator::{
    compose_link_url, generate_random_secure_url, is_generated_password, is_push_id, link_url,
};
use crate::policy::{first_violation, validate_audience_password, PolicyViolation};

verus! {

/// A link in clear text and the record that stores it.
pub struct SavedLink {
    pub url: String,
    pub record: ConfigRecord,
}

/// `saved` holds `url` and the record that stores it under `key`.
pub open spec fn saves(saved: SavedLink, key: Seq<char>, url: Seq<char>) -> bool {
    &&& saved.url@ == url
    &&& saved.record.encrypted_url@ == ciphertext_of(key, url)
}

/// A new random link, with its record under `key`.
pub fn generate_new_random_link(key: &str) -> (r: SavedLink)
    ensures
        saves(r, key@, r.url@),
        exists|push_id: Seq<char>, password: Seq<char>|
            is_push_id(push_id) && is_generated_password(password) && r.url@ == link_url(
                push_id,
                password,
            ),
{
    let url = generate_random_secure_url();
    let record = save_encrypted_url_to_config(key, url.as_str());
    SavedLink { url, record }
}

/// The link for a push identifier and an audience password chosen by the
/// user, with its record under `key`. An empty `audience` leaves the audience
/// clause out; any other is first checked against the password policy.
pub fn set_and_save_vdo_ninja_link(push_id: &str, audience: &str, key: &str) -> (r: Result<
    SavedLink,
    PolicyViolation,
>)
    ensures
        audience@.len() > 0 && first_violation(audience@) is Some ==> r == Err::<
            SavedLink,
            PolicyViolation,
        >(first_violation(audience@)->0),
        audience@.len() == 0 || first_violation(audience@) is None ==> (r matches Ok(saved)
            && saves(saved, key@, link_url(push_id@, audience@))),
{
    if !audience.is_empty() {
        if let Err(e) = validate_audience_password(audience) {
            return Err(e);
        }
    }
    let url = compose_link_url(push_id, audience);
    let record = save_encrypted_url_to_config(key, url.as_str());
    Ok(SavedLink { url, record })
}

} // verus!
