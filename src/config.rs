//! The encrypted configuration record: its one field holds the session link
//! encrypted with the symmetric key and encoded as base64.
use magic_crypt::MagicCryptTrait;
use vstd::prelude::*;

verus! {

/// The base64 text that magic_crypt's 256-bit cipher makes of `plaintext`
/// under `key`.
pub uninterp spec fn ciphertext_of(key: Seq<char>, plaintext: Seq<char>) -> Seq<char>;

/// What magic_crypt's 256-bit cipher recovers from the base64 text
/// `ciphertext` under `key`; `None` where decoding or decryption fails.
pub uninterp spec fn plaintext_of(key: Seq<char>, ciphertext: Seq<char>) -> Option<Seq<char>>;

/// Relies on magic_crypt's `MagicCrypt256::new` (the cipher that
/// `new_magic_crypt!(key, 256)` builds: SHA-256 of the key, zero IV) and
/// `encrypt_str_to_base64`: the result depends on the key and the text alone.
#[verifier::external_body]
fn encrypt_to_base64(key: &str, plaintext: &str) -> (r: String)
    ensures
        r@ == ciphertext_of(key@, plaintext@),
{
    magic_crypt::MagicCrypt256::new(key, None::<String>).encrypt_str_to_base64(plaintext)
}

/// Relies on magic_crypt's `MagicCrypt256::new` and `decrypt_base64_to_string`,
/// its error taken as `None`: decryption under the key that encrypted a text
/// gives that text back.
#[verifier::external_body]
fn decrypt_from_base64(key: &str, ciphertext: &str) -> (r: Option<String>)
    ensures
        r.deep_view() == plaintext_of(key@, ciphertext@),
        forall|p: Seq<char>|
            #[trigger] ciphertext_of(key@, p) == ciphertext@ ==> r.deep_view() == Some(p),
{
    magic_crypt::MagicCrypt256::new(key, None::<String>).decrypt_base64_to_string(ciphertext).ok()
}

/// The record held in the configuration file.
pub struct ConfigRecord {
    pub encrypted_url: String,
}

/// The link that a configuration file yields under `key`: nothing when there
/// is no readable record or when it does not decrypt.
pub open spec fn stored_link(record: Option<Seq<char>>, key: Seq<char>) -> Option<Seq<char>> {
    match record {
        Some(c) => plaintext_of(key, c),
        None => None,
    }
}

pub open spec fn record_view(record: Option<ConfigRecord>) -> Option<Seq<char>> {
    match record {
        Some(c) => Some(c.encrypted_url@),
        None => None,
    }
}

/// The record to write for `url` under `key`.
pub fn save_encrypted_url_to_config(key: &str, url: &str) -> (r: ConfigRecord)
    ensures
        r.encrypted_url@ == ciphertext_of(key@, url@),
{
    ConfigRecord { encrypted_url: encrypt_to_base64(key, url) }
}

/// The link held in `record` (`None` when the configuration file is missing
/// or does not parse), decrypted under `key`. Every failure gives `None`; a
/// record written for a link under the same key gives that link back.
pub fn load_decrypted_url_from_config(record: Option<ConfigRecord>, key: &str) -> (r: Option<
    String,
>)
    ensures
        r.deep_view() == stored_link(record_view(record), key@),
        forall|p: Seq<char>|
            record is Some && #[trigger] ciphertext_of(key@, p) == record->0.encrypted_url@
                ==> r.deep_view() == Some(p),
{
    match record {
        Some(c) => decrypt_from_base64(key, c.encrypted_url.as_str()),
        None => None,
    }
}

} // verus!
