//! The symmetric key: loaded from the key file, or created when there is none.
use vstd::prelude::*;
use crate::random::{is_alphanumeric, random_alphanumeric};

verus! {

pub const KEY_LEN: usize = 32;

/// A key as this store creates it: thirty-two characters of `A-Z`, `a-z`,
/// `0-9`.
pub open spec fn is_valid_key(k: Seq<char>) -> bool {
    &&& k.len() == KEY_LEN
    &&& forall|i: int| 0 <= i < k.len() ==> is_alphanumeric(#[trigger] k[i])
}

/// The keys that a load may return, given what the key file holds (`None`
/// when there is no key file).
pub open spec fn key_outcome(stored: Option<Seq<char>>, key: Seq<char>) -> bool {
    match stored {
        Some(k) => key == k,
        None => is_valid_key(key),
    }
}

/// The key file after a load that returned `key`: a new key is written only
/// where there was none.
pub open spec fn key_file_after(stored: Option<Seq<char>>, key: Seq<char>) -> Option<Seq<char>> {
    match stored {
        Some(k) => Some(k),
        None => Some(key),
    }
}

/// The key to use, and whether it is new and must be written to the key file.
pub struct LoadedKey {
    pub key: String,
    pub created: bool,
}

/// A new random key.
pub fn generate_new_encryption_key() -> (r: String)
    ensures
        is_valid_key(r@),
{
    random_alphanumeric(KEY_LEN)
}

/// The key held in the key file, or a new one when `stored` is `None` (no
/// key file).
pub fn load_or_generate_encryption_key(stored: Option<String>) -> (r: LoadedKey)
    ensures
        key_outcome(stored.deep_view(), r.key@),
        r.created == stored is None,
{
    match stored {
        Some(key) => LoadedKey { key, created: false },
        None => LoadedKey { key: generate_new_encryption_key(), created: true },
    }
}

/// Two loads in a row from the same key file, with the file written as the
/// first load asks, return the same key.
pub proof fn lemma_key_persists(stored: Option<Seq<char>>, first: Seq<char>, second: Seq<char>)
    requires
        key_outcome(stored, first),
        key_outcome(key_file_after(stored, first), second),
    ensures
        second == first,
{
}

} // verus!
