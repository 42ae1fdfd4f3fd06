//! Generation of push identifiers, policy-compliant passwords and session
//! links.
use vstd::prelude::*;
use crate::policy::{
    has_digit, has_lower, has_special, has_upper, is_digit, is_lower, is_special, is_upper,
    meets_policy, byte_len, validation_of,
};
use crate::random::{choose_byte, is_alphanumeric, random_alphanumeric, shuffle_bytes};

verus! {

pub const PUSH_ID_LEN: usize = 8;

pub const PASSWORD_LEN: usize = 16;

/// A character that a generated password may hold.
pub open spec fn in_password_alphabet(c: char) -> bool {
    is_upper(c) || is_lower(c) || is_digit(c) || is_special(c)
}

pub open spec fn is_push_id(s: Seq<char>) -> bool {
    &&& s.len() == PUSH_ID_LEN
    &&& forall|i: int| 0 <= i < s.len() ==> is_alphanumeric(#[trigger] s[i])
}

/// What the generator guarantees of a password: its length, its alphabet,
/// and the policy.
pub open spec fn is_generated_password(s: Seq<char>) -> bool {
    &&& s.len() == PASSWORD_LEN
    &&& forall|i: int| 0 <= i < s.len() ==> in_password_alphabet(#[trigger] s[i])
    &&& meets_policy(s)
}

pub open spec fn link_prefix() -> Seq<char> {
    "https://vdo.ninja/?push="@
}

pub open spec fn audience_tag() -> Seq<char> {
    "&audience="@
}

/// The session link for `push_id`, with an audience clause unless `audience`
/// is empty.
pub open spec fn link_url(push_id: Seq<char>, audience: Seq<char>) -> Seq<char> {
    if audience.len() == 0 {
        link_prefix() + push_id
    } else {
        link_prefix() + push_id + audience_tag() + audience
    }
}

/// A random push identifier: eight characters of `A-Z`, `a-z`, `0-9`.
pub fn random_push_id() -> (r: String)
    ensures
        is_push_id(r@),
{
    random_alphanumeric(PUSH_ID_LEN)
}

/// The bytes `lo ..= hi`, in order.
fn byte_range(lo: u8, hi: u8) -> (r: Vec<u8>)
    requires
        lo <= hi,
    ensures
        r@.len() == hi - lo + 1,
        forall|i: int| 0 <= i < r@.len() ==> #[trigger] r@[i] == lo + i,
{
    let mut v: Vec<u8> = Vec::new();
    let mut c: u8 = lo;
    while c < hi
        invariant
            lo <= c <= hi,
            v@.len() == c - lo,
            forall|i: int| 0 <= i < v@.len() ==> #[trigger] v@[i] == lo + i,
        decreases hi - c,
    {
        v.push(c);
        c = c + 1;
    }
    v.push(hi);
    v
}

pub open spec fn byte_in_alphabet(b: u8) -> bool {
    in_password_alphabet(b as char)
}

/// Relies on std's `String::from_utf8`: ASCII bytes are valid UTF-8 and
/// decode to one character each.
#[verifier::external_body]
fn ascii_to_string(bytes: Vec<u8>) -> (r: String)
    requires
        forall|i: int| 0 <= i < bytes@.len() ==> #[trigger] bytes@[i] < 128,
    ensures
        r@.len() == bytes@.len(),
        forall|i: int| 0 <= i < bytes@.len() ==> #[trigger] r@[i] == bytes@[i] as char,
{
    String::from_utf8(bytes).unwrap()
}

/// An element of a sequence is still present after a permutation.
proof fn lemma_permuted_contains(a: Seq<u8>, b: Seq<u8>, x: u8)
    requires
        a.to_multiset() == b.to_multiset(),
        a.contains(x),
    ensures
        b.contains(x),
{
    a.to_multiset_ensures();
    b.to_multiset_ensures();
    assert(a.to_multiset().count(x) > 0);
}

/// A random sixteen-character password that meets the policy: one character
/// of each class is drawn first, the rest from the union of the classes, and
/// the whole is shuffled.
pub fn random_password() -> (r: String)
    ensures
        is_generated_password(r@),
{
    broadcast use vstd::seq_lib::group_seq_properties;

    let upper = byte_range(65, 90);
    let lower = byte_range(97, 122);
    let digits = byte_range(48, 57);
    let special: Vec<u8> = vec![33u8, 64, 35, 36, 37, 94, 38, 42];
    assert(forall|i: int| 0 <= i < special@.len() ==> is_special(#[trigger] special@[i] as char));

    let mut bytes: Vec<u8> = Vec::new();
    bytes.push(choose_byte(upper.as_slice()));
    bytes.push(choose_byte(lower.as_slice()));
    bytes.push(choose_byte(digits.as_slice()));
    bytes.push(choose_byte(special.as_slice()));
    assert(is_upper(bytes@[0] as char));
    assert(is_lower(bytes@[1] as char));
    assert(is_digit(bytes@[2] as char));
    assert(is_special(bytes@[3] as char));

    let mut all: Vec<u8> = Vec::new();
    all.extend_from_slice(upper.as_slice());
    all.extend_from_slice(lower.as_slice());
    all.extend_from_slice(digits.as_slice());
    all.extend_from_slice(special.as_slice());
    assert(forall|i: int| 0 <= i < all@.len() ==> byte_in_alphabet(#[trigger] all@[i]));

    let mut k: usize = 4;
    while k < PASSWORD_LEN
        invariant
            4 <= k <= PASSWORD_LEN,
            bytes@.len() == k,
            all@.len() > 0,
            forall|i: int| 0 <= i < all@.len() ==> byte_in_alphabet(#[trigger] all@[i]),
            is_upper(bytes@[0] as char),
            is_lower(bytes@[1] as char),
            is_digit(bytes@[2] as char),
            is_special(bytes@[3] as char),
            forall|i: int| 0 <= i < bytes@.len() ==> byte_in_alphabet(#[trigger] bytes@[i]),
        decreases PASSWORD_LEN - k,
    {
        let b = choose_byte(all.as_slice());
        bytes.push(b);
        k = k + 1;
    }

    let ghost seeded = bytes@;
    shuffle_bytes(&mut bytes);
    proof {
        assert forall|i: int| 0 <= i < bytes@.len() implies byte_in_alphabet(#[trigger] bytes@[i]) by {
            assert(bytes@.contains(bytes@[i]));
            lemma_permuted_contains(bytes@, seeded, bytes@[i]);
            let j = choose|j: int| 0 <= j < seeded.len() && seeded[j] == bytes@[i];
            assert(byte_in_alphabet(seeded[j]));
        }
        assert(seeded.contains(seeded[0]));
        assert(seeded.contains(seeded[1]));
        assert(seeded.contains(seeded[2]));
        assert(seeded.contains(seeded[3]));
        lemma_permuted_contains(seeded, bytes@, seeded[0]);
        lemma_permuted_contains(seeded, bytes@, seeded[1]);
        lemma_permuted_contains(seeded, bytes@, seeded[2]);
        lemma_permuted_contains(seeded, bytes@, seeded[3]);
        seeded.to_multiset_ensures();
        bytes@.to_multiset_ensures();
        assert(bytes@.len() == PASSWORD_LEN);
    }
    let ghost shuffled = bytes@;
    let r = ascii_to_string(bytes);
    proof {
        let s = r@;
        assert(vstd::utf8::is_ascii_chars(s));
        vstd::utf8::is_ascii_chars_encode_utf8(s);
        assert(byte_len(s) == PASSWORD_LEN);
        let iu = choose|i: int| 0 <= i < shuffled.len() && shuffled[i] == seeded[0];
        assert(is_upper(s[iu]));
        let il = choose|i: int| 0 <= i < shuffled.len() && shuffled[i] == seeded[1];
        assert(is_lower(s[il]));
        let id = choose|i: int| 0 <= i < shuffled.len() && shuffled[i] == seeded[2];
        assert(is_digit(s[id]));
        let is = choose|i: int| 0 <= i < shuffled.len() && shuffled[i] == seeded[3];
        assert(is_special(s[is]));
        assert(has_upper(s));
        assert(has_lower(s));
        assert(has_digit(s));
        assert(has_special(s));
    }
    r
}

/// Every password the generator can produce passes validation.
pub proof fn lemma_generated_passwords_validate(p: Seq<char>)
    requires
        is_generated_password(p),
    ensures
        validation_of(p) == Ok::<(), crate::policy::PolicyViolation>(()),
{
}

/// The session link for `push_id`; the audience clause is added only when
/// `audience` is not empty.
pub fn compose_link_url(push_id: &str, audience: &str) -> (r: String)
    ensures
        r@ == link_url(push_id@, audience@),
{
    let mut url = String::from_str("https://vdo.ninja/?push=");
    url.append(push_id);
    if !audience.is_empty() {
        url.append("&audience=");
        url.append(audience);
    }
    url
}

/// A fresh session link with a random push identifier and a random audience
/// password.
pub fn generate_random_secure_url() -> (r: String)
    ensures
        exists|push_id: Seq<char>, password: Seq<char>|
            is_push_id(push_id) && is_generated_password(password) && r@ == link_url(
                push_id,
                password,
            ),
{
    let push_id = random_push_id();
    let password = random_password();
    let url = compose_link_url(push_id.as_str(), password.as_str());
    assert(is_push_id(push_id@) && is_generated_password(password@));
    url
}

} // verus!
