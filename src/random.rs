//! Calls into the random source. Every result here is a fresh draw, so the
//! contracts state only what holds of every outcome.
use rand::seq::SliceRandom;
use rand::Rng;
use vstd::prelude::*;
use crate::policy::{is_digit, is_lower, is_upper};

verus! {

pub open spec fn is_alphanumeric(c: char) -> bool {
    is_upper(c) || is_lower(c) || is_digit(c)
}

/// Relies on rand's `Alphanumeric` distribution, sampled from `thread_rng`:
/// `len` draws, each one of `A-Z`, `a-z`, `0-9`.
#[verifier::external_body]
pub(crate) fn random_alphanumeric(len: usize) -> (r: String)
    ensures
        r@.len() == len,
        forall|i: int| 0 <= i < len ==> is_alphanumeric(#[trigger] r@[i]),
{
    rand::thread_rng().sample_iter(&rand::distributions::Alphanumeric).take(len).map(
        char::from,
    ).collect()
}

/// Relies on rand's `SliceRandom::choose` with `thread_rng`: on a non-empty
/// slice it returns one of the slice's elements.
#[verifier::external_body]
pub(crate) fn choose_byte(set: &[u8]) -> (r: u8)
    requires
        set@.len() > 0,
    ensures
        set@.contains(r),
{
    *set.choose(&mut rand::thread_rng()).unwrap()
}

/// Relies on rand's `SliceRandom::shuffle` with `thread_rng`: it only swaps
/// elements, so the result is a permutation of the input.
#[verifier::external_body]
pub(crate) fn shuffle_bytes(v: &mut Vec<u8>)
    ensures
        final(v)@.to_multiset() == old(v)@.to_multiset(),
{
    v.shuffle(&mut rand::thread_rng());
}

} // verus!
