//! Random sources, taken on trust from the `rand` crate.
//!
//! The password generator draws from a thread-local generator handed in as an
//! explicit handle; key and nonce material comes from the operating system's
//! entropy source.  Nothing is promised of the drawn values beyond what the
//! crate documents: a choice lands in the slice, a shuffle permutes, a
//! requested length is filled.

use rand::seq::SliceRandom;
use rand::RngCore;
use vstd::prelude::*;

verus! {

/// The thread-local generator of the `rand` crate, opaque to the verifier.
#[verifier::external_type_specification]
#[verifier::external_body]
pub struct ExThreadRng(rand::rngs::ThreadRng);

/// Relies on `rand::thread_rng` to hand out the thread-local generator.
#[verifier::external_body]
pub(crate) fn rng_new() -> rand::rngs::ThreadRng {
    rand::thread_rng()
}

/// Relies on `rand::seq::SliceRandom::choose`: on a non-empty slice it
/// returns `Some` of one of the slice's elements.
#[verifier::external_body]
pub(crate) fn choose_byte(pool: &[u8], rng: &mut rand::rngs::ThreadRng) -> (r: u8)
    requires
        pool@.len() > 0,
    ensures
        pool@.contains(r),
{
    *pool.choose(rng).unwrap()
}

/// Relies on `rand::seq::SliceRandom::shuffle`: the elements are permuted in
/// place, so the multiset of elements and the length are unchanged.
#[verifier::external_body]
pub(crate) fn shuffle_bytes(v: &mut Vec<u8>, rng: &mut rand::rngs::ThreadRng)
    ensures
        final(v)@.len() == old(v)@.len(),
        final(v)@.to_multiset() == old(v)@.to_multiset(),
{
    v.shuffle(rng)
}

/// Relies on `rand::RngCore::fill_bytes` on `rand::rngs::OsRng`: the buffer
/// is filled from the operating system's entropy source.  Nothing holds of
/// the bytes themselves.
#[verifier::external_body]
pub(crate) fn os_random_bytes(n: usize) -> (r: Vec<u8>)
    ensures
        r@.len() == n,
{
    let mut buf = vec![0u8; n];
    rand::rngs::OsRng.fill_bytes(&mut buf);
    buf
}

} // verus!
