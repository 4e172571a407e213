//! Trusted boundary to the `rand` crate.
//!
//! The generator itself is opaque: the wrappers state only what holds of
//! every outcome, so everything built on a drawn value is verified for
//! every value the range admits.

use vstd::prelude::*;
use rand::Rng;

verus! {

#[verifier::external_type_specification]
#[verifier::external_body]
pub struct ExThreadRng(rand::rngs::ThreadRng);

/// Relies on rand::thread_rng: a handle to the thread-local generator.
#[verifier::external_body]
pub(crate) fn fresh_rng() -> (rng: rand::rngs::ThreadRng) {
    rand::thread_rng()
}

/// Relies on rand::Rng::gen_range on an inclusive i32 range: it panics only
/// when the range is empty and returns a value inside the range. Nothing is
/// assumed about which value comes back.
#[verifier::external_body]
pub(crate) fn rng_range(rng: &mut rand::rngs::ThreadRng, lo: i32, hi: i32) -> (r: i32)
    requires
        lo <= hi,
    ensures
        lo <= r <= hi,
{
    rng.gen_range(lo..=hi)
}

/// Relies on rand::Rng::gen_ratio: it returns true with probability
/// num/den, and panics only when den is 0 or num exceeds den. Nothing is
/// assumed about any single outcome.
#[verifier::external_body]
pub(crate) fn rng_ratio(rng: &mut rand::rngs::ThreadRng, num: u32, den: u32) -> (r: bool)
    requires
        1 <= den,
        num <= den,
{
    rng.gen_ratio(num, den)
}

} // verus!
