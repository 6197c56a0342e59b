use vstd::prelude::*;
use rand::Rng;

verus! {

/// rand's thread-local generator, carried by the machine as an opaque value.
#[verifier::external_type_specification]
#[verifier::external_body]
pub struct ExThreadRng(rand::rngs::ThreadRng);

/// Relies on rand::thread_rng: a handle on the thread's generator. Nothing
/// is known of its state.
#[verifier::external_body]
pub(crate) fn fresh_rng() -> (r: rand::rngs::ThreadRng) {
    rand::thread_rng()
}

/// Relies on rand::Rng::gen_range over the non-empty range `0..=255`: it
/// returns some byte and does not panic. Which byte is left open.
#[verifier::external_body]
pub(crate) fn random_byte(rng: &mut rand::rngs::ThreadRng) -> (r: u8) {
    rng.gen_range(0..=255)
}

} // verus!
