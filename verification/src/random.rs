//! Random numbers from the thread's generator of the `rand` crate.

use rand::Rng;
use vstd::prelude::*;

verus! {

#[verifier::external_type_specification]
#[verifier::external_body]
pub struct ExThreadRng(rand::rngs::ThreadRng);

/// Calls `rand::thread_rng` for a handle to the thread's generator.
#[verifier::external_body]
pub(crate) fn thread_rng() -> (rng: rand::rngs::ThreadRng) {
    rand::thread_rng()
}

/// Calls `Rng::gen_range` with the range `low..=high`.
///
/// Trusted: the number lies in that range. The call panics on an empty
/// range, which `requires` leaves out.
#[verifier::external_body]
pub(crate) fn rng_in_range(rng: &mut rand::rngs::ThreadRng, low: u32, high: u32) -> (n: u32)
    requires
        low <= high,
    ensures
        low <= n <= high,
{
    rng.gen_range(low..=high)
}

/// Calls `Rng::gen` for one byte. Nothing is claimed of the byte.
#[verifier::external_body]
pub(crate) fn rng_byte(rng: &mut rand::rngs::ThreadRng) -> (b: u8) {
    rng.gen::<u8>()
}

/// `len` bytes, each drawn afresh from the thread's generator.
pub fn random_bytes(len: usize) -> (bytes: Vec<u8>)
    ensures
        bytes@.len() == len,
{
    let mut rng = thread_rng();
    let mut bytes: Vec<u8> = Vec::new();
    let mut i: usize = 0;
    while i < len
        invariant
            i <= len,
            bytes@.len() == i,
        decreases len - i,
    {
        let b: u8 = rng_byte(&mut rng);
        bytes.push(b);
        i = i + 1;
    }
    bytes
}

} // verus!
