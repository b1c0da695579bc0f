//! The one source of randomness: identifiers and salts are drawn here.

use rand::RngCore;
use vstd::prelude::*;

verus! {

#[verifier::external_type_specification]
#[verifier::external_body]
pub struct ExRandError(rand::Error);

/// `RngCore::try_fill_bytes` on `rand::rngs::OsRng`, for a block of 32
/// bytes: the bytes come from the operating system's generator, and the call
/// fails where that generator is not to be had. Nothing is claimed of the
/// outcome; two calls may return anything, the same block included.
#[verifier::external_body]
fn os_random_block() -> (r: Result<[u8; 32], rand::Error>) {
    let mut block = [0u8; 32];
    rand::rngs::OsRng.try_fill_bytes(&mut block).map(|_| block)
}

/// Draws a block of random bytes; `None` where the system has none to give.
pub(crate) fn random_block() -> (r: Option<[u8; 32]>) {
    drawn_block(os_random_block())
}

/// What a draw returns, given what the generator answered: the block it
/// filled, or `None` where it failed.
pub(crate) fn drawn_block(outcome: Result<[u8; 32], rand::Error>) -> (r: Option<[u8; 32]>)
    ensures
        match outcome {
            Ok(block) => r == Some(block),
            Err(_) => r is None,
        },
{
    match outcome {
        Ok(block) => Some(block),
        Err(_) => None,
    }
}

} // verus!
