//! Session-token minting: 32 bytes from a cryptographically secure random
//! source, text-encoded with base64.

use vstd::prelude::*;

verus! {

/// What base64 encoding (standard alphabet, padded) of a byte sequence
/// yields; the encoding is a function of the bytes alone.
pub uninterp spec fn base64_of(bytes: Seq<u8>) -> Seq<char>;

#[verifier::external_type_specification]
#[verifier::external_body]
pub struct ExChaCha12Rng(rand_chacha::ChaCha12Rng);

/// Relies on rand_core's SeedableRng::from_entropy for
/// rand_chacha::ChaCha12Rng: a ChaCha stream cipher seeded from the
/// operating system's randomness. Nothing is promised of the state; the
/// call aborts the process if the randomness source is unavailable.
#[verifier::external_body]
fn rng_from_entropy() -> rand_chacha::ChaCha12Rng {
    <rand_chacha::ChaCha12Rng as rand_chacha::rand_core::SeedableRng>::from_entropy()
}

/// Relies on rand_core's RngCore::fill_bytes for ChaCha12Rng: it fills the
/// buffer completely and cannot fail; nothing can be promised of the values
/// drawn.
#[verifier::external_body]
fn rng_bytes_32(rng: &mut rand_chacha::ChaCha12Rng) -> (r: Vec<u8>)
    ensures
        r@.len() == 32,
{
    let mut buf: [u8; 32] = [0; 32];
    rand_chacha::rand_core::RngCore::fill_bytes(rng, &mut buf);
    buf.to_vec()
}

/// Relies on base64::encode (standard alphabet, padded): the encoding is a
/// function of the input bytes, four output characters for every three input
/// bytes, rounded up to a whole four-character block.
#[verifier::external_body]
fn base64_encode(bytes: &Vec<u8>) -> (r: String)
    requires
        4 * ((bytes@.len() + 2) / 3) <= usize::MAX,
    ensures
        r@ == base64_of(bytes@),
        r@.len() == 4 * ((bytes@.len() + 2) / 3),
{
    base64::encode(bytes.as_slice())
}

/// Mints a fresh opaque session token: 32 random bytes, text-encoded (44
/// characters). Tokens are unique with overwhelming probability; a collision
/// is not handled, the session store lets the last writer win.
pub fn create_session_token() -> (r: String)
    ensures
        r@.len() == 44,
{
    let mut rng = rng_from_entropy();
    let bytes = rng_bytes_32(&mut rng);
    base64_encode(&bytes)
}

} // verus!
