//! Trusted boundary to the challenge hasher: a 256-bit cryptographic digest
//! that compresses an arbitrary message into a fixed-size challenge.
use crate::model::digest_of;
use vstd::prelude::*;

verus! {

/// Relies on `blake2::Blake2b` with a 32-byte output: the digest is a
/// function of the message's bytes alone and is always 32 bytes long.
#[verifier::external_body]
pub(crate) fn digest_message(msg: &str) -> (r: Vec<u8>)
    ensures
        r@ == digest_of(msg@),
        r@.len() == 32,
{
    let d = <blake2::Blake2b<blake2::digest::consts::U32> as blake2::Digest>::digest(msg.as_bytes());
    d.to_vec()
}

} // verus!
