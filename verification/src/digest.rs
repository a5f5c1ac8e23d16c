//! SHA-256.

use sha2::{Digest, Sha256};
use vstd::prelude::*;

verus! {

/// A message of this many bytes or more has a bit length that overflows the 64-bit counter.
pub const DIGEST_LIMIT: u64 = 0x2000_0000_0000_0000;

/// The SHA-256 digest of a message.
pub uninterp spec fn sha256_of(message: Seq<u8>) -> Seq<u8>;

/// Calls `sha2::Sha256::digest`. Trusted: the result depends on the bytes of the message alone,
/// and is what `sha256_of` names. Nothing is claimed of its value.
#[verifier::external_body]
pub(crate) fn sha256(message: &[u8]) -> (r: [u8; 32])
    requires
        message@.len() < DIGEST_LIMIT,
    ensures
        r@ == sha256_of(message@),
{
    Sha256::digest(message).into()
}

} // verus!
