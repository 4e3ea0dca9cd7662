//! SHA-256, the hash of keys and records.

use vstd::prelude::*;
use sha2::{Digest, Sha256};

verus! {

/// What SHA-256 returns for a message: 32 bytes.
pub uninterp spec fn sha256_digest(message: Seq<u8>) -> Seq<u8>;

/// `Sha256::digest`: the 32-byte digest of the message.
#[verifier::external_body]
pub(crate) fn sha256(message: &[u8]) -> (r: Vec<u8>)
    ensures
        r@ == sha256_digest(message@),
        r@.len() == 32,
{
    Sha256::digest(message).to_vec()
}

} // verus!
