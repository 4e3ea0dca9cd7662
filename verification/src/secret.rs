//! Secret bytes, which are overwritten with zero when they are dropped.

use vstd::prelude::*;
use clear_on_drop::clear::Clear;
use crate::field::le_nat;

verus! {

/// 32 secret bytes. They are overwritten with zero when the value is dropped.
pub struct SecretBytes {
    pub(crate) bytes: [u8; 32],
}

impl View for SecretBytes {
    type V = Seq<u8>;

    closed spec fn view(&self) -> Seq<u8> {
        self.bytes@
    }
}

/// `Clear::clear` on a byte array: every byte is overwritten with zero.
#[verifier::external_body]
fn wipe(bytes: &mut [u8; 32])
    ensures
        forall|k: int| 0 <= k < 32 ==> final(bytes)@[k] == 0u8,
    opens_invariants none
    no_unwind
{
    bytes.clear();
}

/// Bytes that are all zero denote zero.
pub proof fn lemma_zero_bytes(bytes: Seq<u8>)
    requires
        forall|k: int| 0 <= k < bytes.len() ==> bytes[k] == 0u8,
    ensures
        le_nat(bytes) == 0,
    decreases bytes.len(),
{
    if bytes.len() > 0 {
        lemma_zero_bytes(bytes.drop_first());
    }
}

impl Drop for SecretBytes {
    fn drop(&mut self)
        opens_invariants none
        no_unwind
    {
        wipe(&mut self.bytes);
    }
}

impl Clone for SecretBytes {
    fn clone(&self) -> (r: Self)
        ensures
            r == *self,
    {
        SecretBytes { bytes: self.bytes }
    }
}

impl SecretBytes {
    /// The given bytes, kept secret.
    pub fn new(bytes: [u8; 32]) -> (r: SecretBytes)
        ensures
            r@ == bytes@,
    {
        SecretBytes { bytes }
    }

    /// There are 32 bytes.
    pub proof fn lemma_len(&self)
        ensures
            self@.len() == 32,
    {
    }

    /// A copy of the bytes.
    pub fn get(&self) -> (r: [u8; 32])
        ensures
            r@ == self@,
    {
        self.bytes
    }

    /// Overwrites the bytes with zero.
    pub fn clear(&mut self)
        ensures
            forall|k: int| 0 <= k < 32 ==> final(self)@[k] == 0u8,
            le_nat(final(self)@) == 0,
        no_unwind
    {
        wipe(&mut self.bytes);
        proof {
            lemma_zero_bytes(self.bytes@);
        }
    }
}

} // verus!
