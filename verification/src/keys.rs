//! Key pairs, and the symmetric keys that seal records.

use vstd::prelude::*;
use vstd::bytes::u64_to_le_bytes;
use vstd::utf8::encode_utf8;
use crate::bytes::{array_16, array_32, extend, same};
use crate::hash::{sha256, sha256_digest};
use crate::point::{CompressedPoint, Point};
use crate::scalar::{rnd_scalar, Scalar};
use crate::secret::SecretBytes;
use crate::signatures::text_image;

verus! {

/// A secret scalar and the point that is its multiple of the basepoint.
pub struct KeyPair {
    pub s: Scalar,
    pub key: Point,
}

impl KeyPair {
    /// The public key is the secret's multiple of the basepoint.
    pub open spec fn wf(&self) -> bool {
        self.key.is_multiple(self.s@)
    }

    /// A fresh key pair, with a secret drawn at random.
    pub fn new() -> (r: KeyPair)
        ensures
            r.wf(),
    {
        KeyPair::from_secret(rnd_scalar())
    }

    /// The key pair of a secret.
    pub fn from_secret(s: Scalar) -> (r: KeyPair)
        ensures
            r.s == s,
            r.wf(),
    {
        let key = Point::mul_base(&s);
        KeyPair { s, key }
    }
}

/// What a symmetric key is derived from: the shared point's encoding, then the
/// subject and the data set, each after its length.
pub open spec fn lambda_preimage(alpha: Seq<u8>, id: Seq<char>, set: Seq<char>) -> Seq<u8> {
    alpha + text_image(encode_utf8(id)) + text_image(encode_utf8(set))
}

/// The symmetric key of a shared point, a subject and a data set.
pub open spec fn lambda_bytes(alpha: Seq<u8>, id: Seq<char>, set: Seq<char>) -> Seq<u8> {
    sha256_digest(lambda_preimage(alpha, id, set))
}

/// A symmetric key of 32 bytes, which seals one record. The bytes are
/// overwritten with zero when the key is dropped.
pub struct LambdaKey {
    key: SecretBytes,
}

impl View for LambdaKey {
    type V = Seq<u8>;

    closed spec fn view(&self) -> Seq<u8> {
        self.key@
    }
}

impl Clone for LambdaKey {
    fn clone(&self) -> (r: Self)
        ensures
            r == *self,
    {
        LambdaKey { key: self.key.clone() }
    }
}

impl PartialEq for LambdaKey {
    fn eq(&self, other: &LambdaKey) -> (r: bool) {
        same(self.key.get().as_slice(), other.key.get().as_slice())
    }
}

impl vstd::std_specs::cmp::PartialEqSpecImpl for LambdaKey {
    open spec fn obeys_eq_spec() -> bool {
        true
    }

    open spec fn eq_spec(&self, other: &LambdaKey) -> bool {
        self@ == other@
    }
}

impl Eq for LambdaKey {}

impl LambdaKey {
    /// A key has 32 bytes.
    pub proof fn lemma_len(&self)
        ensures
            self@.len() == 32,
    {
        self.key.lemma_len();
    }

    /// The key of a shared point, a subject and a data set.
    pub fn new(alpha: &CompressedPoint, id: &str, set: &str) -> (r: LambdaKey)
        ensures
            r@ == lambda_bytes(alpha@, id@, set@),
    {
        let mut preimage: Vec<u8> = Vec::new();
        extend(&mut preimage, alpha.to_bytes().as_slice());
        let id_bytes = id.as_bytes();
        extend(&mut preimage, u64_to_le_bytes(id_bytes.len() as u64).as_slice());
        extend(&mut preimage, id_bytes);
        let set_bytes = set.as_bytes();
        extend(&mut preimage, u64_to_le_bytes(set_bytes.len() as u64).as_slice());
        extend(&mut preimage, set_bytes);
        assert(preimage@ =~= lambda_preimage(alpha@, id@, set@));
        let digest = sha256(preimage.as_slice());
        let bytes = array_32(digest.as_slice(), 0);
        assert(bytes@ =~= digest@);
        LambdaKey { key: SecretBytes::new(bytes) }
    }

    /// The key that 32 bytes are.
    pub fn from_bytes(bytes: [u8; 32]) -> (r: LambdaKey)
        ensures
            r@ == bytes@,
    {
        LambdaKey { key: SecretBytes::new(bytes) }
    }

    /// The first 16 bytes, a key for AES-128.
    pub fn k128(&self) -> (r: [u8; 16])
        ensures
            r@ == self@.subrange(0, 16),
    {
        array_16(self.key.get().as_slice(), 0)
    }

    /// The first 24 bytes, a key for AES-192.
    pub fn k192(&self) -> (r: [u8; 24])
        ensures
            r@ == self@.subrange(0, 24),
    {
        let all = self.key.get();
        let mut out = [0u8; 24];
        let mut i: usize = 0;
        while i < 24
            invariant
                i <= 24,
                forall|j: int| 0 <= j < i ==> out@[j] == all@[j],
            decreases 24 - i,
        {
            out[i] = all[i];
            i += 1;
        }
        assert(out@ =~= self@.subrange(0, 24));
        out
    }

    /// All 32 bytes, a key for AES-256.
    pub fn k256(&self) -> (r: [u8; 32])
        ensures
            r@ == self@,
    {
        self.key.get()
    }
}

} // verus!
