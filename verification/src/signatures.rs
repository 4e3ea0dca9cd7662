//! Schnorr signatures over the Ristretto group, with a nonce derived from the
//! secret and the message, and their fixed-width serialized form.

use vstd::prelude::*;
use vstd::bytes::{spec_u64_to_le_bytes, u64_from_le_bytes, u64_to_le_bytes};
use vstd::slice::slice_subrange;
use vstd::utf8::encode_utf8;
use vstd::arithmetic::div_mod::{lemma_mod_bound, lemma_small_mod};
use crate::bytes::{array_32, extend, same};
use crate::encoding::{base64_data, base64_decode, base64_encode, base64_text};
use crate::error::{error, Error, ErrorKind};
use crate::field::{
    fadd, fmul, fsub, group_order, le_nat, lemma_fadd_fsub, lemma_fadd_reduce,
};
use crate::point::{basepoint_multiple, is_encoding, CompressedPoint, Point};
use crate::scalar::{hash_scalar, sha512_digest, Scalar};

verus! {

/// The parts of a message, one after the other.
pub open spec fn join(parts: Seq<Seq<u8>>) -> Seq<u8>
    decreases parts.len(),
{
    if parts.len() == 0 {
        Seq::<u8>::empty()
    } else {
        join(parts.drop_last()) + parts.last()
    }
}

/// The byte strings that the vectors hold.
pub open spec fn views(data: Seq<Vec<u8>>) -> Seq<Seq<u8>> {
    Seq::new(data.len(), |k: int| data[k]@)
}

/// The message that the parts make up.
pub open spec fn message(data: Seq<Vec<u8>>) -> Seq<u8> {
    join(views(data))
}

/// The nonce of a signature: the hash of the secret's encoding and the message.
pub open spec fn nonce(secret: Seq<u8>, m: Seq<u8>) -> nat {
    hash_scalar(secret + m)
}

/// The challenge of a signature: the hash of the key, the commitment and the
/// message.
pub open spec fn challenge(key: Seq<u8>, commitment: Seq<u8>, m: Seq<u8>) -> nat {
    hash_scalar(key + commitment + m)
}

/// The challenge that signing `m` with the secret `s` under the key's
/// encoding `key` yields.
pub open spec fn signed_challenge(s: Scalar, key: Seq<u8>, m: Seq<u8>) -> nat {
    challenge(key, basepoint_multiple(nonce(s.encoding(), m)), m)
}

/// The response that goes with it: the nonce less challenge times secret.
pub open spec fn signed_response(s: Scalar, key: Seq<u8>, m: Seq<u8>) -> nat {
    fsub(nonce(s.encoding(), m), fmul(signed_challenge(s, key, m), s@))
}

/// Whether `(c, p)` is accepted as a signature of `m` under the key `k * B`
/// with the encoding `key`: the challenge recomputed from the commitment
/// `c * K + p * B` is `c`.
pub open spec fn accepts(key: Seq<u8>, k: nat, m: Seq<u8>, c: nat, p: nat) -> bool {
    c == challenge(key, basepoint_multiple(fadd(fmul(c, k), p)), m)
}

/// A signature made with a secret is accepted under the public key of that
/// secret: for every secret `s` and message `m`, verifying `sign(s, s * B, m)`
/// against `m` under `s * B` succeeds.
pub proof fn lemma_signature_correct(s: Scalar, key: Seq<u8>, m: Seq<u8>)
    ensures
        accepts(key, s@, m, signed_challenge(s, key, m), signed_response(s, key, m)),
{
    let k = nonce(s.encoding(), m);
    let c = signed_challenge(s, key, m);
    lemma_mod_bound(le_nat(sha512_digest(s.encoding() + m)) as int, group_order() as int);
    lemma_fadd_fsub(k, fmul(c, s@));
    lemma_small_mod(k, group_order());
}

/// A signature of one message is accepted for another only where both give
/// the same challenge: for every secret `s` and messages `m`, `m2`, verifying
/// `sign(s, s * B, m)` against `m2` succeeds exactly when `m2` is hashed, with
/// the key and the commitment, to the challenge that `m` is hashed to.
pub proof fn lemma_signature_sound(s: Scalar, key: Seq<u8>, m: Seq<u8>, m2: Seq<u8>)
    ensures
        accepts(key, s@, m2, signed_challenge(s, key, m), signed_response(s, key, m))
            <==> challenge(key, basepoint_multiple(nonce(s.encoding(), m)), m2)
            == signed_challenge(s, key, m),
{
    let k = nonce(s.encoding(), m);
    let c = signed_challenge(s, key, m);
    lemma_mod_bound(le_nat(sha512_digest(s.encoding() + m)) as int, group_order() as int);
    lemma_fadd_fsub(k, fmul(c, s@));
    lemma_small_mod(k, group_order());
}

/// The serialized form of a text: its length in 8 little-endian bytes, then
/// its bytes.
pub open spec fn text_image(text: Seq<u8>) -> Seq<u8> {
    spec_u64_to_le_bytes(text.len() as u64) + text
}

/// A Schnorr signature `(c, p)`, with its base64 text.
pub struct Signature {
    pub encoded: String,
    pub c: Scalar,
    pub p: Scalar,
}

/// All of the message's parts in one vector, after a prefix.
fn gather(prefix: Vec<u8>, data: &[Vec<u8>]) -> (out: Vec<u8>)
    ensures
        out@ == prefix@ + message(data@),
{
    let mut out = prefix;
    let ghost parts = views(data@);
    let mut k: usize = 0;
    while k < data.len()
        invariant
            k <= data@.len(),
            parts == views(data@),
            out@ == prefix@ + join(parts.subrange(0, k as int)),
        decreases data@.len() - k,
    {
        extend(&mut out, data[k].as_slice());
        k += 1;
        proof {
            let now = parts.subrange(0, k as int);
            assert(now.drop_last() =~= parts.subrange(0, k - 1));
            assert(now.last() == data@[k - 1]@);
            assert(out@ =~= prefix@ + join(now));
        }
    }
    assert(parts.subrange(0, k as int) =~= parts);
    out
}

impl Clone for Signature {
    fn clone(&self) -> (r: Self)
        ensures
            r.encoded@ == self.encoded@,
            r.c == self.c,
            r.p == self.p,
    {
        Signature { encoded: self.encoded.clone(), c: self.c.clone(), p: self.p.clone() }
    }
}

impl Signature {
    /// The text is the base64 text of `c || p`: 88 characters, which decode to
    /// `c || p` again.
    pub open spec fn wf(&self) -> bool {
        &&& self.encoded@ == base64_text(self.c.encoding() + self.p.encoding())
        &&& encode_utf8(self.encoded@).len() == 88
        &&& base64_data(encode_utf8(self.encoded@)) == Some(
            self.c.encoding() + self.p.encoding(),
        )
    }

    /// Signs the message that the parts of `data` make up, with the secret `s`
    /// and under the key `key`.
    pub fn sign(s: &Scalar, key: &Point, data: &[Vec<u8>]) -> (sig: Signature)
        ensures
            sig.c@ == signed_challenge(*s, key@, message(data@)),
            sig.p@ == signed_response(*s, key@, message(data@)),
            sig.wf(),
    {
        let ghost m = message(data@);
        let mut first: Vec<u8> = Vec::new();
        extend(&mut first, s.to_bytes().as_slice());
        let first = gather(first, data);
        assert(first@ =~= s.encoding() + m);
        let k = Scalar::hash_from_bytes(first.as_slice());
        let commitment = Point::mul_base(&k).compress();
        proof {
            use_type_invariant(&k);
            lemma_small_mod(k@, group_order());
        }

        let mut second: Vec<u8> = Vec::new();
        extend(&mut second, key.compress().to_bytes().as_slice());
        extend(&mut second, commitment.to_bytes().as_slice());
        let second = gather(second, data);
        assert(second@ =~= key@ + commitment@ + m);
        let c = Scalar::hash_from_bytes(second.as_slice());
        let p = k.sub(&c.mul(s));

        let mut both: Vec<u8> = Vec::new();
        extend(&mut both, c.to_bytes().as_slice());
        extend(&mut both, p.to_bytes().as_slice());
        assert(both@ =~= c.encoding() + p.encoding());
        let encoded = base64_encode(both.as_slice());
        proof {
            vstd::utf8::is_ascii_chars_encode_utf8(encoded@);
        }
        Signature { encoded, c, p }
    }

    /// Whether the signature is one of the message under the key: where the key
    /// is `k * B`, whether `(c, p)` is accepted under it.
    pub fn verify(&self, key: &Point, data: &[Vec<u8>]) -> (ok: bool)
        ensures
            forall|k: nat| #[trigger]
                key.is_multiple(k) ==> ok == accepts(
                    key@,
                    k,
                    message(data@),
                    self.c@,
                    self.p@,
                ),
    {
        let ghost m = message(data@);
        let left = key.mul(&self.c);
        let right = Point::mul_base(&self.p);
        let commitment = left.add(&right).compress();

        let mut second: Vec<u8> = Vec::new();
        extend(&mut second, key.compress().to_bytes().as_slice());
        extend(&mut second, commitment.to_bytes().as_slice());
        let second = gather(second, data);
        assert(second@ =~= key@ + commitment@ + m);
        let c = Scalar::hash_from_bytes(second.as_slice());
        let ok = c == self.c;
        proof {
            assert forall|k: nat| #[trigger] key.is_multiple(k) implies ok == accepts(
                key@,
                k,
                m,
                self.c@,
                self.p@,
            ) by {
                assert(left.is_multiple(self.c@ * k));
                assert(right.is_multiple(self.p@));
                assert(commitment@ == basepoint_multiple((self.c@ * k + self.p@) % group_order()));
                lemma_fadd_reduce(self.c@ * k, self.p@);
            }
        }
        ok
    }

    /// The serialized form: the length of the text in 8 little-endian bytes,
    /// then the text.
    pub fn serialize(&self) -> (out: Vec<u8>)
        ensures
            out@ == text_image(encode_utf8(self.encoded@)),
    {
        let text = self.encoded.as_str().as_bytes();
        let mut out = u64_to_le_bytes(text.len() as u64);
        extend(&mut out, text);
        out
    }

    /// Whether the bytes are the serialized form of a signature: a length, and
    /// as many bytes of text, which are the base64 text of two canonical
    /// scalars.
    pub open spec fn is_image(bytes: Seq<u8>) -> bool {
        let text = bytes.subrange(8, bytes.len() as int);
        &&& bytes.len() >= 8
        &&& text_image(text) == bytes
        &&& base64_data(text) matches Some(data)
        &&& data.len() == 64
        &&& le_nat(data.subrange(0, 32)) < group_order()
        &&& le_nat(data.subrange(32, 64)) < group_order()
        &&& encode_utf8(base64_text(data)) == text
    }

    /// The signature that serialized bytes hold.
    pub fn deserialize(bytes: &[u8]) -> (r: Result<Signature, Error>)
        ensures
            r is Ok <==> Self::is_image(bytes@),
            r matches Ok(sig) ==> sig.wf() && text_image(encode_utf8(sig.encoded@)) == bytes@
                && base64_data(bytes@.subrange(8, bytes@.len() as int)) == Some(
                sig.c.encoding() + sig.p.encoding(),
            ),
            r matches Err(e) ==> e.kind == ErrorKind::Decode,
    {
        if bytes.len() < 8 {
            return Err(error(ErrorKind::Decode, "Incorrect signature length!"));
        }
        let length = u64_from_le_bytes(slice_subrange(bytes, 0, 8));
        let text = slice_subrange(bytes, 8, bytes.len());
        proof {
            vstd::bytes::lemma_auto_spec_u64_to_from_le_bytes();
            assert(bytes@ =~= bytes@.subrange(0, 8) + text@);
            if text_image(text@) == bytes@ {
                assert(spec_u64_to_le_bytes(text@.len() as u64) =~= bytes@.subrange(0, 8));
            }
        }
        if length != (text.len() as u64) {
            return Err(error(ErrorKind::Decode, "Incorrect signature length!"));
        }
        assert(text_image(text@) =~= bytes@);
        let data = match base64_decode(text) {
            Ok(data) => data,
            Err(_) => {
                return Err(error(ErrorKind::Decode, "Invalid base64 signature string!"));
            },
        };
        if data.len() != 64 {
            return Err(error(ErrorKind::Decode, "Incorrect signature length!"));
        }
        let c = match Scalar::from_canonical_bytes(array_32(data.as_slice(), 0)) {
            Some(c) => c,
            None => {
                return Err(error(ErrorKind::Decode, "Invalid c scalar!"));
            },
        };
        let p = match Scalar::from_canonical_bytes(array_32(data.as_slice(), 32)) {
            Some(p) => p,
            None => {
                return Err(error(ErrorKind::Decode, "Invalid p scalar!"));
            },
        };
        assert(data@ =~= c.encoding() + p.encoding());
        let encoded = base64_encode(data.as_slice());
        if !same(encoded.as_str().as_bytes(), text) {
            return Err(error(ErrorKind::Decode, "Invalid base64 signature string!"));
        }
        proof {
            vstd::utf8::is_ascii_chars_encode_utf8(encoded@);
        }
        Ok(Signature { encoded, c, p })
    }
}

/// A signature together with the key that it verifies under.
pub struct ExtSignature {
    pub sig: Signature,
    pub key: Point,
}

/// The length of the serialized form of an extended signature.
pub const EXT_SIGNATURE_LEN: usize = 136;

impl Clone for ExtSignature {
    fn clone(&self) -> (r: Self)
        ensures
            r.sig.encoded@ == self.sig.encoded@,
            r.sig.c == self.sig.c,
            r.sig.p == self.sig.p,
            r.key == self.key,
    {
        ExtSignature { sig: self.sig.clone(), key: self.key.clone() }
    }
}

impl ExtSignature {
    /// The text of the signature, which identifies it.
    pub fn id(&self) -> (r: &str)
        ensures
            r@ == self.sig.encoded@,
    {
        self.sig.encoded.as_str()
    }

    /// Signs the message with the secret `s`, and keeps the key beside the
    /// signature.
    pub fn sign(s: &Scalar, key: Point, data: &[Vec<u8>]) -> (r: ExtSignature)
        ensures
            r.key == key,
            r.sig.c@ == signed_challenge(*s, key@, message(data@)),
            r.sig.p@ == signed_response(*s, key@, message(data@)),
            r.sig.wf(),
    {
        let sig = Signature::sign(s, &key, data);
        ExtSignature { sig, key }
    }

    /// Whether the signature is one of the message under its own key.
    pub fn verify(&self, data: &[Vec<u8>]) -> (ok: bool)
        ensures
            forall|k: nat| #[trigger]
                self.key.is_multiple(k) ==> ok == accepts(
                    self.key@,
                    k,
                    message(data@),
                    self.sig.c@,
                    self.sig.p@,
                ),
    {
        self.sig.verify(&self.key, data)
    }

    /// The serialized form of the parts: the signature's, then the length of the
    /// key's encoding in 8 little-endian bytes, then that encoding.
    pub open spec fn image(text: Seq<u8>, key: Seq<u8>) -> Seq<u8> {
        text_image(text) + text_image(key)
    }

    /// The serialized form: 136 bytes for a well-formed signature.
    pub fn serialize(&self) -> (out: Vec<u8>)
        ensures
            out@ == Self::image(encode_utf8(self.sig.encoded@), self.key@),
    {
        let mut out = self.sig.serialize();
        let key = self.key.compress().to_bytes();
        let length = u64_to_le_bytes(32);
        extend(&mut out, length.as_slice());
        extend(&mut out, key.as_slice());
        proof {
            self.key.lemma_len();
            assert(out@ =~= Self::image(encode_utf8(self.sig.encoded@), self.key@));
        }
        out
    }

    /// The challenge of the signature that 136 serialized bytes hold.
    pub open spec fn image_challenge(bytes: Seq<u8>) -> nat {
        le_nat(base64_data(bytes.subrange(8, 96)).unwrap().subrange(0, 32))
    }

    /// The response of the signature that 136 serialized bytes hold.
    pub open spec fn image_response(bytes: Seq<u8>) -> nat {
        le_nat(base64_data(bytes.subrange(8, 96)).unwrap().subrange(32, 64))
    }

    /// The encoding of the key that 136 serialized bytes hold.
    pub open spec fn image_key(bytes: Seq<u8>) -> Seq<u8> {
        bytes.subrange(104, 136)
    }

    /// Whether the extended signature that 136 serialized bytes hold is
    /// accepted as one of `m` under its own key.
    pub open spec fn image_accepts(bytes: Seq<u8>, m: Seq<u8>) -> bool {
        exists|k: nat|
            Self::image_key(bytes) == #[trigger] basepoint_multiple(k % group_order()) && accepts(
                Self::image_key(bytes),
                k,
                m,
                Self::image_challenge(bytes),
                Self::image_response(bytes),
            )
    }

    /// Whether the bytes are the serialized form of an extended signature: 136
    /// bytes, of which the first 96 are a signature's and the rest a group
    /// element's.
    pub open spec fn is_image(bytes: Seq<u8>) -> bool {
        &&& bytes.len() == 136
        &&& Signature::is_image(bytes.subrange(0, 96))
        &&& bytes.subrange(96, 104) == spec_u64_to_le_bytes(32)
        &&& is_encoding(bytes.subrange(104, 136))
    }

    /// The extended signature that serialized bytes hold.
    pub fn deserialize(bytes: &[u8]) -> (r: Result<ExtSignature, Error>)
        ensures
            r is Ok <==> Self::is_image(bytes@),
            r matches Ok(ext) ==> ext.sig.wf() && Self::image(
                encode_utf8(ext.sig.encoded@),
                ext.key@,
            ) == bytes@ && ext.sig.c@ == Self::image_challenge(bytes@) && ext.sig.p@
                == Self::image_response(bytes@) && ext.key@ == Self::image_key(bytes@),
            r matches Err(e) ==> e.kind == ErrorKind::Decode,
    {
        if bytes.len() != EXT_SIGNATURE_LEN {
            return Err(error(ErrorKind::Decode, "Incorrect signature length!"));
        }
        let sig = match Signature::deserialize(slice_subrange(bytes, 0, 96)) {
            Ok(sig) => sig,
            Err(e) => {
                return Err(e);
            },
        };
        let length = u64_to_le_bytes(32);
        if !same(slice_subrange(bytes, 96, 104), length.as_slice()) {
            return Err(error(ErrorKind::Decode, "Incorrect key length!"));
        }
        let key = match CompressedPoint(array_32(bytes, 104)).decompress() {
            Some(key) => key,
            None => {
                return Err(error(ErrorKind::Decode, "Invalid key!"));
            },
        };
        proof {
            assert(bytes@ =~= bytes@.subrange(0, 96) + bytes@.subrange(96, 104) + bytes@.subrange(
                104,
                136,
            ));
            assert(bytes@.subrange(0, 96).subrange(8, 96) =~= bytes@.subrange(8, 96));
            let data = sig.c.encoding() + sig.p.encoding();
            sig.c.lemma_encoding();
            sig.p.lemma_encoding();
            assert(data.subrange(0, 32) =~= sig.c.encoding());
            assert(data.subrange(32, 64) =~= sig.p.encoding());
        }
        Ok(ExtSignature { sig, key })
    }
}

} // verus!
