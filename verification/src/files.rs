//! Sealed files: the encrypted stream of a file, followed by a signature of
//! its hash; and the reader that holds the signature back while the stream is
//! read.

use vstd::prelude::*;
use vstd::arithmetic::div_mod::lemma_small_mod;
use crate::bytes::extend;
use crate::cipher::{stream_decrypt, stream_open, stream_seal};
use crate::error::{error, Error, ErrorKind};
use crate::field::group_order;
use crate::hash::{sha256, sha256_digest};
use crate::keys::KeyPair;
use crate::point::basepoint_multiple;
use crate::records::lemma_message_of_one;
use crate::signatures::{
    lemma_signature_correct, signed_challenge, signed_response, ExtSignature, EXT_SIGNATURE_LEN,
};

verus! {

/// How many of `len` bytes are released when `reserve` are held back.
pub open spec fn released(len: nat, reserve: nat) -> nat {
    if len >= reserve {
        (len - reserve) as nat
    } else {
        0
    }
}

/// A look-ahead reader: it is handed the input piece by piece and releases
/// it in order, but for the last `reserve` bytes, which it holds back.
pub struct ReadUntil {
    buffer: Vec<u8>,
    remainder: usize,
    seen: Ghost<Seq<u8>>,
}

impl ReadUntil {
    /// The input that the reader has been handed so far.
    pub closed spec fn input(&self) -> Seq<u8> {
        self.seen@
    }

    /// How many bytes the reader holds back.
    pub closed spec fn reserve(&self) -> nat {
        self.remainder as nat
    }

    /// The bytes that are held back: what has been handed in and not released.
    pub closed spec fn held(&self) -> Seq<u8> {
        self.buffer@
    }

    /// The reader holds the end of its input: all of it while that is no more
    /// than the reserve, and else the last `reserve` bytes.
    #[verifier::type_invariant]
    pub closed spec fn holds_the_end(self) -> bool {
        self.buffer@ =~= self.seen@.subrange(
            released(self.seen@.len(), self.remainder as nat) as int,
            self.seen@.len() as int,
        )
    }

    /// A reader that holds back `remainder` bytes and has seen no input.
    pub fn new(remainder: usize) -> (r: ReadUntil)
        ensures
            r.input() == Seq::<u8>::empty(),
            r.reserve() == remainder,
    {
        ReadUntil { buffer: Vec::new(), remainder, seen: Ghost(Seq::empty()) }
    }

    /// What is held back: after the end of the input, its last `reserve` bytes.
    pub fn remainder(&self) -> (r: &[u8])
        ensures
            r@ == self.held(),
            r@ == self.input().subrange(
                released(self.input().len(), self.reserve()) as int,
                self.input().len() as int,
            ),
    {
        proof {
            use_type_invariant(self);
        }
        self.buffer.as_slice()
    }

    /// Hands the reader the next piece of the input. It returns what can be
    /// released now: the input from what was released before up to the last
    /// `reserve` bytes.
    pub fn read(&mut self, piece: &[u8]) -> (out: Vec<u8>)
        ensures
            final(self).reserve() == old(self).reserve(),
            final(self).input() == old(self).input() + piece@,
            out@ == final(self).input().subrange(
                released(old(self).input().len(), old(self).reserve()) as int,
                released(final(self).input().len(), old(self).reserve()) as int,
            ),
    {
        proof {
            use_type_invariant(&*self);
        }
        let ghost before = self.seen@;
        let ghost after = before + piece@;
        let mut all: Vec<u8> = Vec::new();
        extend(&mut all, self.buffer.as_slice());
        extend(&mut all, piece);
        let excess: usize = if all.len() > self.remainder {
            all.len() - self.remainder
        } else {
            0
        };
        let keep = all.split_off(excess);
        proof {
            let r0 = released(before.len(), self.remainder as nat) as int;
            let r1 = released(after.len(), self.remainder as nat) as int;
            assert(all@ =~= after.subrange(r0, r1));
            assert(keep@ =~= after.subrange(r1, after.len() as int));
        }
        *self = ReadUntil { buffer: keep, remainder: self.remainder, seen: Ghost(after) };
        all
    }

    /// Ends the input: the last `reserve` bytes of it, or an error where the
    /// input was shorter than that.
    pub fn finish(self) -> (r: Result<Vec<u8>, Error>)
        ensures
            r is Ok <==> self.input().len() >= self.reserve(),
            r matches Ok(last) ==> last@ == self.input().subrange(
                self.input().len() - self.reserve(),
                self.input().len() as int,
            ),
            r matches Err(e) ==> e.kind == ErrorKind::Decode,
    {
        proof {
            use_type_invariant(&self);
        }
        if self.buffer.len() < self.remainder {
            return Err(error(ErrorKind::Decode, "The input is shorter than its trailer!"));
        }
        Ok(self.buffer)
    }
}

/// The adaptor that seals files and opens sealed files.
pub struct FnAdaptor;

impl FnAdaptor {
    /// The trailer of a sealed file: its last 136 bytes.
    pub open spec fn trailer(container: Seq<u8>) -> Seq<u8> {
        container.subrange(container.len() - 136, container.len() as int)
    }

    /// The body of a sealed file: all but its last 136 bytes.
    pub open spec fn body(container: Seq<u8>) -> Seq<u8> {
        container.subrange(0, container.len() - 136)
    }

    /// Whether `container` is `body` followed by the extended signature that
    /// `keyp` makes of the hash of `body`.
    pub open spec fn is_sealed(container: Seq<u8>, keyp: KeyPair, body: Seq<u8>) -> bool {
        let trailer = Self::trailer(container);
        let digest = sha256_digest(body);
        &&& container.len() == body.len() + 136
        &&& Self::body(container) == body
        &&& ExtSignature::is_image(trailer)
        &&& ExtSignature::image_key(trailer) == keyp.key@
        &&& ExtSignature::image_challenge(trailer) == signed_challenge(keyp.s, keyp.key@, digest)
        &&& ExtSignature::image_response(trailer) == signed_response(keyp.s, keyp.key@, digest)
    }

    /// Whether `container` is a sealed file of `plain`: an encrypted stream that
    /// decrypts to `plain` under `dn`, sealed by `keyp`.
    pub open spec fn is_saved(
        container: Seq<u8>,
        keyp: KeyPair,
        dn: Seq<u8>,
        plain: Seq<u8>,
    ) -> bool {
        &&& container.len() >= 136
        &&& stream_open(dn, Self::body(container)) == Some(plain)
        &&& Self::is_sealed(container, keyp, Self::body(container))
    }

    /// What opening a sealed file gives: the plaintext, or the kind of the
    /// first failure. The file must hold a trailer, its body must decrypt, the
    /// trailer must be an extended signature, and that signature must be one of
    /// the body's hash.
    pub open spec fn loaded(dn: Seq<u8>, container: Seq<u8>) -> Result<Seq<u8>, ErrorKind> {
        if container.len() < 136 {
            Err(ErrorKind::Decode)
        } else {
            match stream_open(dn, Self::body(container)) {
                None => Err(ErrorKind::Padding),
                Some(plain) => if !ExtSignature::is_image(Self::trailer(container)) {
                    Err(ErrorKind::Decode)
                } else if !ExtSignature::image_accepts(
                    Self::trailer(container),
                    sha256_digest(Self::body(container)),
                ) {
                    Err(ErrorKind::Signature)
                } else {
                    Ok(plain)
                },
            }
        }
    }

    /// File round trip. A file that was saved under `dn` by a key pair whose
    /// public key is its secret's multiple of the basepoint is loaded under
    /// `dn` to its plaintext again.
    pub proof fn lemma_save_load(container: Seq<u8>, keyp: KeyPair, dn: Seq<u8>, plain: Seq<u8>)
        requires
            keyp.wf(),
            Self::is_saved(container, keyp, dn, plain),
        ensures
            Self::loaded(dn, container) == Ok::<Seq<u8>, ErrorKind>(plain),
    {
        let trailer = Self::trailer(container);
        let digest = sha256_digest(Self::body(container));
        lemma_signature_correct(keyp.s, keyp.key@, digest);
        assert(ExtSignature::image_key(trailer) == basepoint_multiple(keyp.s@ % group_order()));
    }

    /// Tamper detection. Whatever bytes are loaded, a plaintext comes back
    /// only where the trailer holds a signature that its own key accepts for
    /// the hash of the body; every other file is refused, because it is too
    /// short or its trailer is malformed, because its body does not decrypt,
    /// or because the signature is not accepted.
    pub proof fn lemma_tamper_detection(dn: Seq<u8>, container: Seq<u8>)
        ensures
            Self::loaded(dn, container) is Ok ==> container.len() >= 136 && ExtSignature::is_image(
                Self::trailer(container),
            ) && ExtSignature::image_accepts(
                Self::trailer(container),
                sha256_digest(Self::body(container)),
            ),
            Self::loaded(dn, container) matches Err(kind) ==> kind == ErrorKind::Decode || kind
                == ErrorKind::Padding || kind == ErrorKind::Signature,
    {
    }

    /// Tamper detection in the body. Where the body of a saved file is
    /// changed and its trailer is kept, the file is refused because the body
    /// does not decrypt or because the signature is not accepted, unless the
    /// kept signature is accepted for the hash of the changed body.
    pub proof fn lemma_body_tamper(
        container: Seq<u8>,
        changed: Seq<u8>,
        keyp: KeyPair,
        dn: Seq<u8>,
        plain: Seq<u8>,
    )
        requires
            Self::is_saved(container, keyp, dn, plain),
            changed.len() == container.len(),
            Self::trailer(changed) == Self::trailer(container),
        ensures
            Self::loaded(dn, changed) matches Err(kind) ==> kind == ErrorKind::Padding || kind
                == ErrorKind::Signature,
            Self::loaded(dn, changed) is Ok ==> ExtSignature::image_accepts(
                Self::trailer(container),
                sha256_digest(Self::body(changed)),
            ),
    {
    }

    /// Seals an encrypted stream: appends the extended signature that `keyp`
    /// makes of the stream's hash.
    pub fn seal(keyp: &KeyPair, body: Vec<u8>) -> (out: Vec<u8>)
        ensures
            Self::is_sealed(out@, *keyp, body@),
    {
        let dhash = sha256(body.as_slice());
        let mut parts: Vec<Vec<u8>> = Vec::new();
        parts.push(dhash);
        proof {
            lemma_message_of_one(parts@);
        }
        let sig = ExtSignature::sign(&keyp.s, keyp.key.clone(), parts.as_slice());
        let b_sig = sig.serialize();
        let key = &sig.key;
        let c = &sig.sig.c;
        let p = &sig.sig.p;
        proof {
            use_type_invariant(key);
            use_type_invariant(c);
            use_type_invariant(p);
        }
        let mut out = body;
        extend(&mut out, b_sig.as_slice());
        proof {
            sig.key.lemma_len();
            vstd::bytes::lemma_auto_spec_u64_to_from_le_bytes();
            sig.sig.c.lemma_encoding();
            sig.sig.p.lemma_encoding();
            let data = sig.sig.c.encoding() + sig.sig.p.encoding();
            let text = vstd::utf8::encode_utf8(sig.sig.encoded@);
            assert(b_sig@.len() == 136);
            assert(Self::trailer(out@) =~= b_sig@);
            assert(Self::body(out@) =~= body@);
            assert(b_sig@.subrange(0, 96) =~= crate::signatures::text_image(text));
            assert(b_sig@.subrange(0, 96).subrange(8, 96) =~= text);
            assert(b_sig@.subrange(8, 96) =~= text);
            assert(b_sig@.subrange(96, 104) =~= vstd::bytes::spec_u64_to_le_bytes(32));
            assert(b_sig@.subrange(104, 136) =~= sig.key@);
            assert(data.subrange(0, 32) =~= sig.sig.c.encoding());
            assert(data.subrange(32, 64) =~= sig.sig.p.encoding());
        }
        out
    }

    /// Seals a file: encrypts it under `dn` as a stream with a fresh random
    /// initialisation vector, and seals the stream with `keyp`.
    pub fn save(keyp: &KeyPair, dn: &[u8; 16], from: &[u8]) -> (r: Result<Vec<u8>, Error>)
        ensures
            r matches Ok(out) ==> Self::is_saved(out@, *keyp, dn@, from@),
            r matches Err(e) ==> e.kind == ErrorKind::Io,
    {
        match stream_seal(dn, from) {
            Err(_) => Err(error(ErrorKind::Io, "No random initialisation vector!")),
            Ok(body) => Ok(Self::seal(keyp, body)),
        }
    }

    /// Opens a sealed file: holds the trailer back, decrypts the body under
    /// `dn`, and verifies the trailer's signature of the body's hash.
    pub fn load(dn: &[u8; 16], from: &[u8]) -> (r: Result<Vec<u8>, Error>)
        ensures
            r matches Ok(plain) ==> Self::loaded(dn@, from@) == Ok::<Seq<u8>, ErrorKind>(plain@),
            r matches Err(e) ==> Self::loaded(dn@, from@) == Err::<Seq<u8>, ErrorKind>(e.kind),
    {
        let mut encrypted = ReadUntil::new(EXT_SIGNATURE_LEN);
        let body = encrypted.read(from);
        assert(encrypted.input() =~= from@);
        let b_sig = match encrypted.finish() {
            Ok(b_sig) => b_sig,
            Err(e) => {
                return Err(e);
            },
        };
        assert(b_sig@ =~= Self::trailer(from@));
        assert(body@ =~= Self::body(from@));
        let plain = match stream_decrypt(dn, body.as_slice()) {
            Some(plain) => plain,
            None => {
                return Err(error(ErrorKind::Padding, "The file does not decrypt!"));
            },
        };
        let sig = match ExtSignature::deserialize(b_sig.as_slice()) {
            Ok(sig) => sig,
            Err(e) => {
                return Err(e);
            },
        };
        let dhash = sha256(body.as_slice());
        let mut parts: Vec<Vec<u8>> = Vec::new();
        parts.push(dhash);
        proof {
            lemma_message_of_one(parts@);
        }
        let ok = sig.verify(parts.as_slice());
        let key = &sig.key;
        proof {
            use_type_invariant(key);
            let w = choose|w: nat|
                w < group_order() && sig.key@ == #[trigger] basepoint_multiple(w);
            lemma_small_mod(w, group_order());
            assert(sig.key.is_multiple(w));
            assert(sig.key@ == basepoint_multiple(w % group_order()));
        }
        if !ok {
            proof {
                let trailer = Self::trailer(from@);
                assert forall|k: nat|
                    ExtSignature::image_key(trailer) == #[trigger] basepoint_multiple(
                        k % group_order(),
                    ) implies !crate::signatures::accepts(
                    ExtSignature::image_key(trailer),
                    k,
                    sha256_digest(Self::body(from@)),
                    ExtSignature::image_challenge(trailer),
                    ExtSignature::image_response(trailer),
                ) by {
                    assert(sig.key.is_multiple(k));
                }
            }
            return Err(error(ErrorKind::Signature, "Signature verification failed!"));
        }
        Ok(plain)
    }
}

} // verus!
