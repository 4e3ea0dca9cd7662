//! Records: a sealed payload, signed and linked to the record before it; and
//! chains of them, which are unsealed from the last record back to the first.

use vstd::prelude::*;
use vstd::utf8::encode_utf8;
use vstd::arithmetic::div_mod::lemma_small_mod;
use crate::bytes::{extend, same};
use crate::cipher::{cbc_open, cbc_seal, decrypt, encrypt};
use crate::error::{error, Error, ErrorKind};
use crate::field::{fmul, group_order, lemma_fmul_reduce};
use crate::hash::{sha256, sha256_digest};
use crate::keys::{lambda_bytes, KeyPair, LambdaKey};
use crate::lagrange::lemma_lagrange_recovery_lifted;
use crate::payload::{
    file_views, lemma_payload_round_trip, payload_image, payload_parse, payload_wf, FileRefView,
    PayloadView, RnData, RnFileRef,
};
use crate::point::{basepoint_multiple, CompressedPoint, Point};
use crate::scalar::{rnd_scalar, Scalar};
use crate::shares::{distinct, poly_eval, recover_value};
use crate::signatures::{
    accepts, join, lemma_signature_correct, message, signed_challenge, signed_response, views,
    ExtSignature,
};

verus! {

/// The initialisation vector of every record: 16 zero bytes. It is the same
/// for all because no key seals two records.
pub open spec fn zero_iv() -> Seq<u8> {
    Seq::new(16, |k: int| 0u8)
}

/// The ciphertext of a payload under a key.
pub open spec fn seal(lambda: Seq<u8>, payload: PayloadView) -> Seq<u8> {
    cbc_seal(lambda.subrange(0, 16), zero_iv(), payload_image(payload))
}

/// What a ciphertext unseals to under a key: a payload, or the kind of the
/// failure.
pub open spec fn unseal(lambda: Seq<u8>, sealed: Seq<u8>) -> Result<PayloadView, ErrorKind> {
    match cbc_open(lambda.subrange(0, 16), zero_iv(), sealed) {
        None => Err(ErrorKind::Padding),
        Some(plain) => match payload_parse(plain) {
            None => Err(ErrorKind::Recovery),
            Some(payload) => Ok(payload),
        },
    }
}

/// A sealed payload: the point `kn = k * B` of the ephemeral secret `k` that
/// it was sealed with, and the ciphertext.
#[derive(Clone)]
pub struct RnEncData {
    pub kn: Point,
    pub data: Vec<u8>,
}

/// Whether `lambda` and `enc` are what sealing `payload` with the ephemeral
/// secret `k` against the key `ekey` gives: `kn` is `k * B`, the key is
/// derived from `k * ekey`, and the ciphertext is the payload's under that
/// key, which decrypts to the payload's serialized form again.
pub open spec fn sealed_with(
    k: nat,
    ekey: Point,
    id: Seq<char>,
    set: Seq<char>,
    payload: PayloadView,
    lambda: Seq<u8>,
    enc: RnEncData,
) -> bool {
    &&& k < group_order()
    &&& payload_wf(payload)
    &&& enc.kn.is_multiple(k)
    &&& forall|e: nat| #[trigger]
        ekey.is_multiple(e) ==> lambda == lambda_bytes(basepoint_multiple(fmul(k, e)), id, set)
    &&& enc.data@ == seal(lambda, payload)
    &&& cbc_open(lambda.subrange(0, 16), zero_iv(), enc.data@) == Some(payload_image(payload))
}

/// Seal and unseal. What was sealed against the key `e * B` is unsealed to
/// the payload again with the key that is derived from `e * kn`.
pub proof fn lemma_seal_unseal(
    k: nat,
    e: nat,
    ekey: Point,
    id: Seq<char>,
    set: Seq<char>,
    payload: PayloadView,
    lambda: Seq<u8>,
    enc: RnEncData,
)
    requires
        ekey.is_multiple(e),
        sealed_with(k, ekey, id, set, payload, lambda, enc),
    ensures
        enc.kn.is_multiple(k),
        unseal(lambda_bytes(basepoint_multiple(fmul(e, k)), id, set), enc.data@) == Ok::<
            PayloadView,
            ErrorKind,
        >(payload),
{
    lemma_fmul_reduce(k, e);
    lemma_payload_round_trip(payload);
}

/// The 16 zero bytes as an array.
fn zero_block() -> (iv: [u8; 16])
    ensures
        iv@ == zero_iv(),
{
    let iv = [0u8; 16];
    assert(iv@ =~= zero_iv());
    iv
}

impl RnEncData {
    /// The bytes that are signed: the point's encoding, then the ciphertext.
    pub open spec fn image(&self) -> Seq<u8> {
        self.kn@ + self.data@
    }

    /// Seals a payload against the key `ekey`, with a fresh ephemeral secret.
    pub fn new(ekey: &Point, id: &str, set: &str, cd: &RnData) -> (r: (LambdaKey, RnEncData))
        ensures
            exists|k: nat| sealed_with(k, *ekey, id@, set@, cd@, r.0@, r.1),
    {
        let k = rnd_scalar();
        let r = RnEncData::seal_with(&k, ekey, id, set, cd);
        assert(sealed_with(k@, *ekey, id@, set@, cd@, r.0@, r.1));
        r
    }

    /// Seals a payload against the key `ekey`, with the ephemeral secret `k`:
    /// the key is derived from `k * ekey`, and `kn = k * B` is kept beside the
    /// ciphertext. The secret must be fresh: every record is encrypted with
    /// the same initialisation vector, so no key may seal two payloads.
    pub fn seal_with(k: &Scalar, ekey: &Point, id: &str, set: &str, cd: &RnData) -> (r: (
        LambdaKey,
        RnEncData,
    ))
        ensures
            sealed_with(k@, *ekey, id@, set@, cd@, r.0@, r.1),
    {
        let alpha = ekey.mul(k).compress();
        let lambda = LambdaKey::new(&alpha, id, set);
        let plain = cd.serialize();
        let data = encrypt(&lambda.k128(), &zero_block(), plain.as_slice());
        let kn = Point::mul_base(k);
        proof {
            use_type_invariant(k);
            assert forall|e: nat| #[trigger] ekey.is_multiple(e) implies lambda@ == lambda_bytes(
                basepoint_multiple(fmul(k@, e)),
                id@,
                set@,
            ) by {
                assert(alpha@ == basepoint_multiple((k@ * e) % group_order()));
            }
        }
        (lambda, RnEncData { kn, data })
    }

    /// Unseals the payload with its key.
    pub fn data(&self, lambda: &LambdaKey) -> (r: Result<RnData, Error>)
        ensures
            r matches Ok(payload) ==> unseal(lambda@, self.data@) == Ok::<PayloadView, ErrorKind>(
                payload@,
            ),
            r matches Err(e) ==> unseal(lambda@, self.data@) == Err::<PayloadView, ErrorKind>(
                e.kind,
            ),
    {
        match decrypt(&lambda.k128(), &zero_block(), self.data.as_slice()) {
            None => Err(error(ErrorKind::Padding, "The record does not decrypt!")),
            Some(plain) => RnData::deserialize(plain.as_slice()),
        }
    }

    /// The bytes that are signed: the point's encoding, then the ciphertext.
    pub fn to_vec(&self) -> (out: Vec<u8>)
        ensures
            out@ == self.image(),
    {
        let mut out: Vec<u8> = Vec::new();
        extend(&mut out, self.kn.compress().to_bytes().as_slice());
        extend(&mut out, self.data.as_slice());
        out
    }
}

/// What tells a head from a tail: a head names the subject and the data set, a
/// tail holds the hash of the record before it.
#[derive(Clone)]
pub enum RnKind {
    Head { id: String, set: String },
    Tail { hprev: Vec<u8> },
}

/// A record.
#[derive(Clone)]
pub struct Rn {
    pub kind: RnKind,
    pub data: RnEncData,
    pub sig: ExtSignature,
}

/// What a record's hash is taken of: for a head the subject, the data set and
/// the sealed payload; for a tail the hash of the record before it and the
/// sealed payload.
pub open spec fn record_preimage(kind: RnKind, sealed: Seq<u8>) -> Seq<u8> {
    match kind {
        RnKind::Head { id, set } => encode_utf8(id@) + encode_utf8(set@) + sealed,
        RnKind::Tail { hprev } => hprev@ + sealed,
    }
}

/// A message of one part is that part.
pub proof fn lemma_message_of_one(data: Seq<Vec<u8>>)
    requires
        data.len() == 1,
    ensures
        message(data) == data[0]@,
{
    let parts = views(data);
    assert(parts.drop_last() =~= Seq::<Seq<u8>>::empty());
    assert(join(parts.drop_last()) =~= Seq::<u8>::empty());
    assert(join(parts) =~= parts.last());
}

impl Rn {
    /// The hash of the record, which is what its signature signs.
    pub open spec fn digest(&self) -> Seq<u8> {
        sha256_digest(record_preimage(self.kind, self.data.image()))
    }

    /// Whether the record's signature is one of its hash under the key that
    /// it carries.
    pub open spec fn signed(&self) -> bool {
        exists|k: nat| #[trigger]
            self.sig.key.is_multiple(k) && accepts(
                self.sig.key@,
                k,
                self.digest(),
                self.sig.sig.c@,
                self.sig.sig.p@,
            )
    }

    /// Whether the record is what `keyp` signs over a payload sealed with the
    /// ephemeral secret `k`.
    pub open spec fn made_with(
        &self,
        k: nat,
        keyp: KeyPair,
        ekey: Point,
        id: Seq<char>,
        set: Seq<char>,
        payload: PayloadView,
        lambda: Seq<u8>,
    ) -> bool {
        &&& sealed_with(k, ekey, id, set, payload, lambda, self.data)
        &&& self.sig.key == keyp.key
        &&& self.sig.sig.c@ == signed_challenge(keyp.s, keyp.key@, self.digest())
        &&& self.sig.sig.p@ == signed_response(keyp.s, keyp.key@, self.digest())
        &&& self.sig.sig.wf()
    }

    /// The key of the party that signed the record.
    pub fn owner(&self) -> (key: &Point)
        ensures
            *key == self.sig.key,
    {
        &self.sig.key
    }

    /// Signs a sealed payload as a record of the given kind.
    fn finish(keyp: &KeyPair, kind: RnKind, data: RnEncData) -> (rn: Rn)
        ensures
            rn.kind == kind,
            rn.data == data,
            rn.sig.key == keyp.key,
            rn.sig.sig.c@ == signed_challenge(keyp.s, keyp.key@, rn.digest()),
            rn.sig.sig.p@ == signed_response(keyp.s, keyp.key@, rn.digest()),
            rn.sig.sig.wf(),
            keyp.wf() ==> rn.signed(),
    {
        let mut preimage: Vec<u8> = Vec::new();
        match &kind {
            RnKind::Head { id, set } => {
                extend(&mut preimage, id.as_str().as_bytes());
                extend(&mut preimage, set.as_str().as_bytes());
            },
            RnKind::Tail { hprev } => {
                extend(&mut preimage, hprev.as_slice());
            },
        }
        extend(&mut preimage, data.to_vec().as_slice());
        assert(preimage@ =~= record_preimage(kind, data.image()));
        let dhash = sha256(preimage.as_slice());
        let mut parts: Vec<Vec<u8>> = Vec::new();
        parts.push(dhash);
        proof {
            lemma_message_of_one(parts@);
        }
        let sig = ExtSignature::sign(&keyp.s, keyp.key.clone(), parts.as_slice());
        let rn = Rn { kind, data, sig };
        proof {
            if keyp.wf() {
                lemma_signature_correct(keyp.s, keyp.key@, rn.digest());
                assert(rn.sig.key.is_multiple(keyp.s@));
            }
        }
        rn
    }

    /// The first record of a chain: seals the payload against `ekey` under a
    /// fresh key, and signs subject, data set and sealed payload with `keyp`.
    /// Returns the key beside the record.
    pub fn head(keyp: &KeyPair, ekey: &Point, id: &str, set: &str, rd: RnData) -> (r: (
        LambdaKey,
        Rn,
    ))
        ensures
            r.1.kind matches RnKind::Head { id: i, set: s } && i@ == id@ && s@ == set@,
            exists|k: nat| r.1.made_with(k, *keyp, *ekey, id@, set@, rd@, r.0@),
            keyp.wf() ==> r.1.signed(),
    {
        let k = rnd_scalar();
        let r = Rn::head_with(&k, keyp, ekey, id, set, rd);
        assert(r.1.made_with(k@, *keyp, *ekey, id@, set@, rd@, r.0@));
        r
    }

    /// The first record of a chain, sealed with the ephemeral secret `k`.
    pub fn head_with(
        k: &Scalar,
        keyp: &KeyPair,
        ekey: &Point,
        id: &str,
        set: &str,
        rd: RnData,
    ) -> (r: (LambdaKey, Rn))
        ensures
            r.1.kind matches RnKind::Head { id: i, set: s } && i@ == id@ && s@ == set@,
            r.1.made_with(k@, *keyp, *ekey, id@, set@, rd@, r.0@),
            keyp.wf() ==> r.1.signed(),
    {
        let (lambda, data) = RnEncData::seal_with(k, ekey, id, set, &rd);
        let kind = RnKind::Head { id: id.to_owned(), set: set.to_owned() };
        (lambda, Rn::finish(keyp, kind, data))
    }

    /// A later record of a chain: seals the payload against `ekey` under a
    /// fresh key, and signs the hash of the record before it and the sealed
    /// payload with `keyp`. Returns the key beside the record.
    pub fn tail(
        keyp: &KeyPair,
        ekey: &Point,
        hprev: &[u8],
        id: &str,
        set: &str,
        rd: RnData,
    ) -> (r: (LambdaKey, Rn))
        ensures
            r.1.kind matches RnKind::Tail { hprev: h } && h@ == hprev@,
            exists|k: nat| r.1.made_with(k, *keyp, *ekey, id@, set@, rd@, r.0@),
            keyp.wf() ==> r.1.signed(),
    {
        let k = rnd_scalar();
        let r = Rn::tail_with(&k, keyp, ekey, hprev, id, set, rd);
        assert(r.1.made_with(k@, *keyp, *ekey, id@, set@, rd@, r.0@));
        r
    }

    /// A later record of a chain, sealed with the ephemeral secret `k`.
    pub fn tail_with(
        k: &Scalar,
        keyp: &KeyPair,
        ekey: &Point,
        hprev: &[u8],
        id: &str,
        set: &str,
        rd: RnData,
    ) -> (r: (LambdaKey, Rn))
        ensures
            r.1.kind matches RnKind::Tail { hprev: h } && h@ == hprev@,
            r.1.made_with(k@, *keyp, *ekey, id@, set@, rd@, r.0@),
            keyp.wf() ==> r.1.signed(),
    {
        let (lambda, data) = RnEncData::seal_with(k, ekey, id, set, &rd);
        let mut link: Vec<u8> = Vec::new();
        extend(&mut link, hprev);
        let kind = RnKind::Tail { hprev: link };
        (lambda, Rn::finish(keyp, kind, data))
    }

    /// The record's hash, where its signature verifies.
    pub fn check(&self) -> (r: Result<Vec<u8>, Error>)
        ensures
            r is Ok <==> self.signed(),
            r matches Ok(dhash) ==> dhash@ == self.digest(),
            r matches Err(e) ==> e.kind == ErrorKind::Signature,
    {
        let dhash = self.hash();
        let mut parts: Vec<Vec<u8>> = Vec::new();
        parts.push(dhash);
        proof {
            lemma_message_of_one(parts@);
        }
        let ok = self.sig.verify(parts.as_slice());
        let key = self.owner();
        proof {
            use_type_invariant(key);
            let w = choose|w: nat|
                w < group_order() && self.sig.key@ == #[trigger] basepoint_multiple(w);
            lemma_small_mod(w, group_order());
            assert(self.sig.key.is_multiple(w));
        }
        if !ok {
            return Err(error(ErrorKind::Signature, "Invalid record signature!"));
        }
        Ok(self.hash())
    }

    /// The record's hash.
    pub fn hash(&self) -> (dhash: Vec<u8>)
        ensures
            dhash@ == self.digest(),
    {
        let mut preimage: Vec<u8> = Vec::new();
        match &self.kind {
            RnKind::Head { id, set } => {
                extend(&mut preimage, id.as_str().as_bytes());
                extend(&mut preimage, set.as_str().as_bytes());
            },
            RnKind::Tail { hprev } => {
                extend(&mut preimage, hprev.as_slice());
            },
        }
        extend(&mut preimage, self.data.to_vec().as_slice());
        assert(preimage@ =~= record_preimage(self.kind, self.data.image()));
        sha256(preimage.as_slice())
    }
}

/// What the walk from record `k` back to the head gives, where `lambda` is the
/// key of record `k`: the file references of the records `0..=k`, head first,
/// or the kind of the first failure. Each record must unseal under its key;
/// each but the head must hold the key of the record before it, and the head
/// must hold none; and each record's signature must verify.
pub open spec fn walk(records: Seq<Rn>, k: int, lambda: Seq<u8>) -> Result<
    Seq<FileRefView>,
    ErrorKind,
>
    decreases k,
{
    if k < 0 {
        Ok(Seq::empty())
    } else {
        match unseal(lambda, records[k].data.data@) {
            Err(kind) => Err(kind),
            Ok(payload) => if k == 0 {
                if payload.prev is Some {
                    Err(ErrorKind::Shape)
                } else if !records[k].signed() {
                    Err(ErrorKind::Signature)
                } else {
                    Ok(seq![payload.file])
                }
            } else {
                match payload.prev {
                    None => Err(ErrorKind::Recovery),
                    Some(prev) => if !records[k].signed() {
                        Err(ErrorKind::Signature)
                    } else {
                        match walk(records, k - 1, prev) {
                            Err(kind) => Err(kind),
                            Ok(files) => Ok(files.push(payload.file)),
                        }
                    },
                }
            },
        }
    }
}

/// The result of a walk, followed by the files that were found before it.
pub open spec fn then_files(
    first: Result<Seq<FileRefView>, ErrorKind>,
    rest: Seq<FileRefView>,
) -> Result<Seq<FileRefView>, ErrorKind> {
    match first {
        Err(kind) => Err(kind),
        Ok(files) => Ok(files + rest),
    }
}

/// What recovering a chain with the shared point `alpha` gives: the file
/// references of all records, head first, or the kind of the failure.
pub open spec fn recovered(records: Seq<Rn>, alpha: Seq<u8>) -> Result<
    Seq<FileRefView>,
    ErrorKind,
> {
    if records.len() == 0 {
        Err(ErrorKind::Shape)
    } else {
        match records[0].kind {
            RnKind::Tail { hprev } => Err(ErrorKind::Shape),
            RnKind::Head { id, set } => walk(
                records,
                records.len() - 1,
                lambda_bytes(alpha, id@, set@),
            ),
        }
    }
}

/// Whether the records hold the payloads under the keys: every record's
/// ciphertext decrypts under its key to the serialized form of its payload,
/// the head's payload holds no key and every other the key of the record
/// before it, and every record's signature verifies.
pub open spec fn holds(
    records: Seq<Rn>,
    lambdas: Seq<Seq<u8>>,
    payloads: Seq<PayloadView>,
) -> bool {
    &&& records.len() > 0
    &&& records.len() == lambdas.len()
    &&& records.len() == payloads.len()
    &&& forall|i: int|
        0 <= i < records.len() ==> payload_wf(#[trigger] payloads[i]) && cbc_open(
            lambdas[i].subrange(0, 16),
            zero_iv(),
            records[i].data.data@,
        ) == Some(payload_image(payloads[i]))
    &&& payloads[0].prev is None
    &&& forall|i: int|
        0 < i < records.len() ==> (#[trigger] payloads[i]).prev == Some(lambdas[i - 1])
    &&& forall|i: int| 0 <= i < records.len() ==> (#[trigger] records[i]).signed()
}

/// The walk of records that hold payloads, from record `k` with its key, gives
/// the file references of the payloads `0..=k`, head first.
pub proof fn lemma_walk_recovers(
    records: Seq<Rn>,
    lambdas: Seq<Seq<u8>>,
    payloads: Seq<PayloadView>,
    k: int,
)
    requires
        holds(records, lambdas, payloads),
        0 <= k < records.len(),
    ensures
        walk(records, k, lambdas[k]) == Ok::<Seq<FileRefView>, ErrorKind>(
            Seq::new((k + 1) as nat, |i: int| payloads[i].file),
        ),
    decreases k,
{
    lemma_payload_round_trip(payloads[k]);
    assert(unseal(lambdas[k], records[k].data.data@) == Ok::<PayloadView, ErrorKind>(payloads[k]));
    assert(records[k].signed());
    if k == 0 {
        assert(seq![payloads[0].file] =~= Seq::new(1, |i: int| payloads[i].file));
    } else {
        lemma_walk_recovers(records, lambdas, payloads, k - 1);
        assert(Seq::new(k as nat, |i: int| payloads[i].file).push(payloads[k].file) =~= Seq::new(
            (k + 1) as nat,
            |i: int| payloads[i].file,
        ));
    }
}

/// Full recovery from the master secret. Where a chain holds payloads, and the
/// key of its last record is the one that sealing with the ephemeral secret
/// `k` against the master key `e * B` derives, recovering the chain with the
/// shared point `(e * k) * B` gives the file references of all payloads, head
/// first.
pub proof fn lemma_full_recovery(
    records: Seq<Rn>,
    lambdas: Seq<Seq<u8>>,
    payloads: Seq<PayloadView>,
    e: nat,
    k: nat,
)
    requires
        holds(records, lambdas, payloads),
        records[0].kind matches RnKind::Head { id, set } && lambdas[records.len() - 1]
            == lambda_bytes(basepoint_multiple(fmul(k, e)), id@, set@),
    ensures
        recovered(records, basepoint_multiple(fmul(e, k))) == Ok::<Seq<FileRefView>, ErrorKind>(
            Seq::new(records.len(), |i: int| payloads[i].file),
        ),
{
    lemma_fmul_reduce(k, e);
    lemma_walk_recovers(records, lambdas, payloads, records.len() - 1);
}

/// Full recovery from shares. Where the master secret `e` is shared by a
/// polynomial, and a chain holds payloads, with its last record sealed with
/// the ephemeral secret `k` against the master key `e * B`: what shares of
/// `e` at nodes that differ, at least as many as the polynomial has
/// coefficients, interpolate to when they are lifted by `kn = k * B` is the
/// shared point with which recovering the chain gives the file references of
/// all payloads, head first.
pub proof fn lemma_threshold_recovery(
    coeffs: Seq<nat>,
    xs: Seq<nat>,
    records: Seq<Rn>,
    lambdas: Seq<Seq<u8>>,
    payloads: Seq<PayloadView>,
    k: nat,
)
    requires
        0 < coeffs.len() <= xs.len(),
        distinct(xs),
        forall|i: int| 0 <= i < xs.len() ==> xs[i] < group_order(),
        holds(records, lambdas, payloads),
        records[0].kind matches RnKind::Head { id, set } && lambdas[records.len() - 1]
            == lambda_bytes(basepoint_multiple(fmul(k, coeffs[0])), id@, set@),
    ensures
        recovered(
            records,
            basepoint_multiple(
                recover_value(xs, Seq::new(xs.len(), |i: int| fmul(poly_eval(coeffs, xs[i]), k))),
            ),
        ) == Ok::<Seq<FileRefView>, ErrorKind>(
            Seq::new(records.len(), |i: int| payloads[i].file),
        ),
{
    lemma_lagrange_recovery_lifted(coeffs, xs, k);
    lemma_full_recovery(records, lambdas, payloads, coeffs[0], k);
}

/// A chain of records, with the hash of the last one.
#[derive(Clone)]
pub struct RnChain {
    pub lhash: Vec<u8>,
    pub chain: Vec<Rn>,
}

impl RnChain {
    /// A chain begins with a head, every later record is a tail that holds the
    /// hash of the record before it, every record's signature verifies, and
    /// `lhash` is the hash of the last record.
    pub open spec fn wf(&self) -> bool {
        &&& self.chain@.len() > 0
        &&& self.chain@[0].kind is Head
        &&& forall|k: int| 0 <= k < self.chain@.len() ==> (#[trigger] self.chain@[k]).signed()
        &&& forall|k: int|
            0 < k < self.chain@.len() ==> ((#[trigger] self.chain@[k]).kind matches RnKind::Tail {
                hprev,
            } && hprev@ == self.chain@[k - 1].digest())
        &&& self.lhash@ == self.chain@[self.chain@.len() - 1].digest()
    }

    /// The chain link. In a well-formed chain every record but the head holds
    /// the hash of the record before it, which is what that record's check
    /// returns, and the chain's `lhash` is the hash of its last record.
    pub proof fn lemma_chain_link(&self, k: int)
        requires
            self.wf(),
            0 < k < self.chain@.len(),
        ensures
            self.chain@[k].kind matches RnKind::Tail { hprev } && hprev@ == self.chain@[k
                - 1].digest(),
            self.chain@[k - 1].signed(),
            self.lhash@ == self.chain@[self.chain@.len() - 1].digest(),
    {
    }

    /// The subject of the chain, which its head names.
    pub fn id(&self) -> (r: &str)
        requires
            self.chain@.len() > 0,
            self.chain@[0].kind is Head,
        ensures
            self.chain@[0].kind matches RnKind::Head { id, set } && r@ == id@,
    {
        match &self.chain[0].kind {
            RnKind::Head { id, set } => id.as_str(),
            RnKind::Tail { hprev } => "",
        }
    }

    /// The data set of the chain, which its head names.
    pub fn set(&self) -> (r: &str)
        requires
            self.chain@.len() > 0,
            self.chain@[0].kind is Head,
        ensures
            self.chain@[0].kind matches RnKind::Head { id, set } && r@ == set@,
    {
        match &self.chain[0].kind {
            RnKind::Head { id, set } => set.as_str(),
            RnKind::Tail { hprev } => "",
        }
    }

    /// The point `kn` of the last record, from which its key is derived.
    pub fn kn(&self) -> (r: &Point)
        requires
            self.chain@.len() > 0,
        ensures
            *r == self.chain@[self.chain@.len() - 1].data.kn,
    {
        &self.chain[self.chain.len() - 1].data.kn
    }

    /// The chain of one record, a head whose signature verifies.
    pub fn new(head: Rn) -> (r: Result<RnChain, Error>)
        ensures
            r is Ok <==> head.kind is Head && head.signed(),
            r matches Ok(c) ==> c.wf() && c.chain@ == seq![head],
            r matches Err(e) ==> e.kind == if head.kind is Head {
                ErrorKind::Signature
            } else {
                ErrorKind::Shape
            },
    {
        match &head.kind {
            RnKind::Tail { hprev } => {
                return Err(error(ErrorKind::Shape, "Record is not a head type!"));
            },
            RnKind::Head { id, set } => {},
        }
        let lhash = match head.check() {
            Ok(lhash) => lhash,
            Err(e) => {
                return Err(e);
            },
        };
        let mut chain: Vec<Rn> = Vec::new();
        chain.push(head);
        assert(chain@ =~= seq![head]);
        Ok(RnChain { lhash, chain })
    }

    /// Whether `tail` can follow the chain, and the kind of the failure where
    /// it cannot: it must be a tail, its signature must verify, and it must hold
    /// the hash of the chain's last record.
    pub open spec fn refusal(&self, tail: Rn) -> Option<ErrorKind> {
        match tail.kind {
            RnKind::Head { id, set } => Some(ErrorKind::Shape),
            RnKind::Tail { hprev } => if !tail.signed() {
                Some(ErrorKind::Signature)
            } else if hprev@ != self.lhash@ {
                Some(ErrorKind::ChainLink)
            } else {
                None
            },
        }
    }

    /// Appends a tail to the chain. Where the tail is refused the chain stays
    /// as it was.
    pub fn push(&mut self, tail: Rn) -> (r: Result<(), Error>)
        ensures
            r is Ok <==> old(self).refusal(tail) is None,
            r is Ok ==> final(self).chain@ == old(self).chain@.push(tail) && final(self).lhash@
                == tail.digest(),
            r is Ok && old(self).wf() ==> final(self).wf(),
            r matches Err(e) ==> old(self).refusal(tail) == Some(e.kind) && *final(self) == *old(
                self,
            ),
    {
        match &tail.kind {
            RnKind::Head { id, set } => {
                return Err(error(ErrorKind::Shape, "Record is not a tail type!"));
            },
            RnKind::Tail { hprev } => {},
        }
        let dhash = match tail.check() {
            Ok(dhash) => dhash,
            Err(e) => {
                return Err(e);
            },
        };
        let linked = match &tail.kind {
            RnKind::Head { id, set } => false,
            RnKind::Tail { hprev } => same(self.lhash.as_slice(), hprev.as_slice()),
        };
        if !linked {
            return Err(error(ErrorKind::ChainLink, "Incorrect hash chain!"));
        }
        self.lhash = dhash;
        self.chain.push(tail);
        Ok(())
    }

    /// The file references of the chain, head first: the key of the last
    /// record is derived from the shared point `alpha`, and every record
    /// yields the key of the record before it. Every record's signature is
    /// verified once the record has been unsealed.
    pub fn recover(&self, alpha: &CompressedPoint) -> (r: Result<Vec<RnFileRef>, Error>)
        ensures
            r matches Ok(files) ==> recovered(self.chain@, alpha@) == Ok::<
                Seq<FileRefView>,
                ErrorKind,
            >(file_views(files@)),
            r matches Err(e) ==> recovered(self.chain@, alpha@) == Err::<
                Seq<FileRefView>,
                ErrorKind,
            >(e.kind),
    {
        if self.chain.len() == 0 {
            return Err(error(ErrorKind::Shape, "The chain is empty!"));
        }
        let mut lambda = match &self.chain[0].kind {
            RnKind::Tail { hprev } => {
                return Err(error(ErrorKind::Shape, "Record is not a head type!"));
            },
            RnKind::Head { id, set } => LambdaKey::new(alpha, id.as_str(), set.as_str()),
        };
        let ghost total = recovered(self.chain@, alpha@);
        let mut files: Vec<RnFileRef> = Vec::new();
        let mut k: usize = self.chain.len();
        assert(file_views(files@) =~= Seq::<FileRefView>::empty());
        while k > 0
            invariant
                k <= self.chain@.len(),
                total == recovered(self.chain@, alpha@),
                k > 0 ==> total == then_files(
                    walk(self.chain@, k - 1, lambda@),
                    file_views(files@),
                ),
                k == 0 ==> total == Ok::<Seq<FileRefView>, ErrorKind>(file_views(files@)),
            decreases k,
        {
            k -= 1;
            let data = match self.chain[k].data.data(&lambda) {
                Ok(data) => data,
                Err(e) => {
                    return Err(e);
                },
            };
            let ghost before = file_views(files@);
            let ghost payload = data@;
            let RnData { lambda_prev, file } = data;
            files.insert(0, file);
            assert(file_views(files@) =~= seq![payload.file] + before);
            if k > 0 && lambda_prev.is_none() {
                return Err(error(ErrorKind::Recovery, "No key for the record before!"));
            }
            if k == 0 && lambda_prev.is_some() {
                return Err(error(ErrorKind::Shape, "A head that holds a key!"));
            }
            match self.chain[k].check() {
                Ok(_) => {},
                Err(e) => {
                    return Err(e);
                },
            }
            match lambda_prev {
                None => {},
                Some(prev) => {
                    proof {
                        match walk(self.chain@, k - 1, prev@) {
                            Err(kind) => {},
                            Ok(found) => {
                                assert(found.push(payload.file) + before =~= found + (seq![
                                    payload.file,
                                ] + before));
                            },
                        }
                    }
                    lambda = prev;
                },
            }
        }
        Ok(files)
    }
}

} // verus!
