//! Elements of the scalar field, held as their canonical 32-byte encoding.

use vstd::prelude::*;
use crate::field::{
    fadd, finv, fmul, fneg, fsub, group_order, is_inverse, le_nat, lemma_inverse_unique,
    lemma_le_nat_injective,
};
use vstd::arithmetic::div_mod::{lemma_mod_bound, lemma_small_mod};
use crate::secret::SecretBytes;
use curve25519_dalek::scalar::Scalar as DalekScalar;
use rand_os::OsRng;
use sha2::Sha512;

verus! {

/// A scalar: an integer below the group order, stored in 32 little-endian bytes.
/// The bytes are overwritten with zero when the value is dropped.
pub struct Scalar {
    secret: SecretBytes,
}

impl View for Scalar {
    type V = nat;

    closed spec fn view(&self) -> nat {
        le_nat(self.secret@)
    }
}

/// What SHA-512 returns for a message: 64 bytes.
pub uninterp spec fn sha512_digest(message: Seq<u8>) -> Seq<u8>;

/// The scalar that a message is hashed to: its SHA-512 digest, read as a
/// little-endian number and reduced modulo the group order.
pub open spec fn hash_scalar(message: Seq<u8>) -> nat {
    le_nat(sha512_digest(message)) % group_order()
}

/// `Scalar::from(u64)`: the scalar with that value.
#[verifier::external_body]
fn dalek_from_u64(x: u64) -> (r: [u8; 32])
    ensures
        le_nat(r@) == x,
{
    DalekScalar::from(x).to_bytes()
}

/// `Scalar::from_canonical_bytes`: accepts the bytes exactly when the number they
/// denote is below the group order.
#[verifier::external_body]
fn dalek_is_canonical(bytes: &[u8; 32]) -> (r: bool)
    ensures
        r == (le_nat(bytes@) < group_order()),
{
    DalekScalar::from_canonical_bytes(*bytes).is_some()
}

/// `&Scalar + &Scalar`: the sum modulo the group order.
#[verifier::external_body]
fn dalek_add(a: &Scalar, b: &Scalar) -> (r: [u8; 32])
    ensures
        le_nat(r@) == fadd(a@, b@),
{
    (DalekScalar::from_bits(a.secret.bytes) + DalekScalar::from_bits(b.secret.bytes)).to_bytes()
}

/// `&Scalar - &Scalar`: the difference modulo the group order.
#[verifier::external_body]
fn dalek_sub(a: &Scalar, b: &Scalar) -> (r: [u8; 32])
    ensures
        le_nat(r@) == fsub(a@, b@),
{
    (DalekScalar::from_bits(a.secret.bytes) - DalekScalar::from_bits(b.secret.bytes)).to_bytes()
}

/// `&Scalar * &Scalar`: the product modulo the group order.
#[verifier::external_body]
fn dalek_mul(a: &Scalar, b: &Scalar) -> (r: [u8; 32])
    ensures
        le_nat(r@) == fmul(a@, b@),
{
    (DalekScalar::from_bits(a.secret.bytes) * DalekScalar::from_bits(b.secret.bytes)).to_bytes()
}

/// `Scalar::invert`: for a nonzero scalar its multiplicative inverse, a reduced
/// scalar whose product with the argument is one; for zero, zero.
#[verifier::external_body]
fn dalek_invert(a: &Scalar) -> (r: [u8; 32])
    ensures
        le_nat(r@) < group_order(),
        a@ != 0 ==> fmul(a@, le_nat(r@)) == 1,
        a@ == 0 ==> le_nat(r@) == 0,
{
    DalekScalar::from_bits(a.secret.bytes).invert().to_bytes()
}

/// `Scalar::hash_from_bytes::<Sha512>`: the SHA-512 digest of the message, read
/// as a 512-bit little-endian number and reduced modulo the group order.
#[verifier::external_body]
fn dalek_hash_from_bytes(message: &[u8]) -> (r: [u8; 32])
    ensures
        le_nat(r@) == le_nat(sha512_digest(message@)) % group_order(),
{
    DalekScalar::hash_from_bytes::<Sha512>(message).to_bytes()
}

/// `Scalar::random` over `OsRng`, the operating system's generator: some
/// reduced scalar. It does not return where the system has no generator.
#[verifier::external_body]
fn dalek_random() -> (r: [u8; 32])
    ensures
        le_nat(r@) < group_order(),
{
    let mut csprng: OsRng = OsRng::new().unwrap();
    DalekScalar::random(&mut csprng).to_bytes()
}

impl Clone for Scalar {
    fn clone(&self) -> (r: Self)
        ensures
            r == *self,
    {
        proof {
            use_type_invariant(self);
        }
        Scalar { secret: self.secret.clone() }
    }
}

impl PartialEq for Scalar {
    fn eq(&self, other: &Scalar) -> (r: bool) {
        let mine = self.secret.get();
        let theirs = other.secret.get();
        proof {
            self.secret.lemma_len();
            other.secret.lemma_len();
        }
        let mut i: usize = 0;
        while i < 32
            invariant
                i <= 32,
                mine@ == self.secret@,
                theirs@ == other.secret@,
                forall|j: int| 0 <= j < i ==> mine@[j] == theirs@[j],
            decreases 32 - i,
        {
            if mine[i] != theirs[i] {
                proof {
                    if self@ == other@ {
                        lemma_le_nat_injective(mine@, theirs@);
                    }
                }
                return false;
            }
            i += 1;
        }
        assert(mine@ =~= theirs@);
        true
    }
}

impl vstd::std_specs::cmp::PartialEqSpecImpl for Scalar {
    open spec fn obeys_eq_spec() -> bool {
        true
    }

    open spec fn eq_spec(&self, other: &Scalar) -> bool {
        self@ == other@
    }
}

impl Eq for Scalar {}

impl Scalar {
    /// Every scalar is reduced modulo the group order.
    #[verifier::type_invariant]
    pub open spec fn reduced(self) -> bool {
        self@ < group_order()
    }

    /// The scalar 0.
    pub fn zero() -> (r: Scalar)
        ensures
            r@ == 0,
    {
        Scalar::from_u64(0)
    }

    /// The scalar 1.
    pub fn one() -> (r: Scalar)
        ensures
            r@ == 1,
    {
        Scalar::from_u64(1)
    }

    /// The scalar with the value `x`.
    pub fn from_u64(x: u64) -> (r: Scalar)
        ensures
            r@ == x,
    {
        let bytes = dalek_from_u64(x);
        Scalar { secret: SecretBytes::new(bytes) }
    }

    /// The scalar that 32 bytes denote, where they are its canonical encoding.
    pub fn from_canonical_bytes(bytes: [u8; 32]) -> (r: Option<Scalar>)
        ensures
            r is Some <==> le_nat(bytes@) < group_order(),
            r matches Some(s) ==> s@ == le_nat(bytes@) && s.encoding() == bytes@,
    {
        if dalek_is_canonical(&bytes) {
            Some(Scalar { secret: SecretBytes::new(bytes) })
        } else {
            None
        }
    }

    /// The canonical encoding: 32 bytes, little-endian.
    pub closed spec fn encoding(&self) -> Seq<u8> {
        self.secret@
    }

    /// The encoding denotes the scalar's value, and no other 32 bytes do.
    pub proof fn lemma_encoding(&self)
        ensures
            self.encoding().len() == 32,
            le_nat(self.encoding()) == self@,
            forall|other: Seq<u8>|
                other.len() == 32 && le_nat(other) == self@ ==> other == self.encoding(),
    {
        self.secret.lemma_len();
        assert forall|other: Seq<u8>| other.len() == 32 && le_nat(other) == self@ implies other
            == self.encoding() by {
            lemma_le_nat_injective(other, self.secret@);
        }
    }

    /// The canonical encoding of the scalar.
    pub fn to_bytes(&self) -> (out: [u8; 32])
        ensures
            out@ == self.encoding(),
            le_nat(out@) == self@,
    {
        self.secret.get()
    }

    /// Overwrites the scalar with zero.
    pub fn clear(&mut self)
        ensures
            final(self)@ == 0,
    {
        self.secret.clear();
    }

    /// The sum of two scalars.
    pub fn add(&self, rhs: &Scalar) -> (r: Scalar)
        ensures
            r@ == fadd(self@, rhs@),
    {
        let bytes = dalek_add(self, rhs);
        proof {
            lemma_mod_bound((self@ + rhs@) as int, group_order() as int);
        }
        Scalar { secret: SecretBytes::new(bytes) }
    }

    /// The difference of two scalars.
    pub fn sub(&self, rhs: &Scalar) -> (r: Scalar)
        ensures
            r@ == fsub(self@, rhs@),
    {
        let bytes = dalek_sub(self, rhs);
        proof {
            lemma_mod_bound(self@ as int - rhs@ as int, group_order() as int);
        }
        Scalar { secret: SecretBytes::new(bytes) }
    }

    /// The product of two scalars.
    pub fn mul(&self, rhs: &Scalar) -> (r: Scalar)
        ensures
            r@ == fmul(self@, rhs@),
    {
        let bytes = dalek_mul(self, rhs);
        proof {
            lemma_mod_bound((self@ * rhs@) as int, group_order() as int);
        }
        Scalar { secret: SecretBytes::new(bytes) }
    }

    /// The negation of a scalar.
    pub fn neg(&self) -> (r: Scalar)
        ensures
            r@ == fneg(self@),
    {
        Scalar::zero().sub(self)
    }

    /// The multiplicative inverse of a scalar; 0 where it has none.
    pub fn invert(&self) -> (r: Scalar)
        ensures
            r@ == finv(self@),
    {
        let bytes = dalek_invert(self);
        proof {
            use_type_invariant(self);
            lemma_finv_unique(self@, le_nat(bytes@));
        }
        Scalar { secret: SecretBytes::new(bytes) }
    }

    /// The scalar that a message is hashed to.
    pub fn hash_from_bytes(message: &[u8]) -> (r: Scalar)
        ensures
            r@ == hash_scalar(message@),
    {
        let bytes = dalek_hash_from_bytes(message);
        proof {
            lemma_mod_bound(le_nat(sha512_digest(message@)) as int, group_order() as int);
        }
        Scalar { secret: SecretBytes::new(bytes) }
    }
}

/// A scalar drawn uniformly at random by the operating system's generator.
pub fn rnd_scalar() -> (r: Scalar) {
    let bytes = dalek_random();
    Scalar { secret: SecretBytes::new(bytes) }
}

/// What `invert` hands back is `finv`: an inverse is unique, and zero has none.
proof fn lemma_finv_unique(a: nat, r: nat)
    requires
        a < group_order(),
        r < group_order(),
        a != 0 ==> fmul(a, r) == 1,
        a == 0 ==> r == 0,
    ensures
        r == finv(a),
{
    if a == 0 {
        assert forall|b: nat| !is_inverse(a, b) by {
            assert(a * b == 0) by (nonlinear_arith)
                requires
                    a == 0,
            ;
            lemma_small_mod(0, group_order());
        }
    } else {
        assert(is_inverse(a, r));
        let b = finv(a);
        assert(is_inverse(a, b));
        lemma_inverse_unique(a, r, b);
    }
}

} // verus!
