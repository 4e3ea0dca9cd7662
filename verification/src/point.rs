//! Elements of the Ristretto group, held as their canonical 32-byte encoding.
//!
//! The group is cyclic of prime order and generated by the basepoint `B`, so
//! every element is a multiple `k * B` of it. What the group operations do is
//! stated over those multiples.

use vstd::prelude::*;
use crate::field::{fadd, fmul, fsub, group_order, le_nat, lemma_fmul_reduce};
use crate::scalar::Scalar;
use vstd::arithmetic::div_mod::{
    lemma_add_mod_noop, lemma_mod_bound, lemma_small_mod, lemma_sub_mod_noop,
};
use curve25519_dalek::constants::RISTRETTO_BASEPOINT_POINT;
use curve25519_dalek::ristretto::{CompressedRistretto, RistrettoPoint};
use curve25519_dalek::scalar::Scalar as DalekScalar;

verus! {

/// The compressed encoding of `k * B`, for `k` below the group order.
pub uninterp spec fn basepoint_multiple(k: nat) -> Seq<u8>;

/// Whether 32 bytes are the encoding of a group element.
pub open spec fn is_encoding(bytes: Seq<u8>) -> bool {
    exists|k: nat| k < group_order() && bytes == #[trigger] basepoint_multiple(k)
}

/// `&Scalar * &RISTRETTO_BASEPOINT_POINT`, compressed: the encoding of that
/// multiple of the basepoint.
#[verifier::external_body]
fn dalek_mul_base(k: &[u8; 32]) -> (r: [u8; 32])
    requires
        le_nat(k@) < group_order(),
    ensures
        r@ == basepoint_multiple(le_nat(k@)),
{
    (DalekScalar::from_bits(*k) * RISTRETTO_BASEPOINT_POINT).compress().to_bytes()
}

/// `&Scalar * &RistrettoPoint`, compressed: where the point is `j * B`, the
/// encoding of `(k * j) * B`.
#[verifier::external_body]
fn dalek_mul(k: &[u8; 32], p: &[u8; 32]) -> (r: [u8; 32])
    requires
        le_nat(k@) < group_order(),
        is_encoding(p@),
    ensures
        forall|j: nat|
            j < group_order() && p@ == #[trigger] basepoint_multiple(j) ==> r@
                == basepoint_multiple(fmul(le_nat(k@), j)),
{
    let point: RistrettoPoint = CompressedRistretto(*p).decompress().unwrap();
    (DalekScalar::from_bits(*k) * point).compress().to_bytes()
}

/// `&RistrettoPoint + &RistrettoPoint`, compressed: where the points are
/// `i * B` and `j * B`, the encoding of `(i + j) * B`.
#[verifier::external_body]
fn dalek_add(p: &[u8; 32], q: &[u8; 32]) -> (r: [u8; 32])
    requires
        is_encoding(p@),
        is_encoding(q@),
    ensures
        forall|i: nat, j: nat|
            i < group_order() && j < group_order() && p@ == #[trigger] basepoint_multiple(i) && q@
                == #[trigger] basepoint_multiple(j) ==> r@ == basepoint_multiple(fadd(i, j)),
{
    let a: RistrettoPoint = CompressedRistretto(*p).decompress().unwrap();
    let b: RistrettoPoint = CompressedRistretto(*q).decompress().unwrap();
    (a + b).compress().to_bytes()
}

/// `&RistrettoPoint - &RistrettoPoint`, compressed: where the points are
/// `i * B` and `j * B`, the encoding of `(i - j) * B`.
#[verifier::external_body]
fn dalek_sub(p: &[u8; 32], q: &[u8; 32]) -> (r: [u8; 32])
    requires
        is_encoding(p@),
        is_encoding(q@),
    ensures
        forall|i: nat, j: nat|
            i < group_order() && j < group_order() && p@ == #[trigger] basepoint_multiple(i) && q@
                == #[trigger] basepoint_multiple(j) ==> r@ == basepoint_multiple(fsub(i, j)),
{
    let a: RistrettoPoint = CompressedRistretto(*p).decompress().unwrap();
    let b: RistrettoPoint = CompressedRistretto(*q).decompress().unwrap();
    (a - b).compress().to_bytes()
}

/// `RistrettoPoint::default()`, compressed: the encoding of the identity, `0 * B`.
#[verifier::external_body]
fn dalek_identity() -> (r: [u8; 32])
    ensures
        r@ == basepoint_multiple(0),
{
    RistrettoPoint::default().compress().to_bytes()
}

/// `CompressedRistretto::decompress`: succeeds exactly on the canonical encoding
/// of a group element.
#[verifier::external_body]
fn dalek_decompresses(bytes: &[u8; 32]) -> (r: bool)
    ensures
        r == is_encoding(bytes@),
{
    CompressedRistretto(*bytes).decompress().is_some()
}

/// 32 bytes that may or may not encode a group element.
#[derive(Clone, Copy)]
pub struct CompressedPoint(pub [u8; 32]);

impl View for CompressedPoint {
    type V = Seq<u8>;

    open spec fn view(&self) -> Seq<u8> {
        self.0@
    }
}

impl CompressedPoint {
    /// A copy of the bytes.
    pub fn to_bytes(&self) -> (out: [u8; 32])
        ensures
            out@ == self@,
    {
        self.0
    }

    /// The bytes.
    pub fn as_bytes(&self) -> (out: &[u8; 32])
        ensures
            out@ == self@,
    {
        &self.0
    }

    /// The group element that the bytes encode, if they encode one.
    pub fn decompress(&self) -> (r: Option<Point>)
        ensures
            r is Some <==> is_encoding(self@),
            r matches Some(p) ==> p@ == self@,
    {
        if dalek_decompresses(&self.0) {
            Some(Point { bytes: self.0 })
        } else {
            None
        }
    }
}

/// A group element.
pub struct Point {
    bytes: [u8; 32],
}

impl View for Point {
    type V = Seq<u8>;

    /// The canonical encoding of the element.
    closed spec fn view(&self) -> Seq<u8> {
        self.bytes@
    }
}

impl Clone for Point {
    fn clone(&self) -> (r: Self)
        ensures
            r == *self,
    {
        proof {
            use_type_invariant(self);
        }
        Point { bytes: self.bytes }
    }
}

impl PartialEq for Point {
    fn eq(&self, other: &Point) -> (r: bool) {
        let mut i: usize = 0;
        while i < 32
            invariant
                i <= 32,
                forall|j: int| 0 <= j < i ==> self.bytes@[j] == other.bytes@[j],
            decreases 32 - i,
        {
            if self.bytes[i] != other.bytes[i] {
                return false;
            }
            i += 1;
        }
        assert(self.bytes@ =~= other.bytes@);
        true
    }
}

impl vstd::std_specs::cmp::PartialEqSpecImpl for Point {
    open spec fn obeys_eq_spec() -> bool {
        true
    }

    open spec fn eq_spec(&self, other: &Point) -> bool {
        self@ == other@
    }
}

impl Eq for Point {}

impl Point {
    /// Every point is an element of the group.
    #[verifier::type_invariant]
    pub open spec fn in_group(self) -> bool {
        is_encoding(self@)
    }

    /// Whether the point is `k * B`.
    pub open spec fn is_multiple(&self, k: nat) -> bool {
        self@ == basepoint_multiple(k % group_order())
    }

    /// The encoding has 32 bytes.
    pub proof fn lemma_len(&self)
        ensures
            self@.len() == 32,
    {
    }

    /// The identity of the group, `0 * B`.
    pub fn identity() -> (r: Point)
        ensures
            r.is_multiple(0),
    {
        let bytes = dalek_identity();
        proof {
            lemma_small_mod(0, group_order());
        }
        Point { bytes }
    }

    /// The basepoint `B` itself.
    pub fn basepoint() -> (r: Point)
        ensures
            r.is_multiple(1),
    {
        Point::mul_base(&Scalar::one())
    }

    /// The multiple `k * B` of the basepoint.
    pub fn mul_base(k: &Scalar) -> (r: Point)
        ensures
            r.is_multiple(k@),
    {
        proof {
            use_type_invariant(k);
            lemma_small_mod(k@, group_order());
        }
        let kb = k.to_bytes();
        let bytes = dalek_mul_base(&kb);
        Point { bytes }
    }

    /// The multiple `k * P` of the point: where the point is `j * B`, the
    /// point `(k * j) * B`.
    pub fn mul(&self, k: &Scalar) -> (r: Point)
        ensures
            forall|j: nat| #[trigger] self.is_multiple(j) ==> r.is_multiple(k@ * j),
    {
        proof {
            use_type_invariant(self);
            use_type_invariant(k);
        }
        let kb = k.to_bytes();
        let bytes = dalek_mul(&kb, &self.bytes);
        proof {
            let w = choose|w: nat| w < group_order() && self@ == #[trigger] basepoint_multiple(w);
            lemma_mod_bound((k@ * w) as int, group_order() as int);
            assert(bytes@ == basepoint_multiple(fmul(k@, w)));
            assert forall|j: nat| #[trigger] self.is_multiple(j) implies bytes@
                == basepoint_multiple((k@ * j) % group_order()) by {
                let jr = j % group_order();
                lemma_mod_bound(j as int, group_order() as int);
                assert(self@ == basepoint_multiple(jr));
                lemma_fmul_reduce(k@, j);
            }
        }
        Point { bytes }
    }

    /// The sum of two points: where they are `i * B` and `j * B`, the point
    /// `(i + j) * B`.
    pub fn add(&self, rhs: &Point) -> (r: Point)
        ensures
            forall|i: nat, j: nat|
                #[trigger] self.is_multiple(i) && #[trigger] rhs.is_multiple(j) ==> r.is_multiple(
                    i + j,
                ),
    {
        proof {
            use_type_invariant(self);
            use_type_invariant(rhs);
        }
        let bytes = dalek_add(&self.bytes, &rhs.bytes);
        proof {
            let m = group_order();
            let u = choose|u: nat| u < m && self@ == #[trigger] basepoint_multiple(u);
            let v = choose|v: nat| v < m && rhs@ == #[trigger] basepoint_multiple(v);
            lemma_mod_bound((u + v) as int, m as int);
            assert(bytes@ == basepoint_multiple(fadd(u, v)));
            assert forall|i: nat, j: nat| #[trigger]
                self.is_multiple(i) && #[trigger] rhs.is_multiple(j) implies bytes@
                == basepoint_multiple((i + j) % m) by {
                lemma_mod_bound(i as int, m as int);
                lemma_mod_bound(j as int, m as int);
                assert(self@ == basepoint_multiple(i % m));
                assert(rhs@ == basepoint_multiple(j % m));
                lemma_add_mod_noop(i as int, j as int, m as int);
            }
        }
        Point { bytes }
    }

    /// The difference of two points: where they are `i * B` and `j * B`, the
    /// point `(i - j) * B`.
    pub fn sub(&self, rhs: &Point) -> (r: Point)
        ensures
            forall|i: nat, j: nat|
                #[trigger] self.is_multiple(i) && #[trigger] rhs.is_multiple(j) ==> r.is_multiple(
                    fsub(i, j),
                ),
    {
        proof {
            use_type_invariant(self);
            use_type_invariant(rhs);
        }
        let bytes = dalek_sub(&self.bytes, &rhs.bytes);
        proof {
            let m = group_order();
            let u = choose|u: nat| u < m && self@ == #[trigger] basepoint_multiple(u);
            let v = choose|v: nat| v < m && rhs@ == #[trigger] basepoint_multiple(v);
            lemma_mod_bound(u as int - v as int, m as int);
            assert(bytes@ == basepoint_multiple(fsub(u, v)));
            assert forall|i: nat, j: nat| #[trigger]
                self.is_multiple(i) && #[trigger] rhs.is_multiple(j) implies bytes@
                == basepoint_multiple(fsub(i, j) % m) by {
                lemma_mod_bound(i as int, m as int);
                lemma_mod_bound(j as int, m as int);
                assert(self@ == basepoint_multiple(i % m));
                assert(rhs@ == basepoint_multiple(j % m));
                lemma_sub_mod_noop(i as int, j as int, m as int);
                lemma_mod_bound(i as int - j as int, m as int);
                lemma_small_mod(fsub(i, j), m);
            }
        }
        Point { bytes }
    }

    /// The canonical encoding of the point.
    pub fn compress(&self) -> (r: CompressedPoint)
        ensures
            r@ == self@,
    {
        CompressedPoint(self.bytes)
    }
}

} // verus!
