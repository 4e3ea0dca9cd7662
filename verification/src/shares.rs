//! Shamir secret sharing over the scalar field: polynomials, shares of their
//! value at zero, and the recovery of that value from shares, on scalars and
//! on points.

use vstd::prelude::*;
use vstd::std_specs::cmp::PartialEqSpec;
use crate::error::{error, Error, ErrorKind};
use crate::field::{
    fadd, finv, fmul, fneg, fsub, group_order, lemma_fadd_reduce, lemma_fmul_reduce,
};
use vstd::arithmetic::div_mod::{lemma_mod_twice, lemma_small_mod};
use crate::point::Point;
use crate::scalar::{rnd_scalar, Scalar};

verus! {

/// The value at `x` of the polynomial with the given coefficients, lowest first.
pub open spec fn poly_eval(coeffs: Seq<nat>, x: nat) -> nat
    decreases coeffs.len(),
{
    if coeffs.len() == 0 {
        0
    } else {
        fadd(coeffs[0], fmul(x, poly_eval(coeffs.drop_first(), x)))
    }
}

/// The product of `xs[j]` over the `j < n` other than `i`.
pub open spec fn basis_num(xs: Seq<nat>, i: int, n: nat) -> nat
    decreases n,
{
    if n == 0 {
        1
    } else if n - 1 == i {
        basis_num(xs, i, (n - 1) as nat)
    } else {
        fmul(basis_num(xs, i, (n - 1) as nat), xs[n - 1])
    }
}

/// The product of `xs[j] - xs[i]` over the `j < n` other than `i`.
pub open spec fn basis_den(xs: Seq<nat>, i: int, n: nat) -> nat
    decreases n,
{
    if n == 0 {
        1
    } else if n - 1 == i {
        basis_den(xs, i, (n - 1) as nat)
    } else {
        fmul(basis_den(xs, i, (n - 1) as nat), fsub(xs[n - 1], xs[i]))
    }
}

/// The Lagrange basis polynomial of the node `xs[i]` among the nodes `xs`,
/// taken at zero: the product of `xs[j] / (xs[j] - xs[i])` over `j != i`.
pub open spec fn lagrange_basis(xs: Seq<nat>, i: int) -> nat {
    fmul(basis_num(xs, i, xs.len()), finv(basis_den(xs, i, xs.len())))
}

/// The sum of `lagrange_basis(xs, i) * ys[i]` over `i < n`.
pub open spec fn recover_sum(xs: Seq<nat>, ys: Seq<nat>, n: nat) -> nat
    decreases n,
{
    if n == 0 {
        0
    } else {
        fadd(recover_sum(xs, ys, (n - 1) as nat), fmul(lagrange_basis(xs, n - 1), ys[n - 1]))
    }
}

/// What the shares `(xs[i], ys[i])` interpolate to at zero.
pub open spec fn recover_value(xs: Seq<nat>, ys: Seq<nat>) -> nat {
    recover_sum(xs, ys, xs.len())
}

/// The values of a sequence of scalars.
pub open spec fn scalar_values(v: Seq<Scalar>) -> Seq<nat> {
    Seq::new(v.len(), |k: int| v[k]@)
}

/// Whether each point of `v` is the multiple `ks[k] * B` of the basepoint.
pub open spec fn are_multiples(v: Seq<Point>, ks: Seq<nat>) -> bool {
    v.len() == ks.len() && forall|k: int| 0 <= k < v.len() ==> (#[trigger] v[k]).is_multiple(ks[k])
}

/// A share of a secret: the value `yi` of the sharing polynomial at `i`.
pub struct Share {
    pub i: u32,
    pub yi: Scalar,
}

impl Clone for Share {
    fn clone(&self) -> (r: Self)
        ensures
            r == *self,
    {
        Share { i: self.i, yi: self.yi.clone() }
    }
}

impl Share {
    /// The sum of two shares of one party.
    pub fn add(&self, rhs: &Share) -> (r: Share)
        requires
            self.i == rhs.i,
        ensures
            r.i == self.i,
            r.yi@ == fadd(self.yi@, rhs.yi@),
    {
        Share { i: self.i, yi: self.yi.add(&rhs.yi) }
    }

    /// The share moved up by a scalar.
    pub fn add_scalar(&self, rhs: &Scalar) -> (r: Share)
        ensures
            r.i == self.i,
            r.yi@ == fadd(self.yi@, rhs@),
    {
        Share { i: self.i, yi: self.yi.add(rhs) }
    }

    /// The difference of two shares of one party.
    pub fn sub(&self, rhs: &Share) -> (r: Share)
        requires
            self.i == rhs.i,
        ensures
            r.i == self.i,
            r.yi@ == fsub(self.yi@, rhs.yi@),
    {
        Share { i: self.i, yi: self.yi.sub(&rhs.yi) }
    }

    /// The share moved down by a scalar.
    pub fn sub_scalar(&self, rhs: &Scalar) -> (r: Share)
        ensures
            r.i == self.i,
            r.yi@ == fsub(self.yi@, rhs@),
    {
        Share { i: self.i, yi: self.yi.sub(rhs) }
    }

    /// The share scaled by a scalar.
    pub fn mul_scalar(&self, rhs: &Scalar) -> (r: Share)
        ensures
            r.i == self.i,
            r.yi@ == fmul(self.yi@, rhs@),
    {
        Share { i: self.i, yi: self.yi.mul(rhs) }
    }

    /// The share in the exponent of a point: `(i, yi * Q)`.
    pub fn lift_to_point(&self, q: &Point) -> (r: RistrettoShare)
        ensures
            r.i == self.i,
            forall|j: nat| #[trigger] q.is_multiple(j) ==> r.Yi.is_multiple(self.yi@ * j),
    {
        RistrettoShare { i: self.i, Yi: q.mul(&self.yi) }
    }
}

/// A share in the exponent: the point `Yi = yi * Q` for a share `(i, yi)`.
#[allow(non_snake_case)]
pub struct RistrettoShare {
    pub i: u32,
    pub Yi: Point,
}

impl Clone for RistrettoShare {
    fn clone(&self) -> (r: Self)
        ensures
            r == *self,
    {
        RistrettoShare { i: self.i, Yi: self.Yi.clone() }
    }
}

impl RistrettoShare {
    /// The share moved up by a point.
    pub fn add_point(&self, rhs: &Point) -> (r: RistrettoShare)
        ensures
            r.i == self.i,
            forall|a: nat, b: nat|
                #[trigger] self.Yi.is_multiple(a) && #[trigger] rhs.is_multiple(b)
                    ==> r.Yi.is_multiple(a + b),
    {
        RistrettoShare { i: self.i, Yi: self.Yi.add(rhs) }
    }

    /// The share moved down by a point.
    pub fn sub_point(&self, rhs: &Point) -> (r: RistrettoShare)
        ensures
            r.i == self.i,
            forall|a: nat, b: nat|
                #[trigger] self.Yi.is_multiple(a) && #[trigger] rhs.is_multiple(b)
                    ==> r.Yi.is_multiple(fsub(a, b)),
    {
        RistrettoShare { i: self.i, Yi: self.Yi.sub(rhs) }
    }

    /// The share scaled by a scalar.
    pub fn mul_scalar(&self, rhs: &Scalar) -> (r: RistrettoShare)
        ensures
            r.i == self.i,
            forall|a: nat| #[trigger] self.Yi.is_multiple(a) ==> r.Yi.is_multiple(rhs@ * a),
    {
        RistrettoShare { i: self.i, Yi: self.Yi.mul(rhs) }
    }
}

/// The shares of several parties.
#[derive(Clone)]
pub struct ShareVector(pub Vec<Share>);

/// The shares of several parties, in the exponent.
#[derive(Clone)]
pub struct RistrettoShareVector(pub Vec<RistrettoShare>);

/// Whether no index occurs twice.
pub open spec fn distinct(xs: Seq<nat>) -> bool {
    forall|a: int, b: int| 0 <= a < b < xs.len() ==> xs[a] != xs[b]
}

/// Each index as a scalar.
fn index_scalars_of_shares(shares: &Vec<Share>) -> (range: Vec<Scalar>)
    ensures
        range@.len() == shares@.len(),
        scalar_values(range@) == Seq::new(shares@.len(), |k: int| shares@[k].i as nat),
{
    let mut range: Vec<Scalar> = Vec::new();
    let mut k: usize = 0;
    while k < shares.len()
        invariant
            k <= shares.len(),
            range@.len() == k,
            forall|j: int| 0 <= j < k ==> range@[j]@ == shares@[j].i as nat,
        decreases shares.len() - k,
    {
        range.push(Scalar::from_u64(shares[k].i as u64));
        k += 1;
    }
    assert(scalar_values(range@) =~= Seq::new(shares@.len(), |k: int| shares@[k].i as nat));
    range
}

/// Each index as a scalar.
fn index_scalars_of_point_shares(shares: &Vec<RistrettoShare>) -> (range: Vec<Scalar>)
    ensures
        range@.len() == shares@.len(),
        scalar_values(range@) == Seq::new(shares@.len(), |k: int| shares@[k].i as nat),
{
    let mut range: Vec<Scalar> = Vec::new();
    let mut k: usize = 0;
    while k < shares.len()
        invariant
            k <= shares.len(),
            range@.len() == k,
            forall|j: int| 0 <= j < k ==> range@[j]@ == shares@[j].i as nat,
        decreases shares.len() - k,
    {
        range.push(Scalar::from_u64(shares[k].i as u64));
        k += 1;
    }
    assert(scalar_values(range@) =~= Seq::new(shares@.len(), |k: int| shares@[k].i as nat));
    range
}

impl ShareVector {
    /// The parties' indices.
    pub open spec fn indices(&self) -> Seq<nat> {
        Seq::new(self.0@.len(), |k: int| self.0@[k].i as nat)
    }

    /// The parties' values.
    pub open spec fn values(&self) -> Seq<nat> {
        Seq::new(self.0@.len(), |k: int| self.0@[k].yi@)
    }

    /// A set of shares that suffices for a sharing of the given threshold: more
    /// shares than the threshold, no two of one party.
    pub fn new(shares: Vec<Share>, threshold: usize) -> (r: Result<ShareVector, Error>)
        ensures
            r is Ok <==> shares@.len() > threshold && distinct(
                Seq::new(shares@.len(), |k: int| shares@[k].i as nat),
            ),
            r matches Ok(v) ==> v.0 == shares,
            r matches Err(e) ==> e.kind == ErrorKind::Threshold,
    {
        let ghost xs = Seq::new(shares@.len(), |k: int| shares@[k].i as nat);
        if shares.len() <= threshold {
            return Err(error(ErrorKind::Threshold, "Too few shares for the threshold!"));
        }
        let mut b: usize = 0;
        while b < shares.len()
            invariant
                b <= shares.len(),
                xs == Seq::new(shares@.len(), |k: int| shares@[k].i as nat),
                forall|u: int, v: int| 0 <= u < v < b ==> xs[u] != xs[v],
            decreases shares.len() - b,
        {
            let mut a: usize = 0;
            while a < b
                invariant
                    a <= b < shares.len(),
                    xs == Seq::new(shares@.len(), |k: int| shares@[k].i as nat),
                    forall|u: int| 0 <= u < a ==> xs[u] != xs[b as int],
                decreases b - a,
            {
                if shares[a].i == shares[b].i {
                    assert(xs[a as int] == xs[b as int]);
                    return Err(error(ErrorKind::Threshold, "Two shares of one party!"));
                }
                a += 1;
            }
            b += 1;
        }
        Ok(ShareVector(shares))
    }

    /// The secret that the shares interpolate to at zero.
    pub fn recover(&self) -> (r: Scalar)
        ensures
            r@ == recover_value(self.indices(), self.values()),
    {
        let range = index_scalars_of_shares(&self.0);
        let ghost xs = self.indices();
        let ghost ys = self.values();
        let n = self.0.len();
        let mut acc = Scalar::zero();
        let mut i: usize = 0;
        proof {
            lemma_small_mod(0, group_order());
        }
        while i < n
            invariant
                i <= n,
                n == self.0@.len(),
                range@.len() == n,
                scalar_values(range@) == xs,
                xs == self.indices(),
                ys == self.values(),
                acc@ == recover_sum(xs, ys, i as nat),
            decreases n - i,
        {
            let li = Polynomial::l_i(range.as_slice(), i);
            acc = acc.add(&li.mul(&self.0[i].yi));
            i += 1;
        }
        acc
    }

    /// The shares in the exponent of a point: each `(i, yi * Q)`.
    pub fn lift_to_point(&self, q: &Point) -> (r: RistrettoShareVector)
        ensures
            r.indices() == self.indices(),
            forall|j: nat, k: int|
                #[trigger] q.is_multiple(j) && 0 <= k < self.0@.len() ==> (
                #[trigger] r.0@[k]).Yi.is_multiple(self.0@[k].yi@ * j),
    {
        let mut out: Vec<RistrettoShare> = Vec::new();
        let mut k: usize = 0;
        while k < self.0.len()
            invariant
                k <= self.0@.len(),
                out@.len() == k,
                forall|u: int| 0 <= u < k ==> out@[u].i == self.0@[u].i,
                forall|j: nat, u: int|
                    #[trigger] q.is_multiple(j) && 0 <= u < k ==> (
                    #[trigger] out@[u]).Yi.is_multiple(self.0@[u].yi@ * j),
            decreases self.0@.len() - k,
        {
            let share = self.0[k].lift_to_point(q);
            out.push(share);
            k += 1;
        }
        let r = RistrettoShareVector(out);
        assert(r.indices() =~= self.indices());
        r
    }
}

impl RistrettoShareVector {
    /// The parties' indices.
    pub open spec fn indices(&self) -> Seq<nat> {
        Seq::new(self.0@.len(), |k: int| self.0@[k].i as nat)
    }

    /// The parties' points.
    pub open spec fn points(&self) -> Seq<Point> {
        Seq::new(self.0@.len(), |k: int| self.0@[k].Yi)
    }

    /// The point that the shares interpolate to at zero: where the shares'
    /// points are `ks[i] * B`, the multiple of `B` that the `ks` interpolate to.
    pub fn recover(&self) -> (r: Point)
        ensures
            forall|ks: Seq<nat>| #[trigger]
                are_multiples(self.points(), ks) ==> r.is_multiple(
                    recover_value(self.indices(), ks),
                ),
    {
        let range = index_scalars_of_point_shares(&self.0);
        let ghost xs = self.indices();
        let n = self.0.len();
        let mut acc = Point::identity();
        let mut i: usize = 0;
        while i < n
            invariant
                i <= n,
                n == self.0@.len(),
                range@.len() == n,
                scalar_values(range@) == xs,
                xs == self.indices(),
                forall|ks: Seq<nat>| #[trigger]
                    are_multiples(self.points(), ks) ==> acc.is_multiple(
                        recover_sum(xs, ks, i as nat),
                    ),
            decreases n - i,
        {
            let li = Polynomial::l_i(range.as_slice(), i);
            let term = self.0[i].Yi.mul(&li);
            let next = acc.add(&term);
            proof {
                assert forall|ks: Seq<nat>| #[trigger]
                    are_multiples(self.points(), ks) implies next.is_multiple(
                    recover_sum(xs, ks, (i + 1) as nat),
                ) by {
                    let s = recover_sum(xs, ks, i as nat);
                    assert(self.points()[i as int] == self.0@[i as int].Yi);
                    assert(self.points()[i as int].is_multiple(ks[i as int]));
                    assert(term.is_multiple(li@ * ks[i as int]));
                    assert(acc.is_multiple(s));
                    assert(next.is_multiple(s + li@ * ks[i as int]));
                    lemma_fadd_reduce(s, li@ * ks[i as int]);
                    lemma_mod_twice(
                        (s + li@ * ks[i as int]) as int,
                        group_order() as int,
                    );
                }
            }
            acc = next;
            i += 1;
        }
        acc
    }
}

/// The place of the first element of `v` that equals `elm`, or the length of
/// `v` where none does.
pub open spec fn first_place<Z: PartialEq>(v: Seq<Z>, elm: Z) -> nat
    decreases v.len(),
{
    if v.len() == 0 || v[0].eq_spec(&elm) {
        0
    } else {
        1 + first_place(v.drop_first(), elm)
    }
}

/// Cuts the end of a vector off: where `elm` occurs in it, for the first time
/// at place `j`, as many elements are kept as follow that place.
pub fn cut_tail<Z: Eq>(v: &mut Vec<Z>, elm: Z)
    requires
        Z::obeys_eq_spec(),
    ensures
        first_place(old(v)@, elm) < old(v)@.len() ==> final(v)@ == old(v)@.subrange(
            0,
            old(v)@.len() - 1 - first_place(old(v)@, elm),
        ),
        first_place(old(v)@, elm) >= old(v)@.len() ==> final(v)@ == old(v)@,
{
    let n = v.len();
    let mut j: usize = 0;
    assert(v@.subrange(0, n as int) =~= v@);
    while j < n
        invariant
            j <= n == v@.len(),
            v@ == old(v)@,
            Z::obeys_eq_spec(),
            first_place(v@, elm) == j + first_place(v@.subrange(j as int, n as int), elm),
        decreases n - j,
    {
        if v[j] == elm {
            v.truncate(n - 1 - j);
            return ;
        }
        proof {
            let rest = v@.subrange(j as int, n as int);
            assert(rest.drop_first() =~= v@.subrange(j + 1, n as int));
        }
        j += 1;
    }
}

/// The coefficients of `x + b` times a polynomial whose highest coefficient
/// is one.
pub open spec fn short_mul_spec(a: Seq<nat>, b: nat) -> Seq<nat> {
    Seq::new(
        a.len() + 1,
        |k: int|
            if k == 0 {
                fmul(a[0], b)
            } else if k < a.len() {
                fadd(a[k - 1], fmul(a[k], b))
            } else {
                1
            },
    )
}

/// The coefficients of the product of `x - xs[j]` over the `j < n` other than
/// `i`: the numerator of the basis polynomial of the node `xs[i]`.
pub open spec fn numerator(xs: Seq<nat>, i: int, n: nat) -> Seq<nat>
    decreases n,
{
    if n == 0 {
        seq![1nat]
    } else if n - 1 == i {
        numerator(xs, i, (n - 1) as nat)
    } else {
        short_mul_spec(numerator(xs, i, (n - 1) as nat), fneg(xs[n - 1]))
    }
}

/// The product of `xs[i] - xs[j]` over the `j < n` other than `i`: the
/// denominator of the basis polynomial of the node `xs[i]`.
pub open spec fn denominator(xs: Seq<nat>, i: int, n: nat) -> nat
    decreases n,
{
    if n == 0 {
        1
    } else if n - 1 == i {
        denominator(xs, i, (n - 1) as nat)
    } else {
        fmul(denominator(xs, i, (n - 1) as nat), fsub(xs[i], xs[n - 1]))
    }
}

/// Multiplies a polynomial whose highest coefficient is one by `x + b`, in
/// place.
pub fn short_mul(a: &mut Vec<Scalar>, b: Scalar)
    requires
        old(a)@.len() > 0,
    ensures
        final(a)@.len() == old(a)@.len() + 1,
        scalar_values(final(a)@) == short_mul_spec(scalar_values(old(a)@), b@),
{
    let ghost before = scalar_values(a@);
    let mut out: Vec<Scalar> = Vec::new();
    out.push(a[0].mul(&b));
    let mut k: usize = 1;
    while k < a.len()
        invariant
            1 <= k <= a@.len(),
            before == scalar_values(a@),
            out@.len() == k,
            forall|j: int| 0 <= j < k ==> out@[j]@ == short_mul_spec(before, b@)[j],
        decreases a@.len() - k,
    {
        out.push(a[k - 1].add(&a[k].mul(&b)));
        k += 1;
    }
    out.push(Scalar::one());
    *a = out;
    assert(scalar_values(a@) =~= short_mul_spec(before, b@));
}

/// The basis polynomial of the node `range[i]` in parts: the coefficients of
/// its numerator, and the inverse of its denominator.
pub fn lx_num_bar(range: &[Scalar], i: usize) -> (r: (Vec<Scalar>, Scalar))
    requires
        i < range@.len(),
    ensures
        scalar_values(r.0@) == numerator(scalar_values(range@), i as int, range@.len()),
        r.1@ == finv(denominator(scalar_values(range@), i as int, range@.len())),
{
    let ghost xs = scalar_values(range@);
    let mut num: Vec<Scalar> = Vec::new();
    num.push(Scalar::one());
    let mut denum = Scalar::one();
    assert(scalar_values(num@) =~= numerator(xs, i as int, 0));
    let mut j: usize = 0;
    while j < range.len()
        invariant
            j <= range@.len(),
            i < range@.len(),
            xs == scalar_values(range@),
            num@.len() > 0,
            scalar_values(num@) == numerator(xs, i as int, j as nat),
            denum@ == denominator(xs, i as int, j as nat),
        decreases range@.len() - j,
    {
        if j != i {
            short_mul(&mut num, range[j].neg());
            denum = denum.mul(&range[i].sub(&range[j]));
        }
        j += 1;
    }
    (num, denum.invert())
}

/// What can be evaluated at a scalar.
pub trait Evaluate {
    type Output;

    /// Whether there is anything to evaluate: at least one coefficient.
    spec fn evaluable(&self) -> bool;

    /// Whether `out` is the value at `x`.
    spec fn evaluates_to(&self, x: nat, out: Self::Output) -> bool;

    /// The value at `x`, by Horner's rule from the highest coefficient down.
    fn evaluate(&self, x: &Scalar) -> (out: Self::Output)
        requires
            self.evaluable(),
        ensures
            self.evaluates_to(x@, out),
    ;
}

/// What has a degree.
pub trait Degree {
    /// The number of coefficients.
    spec fn terms(&self) -> nat;

    /// The degree: one less than the number of coefficients.
    fn degree(&self) -> (d: usize)
        requires
            self.terms() > 0,
        ensures
            d == self.terms() - 1,
    ;
}

/// A polynomial over the scalar field, by its coefficients, lowest first. The
/// coefficient `a[0]` is the secret that the polynomial shares.
#[derive(Clone, PartialEq, Eq)]
pub struct Polynomial {
    pub a: Vec<Scalar>,
}

/// A polynomial in the exponent: the points `A[k] = a[k] * Q`, a public
/// commitment to a polynomial.
#[allow(non_snake_case)]
#[derive(Clone, PartialEq, Eq)]
pub struct RistrettoPolynomial {
    pub A: Vec<Point>,
}

impl Polynomial {
    /// The coefficients' values.
    pub open spec fn coefficients(&self) -> Seq<nat> {
        scalar_values(self.a@)
    }

    /// The polynomial with every coefficient scaled by a scalar.
    pub fn mul_scalar(&self, rhs: &Scalar) -> (r: Polynomial)
        ensures
            r.a@.len() == self.a@.len(),
            forall|k: int| 0 <= k < self.a@.len() ==> r.a@[k]@ == fmul(self.a@[k]@, rhs@),
    {
        let mut out: Vec<Scalar> = Vec::new();
        let mut k: usize = 0;
        while k < self.a.len()
            invariant
                k <= self.a@.len(),
                out@.len() == k,
                forall|u: int| 0 <= u < k ==> out@[u]@ == fmul(self.a@[u]@, rhs@),
            decreases self.a@.len() - k,
        {
            out.push(self.a[k].mul(rhs));
            k += 1;
        }
        Polynomial { a: out }
    }

    /// The polynomial in the exponent of a point: the commitment `a[k] * Q`.
    pub fn lift_to_point(&self, q: &Point) -> (r: RistrettoPolynomial)
        ensures
            r.A@.len() == self.a@.len(),
            forall|j: nat, k: int|
                #[trigger] q.is_multiple(j) && 0 <= k < self.a@.len() ==> (
                #[trigger] r.A@[k]).is_multiple(self.a@[k]@ * j),
    {
        let mut out: Vec<Point> = Vec::new();
        let mut k: usize = 0;
        while k < self.a.len()
            invariant
                k <= self.a@.len(),
                out@.len() == k,
                forall|j: nat, u: int|
                    #[trigger] q.is_multiple(j) && 0 <= u < k ==> (#[trigger] out@[u]).is_multiple(
                        self.a@[u]@ * j,
                    ),
            decreases self.a@.len() - k,
        {
            let point = q.mul(&self.a[k]);
            out.push(point);
            k += 1;
        }
        RistrettoPolynomial { A: out }
    }

    /// A polynomial of the given degree that shares `secret`: its constant
    /// coefficient is the secret, the others are drawn at random.
    pub fn rnd(secret: Scalar, degree: usize) -> (r: Polynomial)
        ensures
            r.a@.len() == degree + 1,
            r.a@[0]@ == secret@,
    {
        let ghost s = secret@;
        let mut coefs: Vec<Scalar> = Vec::new();
        coefs.push(secret);
        let mut k: usize = 0;
        while k < degree
            invariant
                k <= degree,
                coefs@.len() == k + 1,
                coefs@[0]@ == s,
            decreases degree - k,
        {
            coefs.push(rnd_scalar());
            k += 1;
        }
        Polynomial { a: coefs }
    }

    /// The Lagrange basis polynomial of the node `range[i]`, taken at zero.
    pub fn l_i(range: &[Scalar], i: usize) -> (r: Scalar)
        requires
            i < range@.len(),
        ensures
            r@ == lagrange_basis(scalar_values(range@), i as int),
    {
        let ghost xs = scalar_values(range@);
        let mut num = Scalar::one();
        let mut denum = Scalar::one();
        let mut j: usize = 0;
        while j < range.len()
            invariant
                j <= range@.len(),
                i < range@.len(),
                xs == scalar_values(range@),
                num@ == basis_num(xs, i as int, j as nat),
                denum@ == basis_den(xs, i as int, j as nat),
            decreases range@.len() - j,
        {
            if j != i {
                num = num.mul(&range[j]);
                denum = denum.mul(&range[j].sub(&range[i]));
            }
            j += 1;
        }
        num.mul(&denum.invert())
    }

    /// The shares of the parties `1..=n`: each `(i, f(i))`.
    pub fn shares(&self, n: usize) -> (r: ShareVector)
        requires
            self.a@.len() > 0,
            n <= u32::MAX,
        ensures
            r.0@.len() == n,
            forall|k: int|
                0 <= k < n ==> (#[trigger] r.0@[k]).i == k + 1 && r.0@[k].yi@ == poly_eval(
                    self.coefficients(),
                    (k + 1) as nat,
                ),
    {
        let mut shares: Vec<Share> = Vec::new();
        let mut j: usize = 0;
        while j < n
            invariant
                j <= n <= u32::MAX,
                self.a@.len() > 0,
                shares@.len() == j,
                forall|k: int|
                    0 <= k < j ==> (#[trigger] shares@[k]).i == k + 1 && shares@[k].yi@
                        == poly_eval(self.coefficients(), (k + 1) as nat),
            decreases n - j,
        {
            j += 1;
            let x = Scalar::from_u64(j as u64);
            let share = Share { i: j as u32, yi: self.evaluate(&x) };
            shares.push(share);
        }
        ShareVector(shares)
    }
}

impl Evaluate for Polynomial {
    type Output = Scalar;

    open spec fn evaluable(&self) -> bool {
        self.a@.len() > 0
    }

    open spec fn evaluates_to(&self, x: nat, out: Scalar) -> bool {
        out@ == poly_eval(self.coefficients(), x)
    }

    fn evaluate(&self, x: &Scalar) -> (out: Scalar) {
        let n = self.a.len();
        let ghost cs = self.coefficients();
        let mut k: usize = n - 1;
        let top = &self.a[k];
        let mut partial = top.clone();
        proof {
            use_type_invariant(top);
            let tail = cs.subrange(k as int, n as int);
            assert(tail.drop_first() =~= Seq::<nat>::empty());
            assert(poly_eval(tail.drop_first(), x@) == 0);
            assert(x@ * 0 == 0) by (nonlinear_arith);
            lemma_small_mod(0, group_order());
            lemma_small_mod(top@, group_order());
        }
        while k > 0
            invariant
                k < n,
                n == self.a@.len(),
                cs == self.coefficients(),
                partial@ == poly_eval(cs.subrange(k as int, n as int), x@),
            decreases k,
        {
            k -= 1;
            let next = partial.mul(x).add(&self.a[k]);
            proof {
                let tail = cs.subrange(k as int, n as int);
                assert(tail.drop_first() =~= cs.subrange(k + 1, n as int));
                lemma_fmul_reduce(partial@, x@);
                lemma_fadd_reduce(fmul(partial@, x@), cs[k as int]);
            }
            partial = next;
        }
        assert(cs.subrange(0, n as int) =~= cs);
        partial
    }
}

impl Degree for Polynomial {
    open spec fn terms(&self) -> nat {
        self.a@.len()
    }

    fn degree(&self) -> (d: usize) {
        self.a.len() - 1
    }
}

impl RistrettoPolynomial {
    /// Whether the share lies on the committed polynomial: `Yi == F(i)`.
    pub fn verify(&self, share: &RistrettoShare) -> (ok: bool)
        requires
            self.A@.len() > 0,
        ensures
            forall|ks: Seq<nat>| #[trigger]
                are_multiples(self.A@, ks) ==> (ok <==> share.Yi.is_multiple(
                    poly_eval(ks, share.i as nat),
                )),
    {
        let x = Scalar::from_u64(share.i as u64);
        let value = self.evaluate(&x);
        share.Yi == value
    }

    /// The committed polynomial with every coefficient scaled by a scalar.
    pub fn mul_scalar(&self, rhs: &Scalar) -> (r: RistrettoPolynomial)
        ensures
            r.A@.len() == self.A@.len(),
            forall|j: nat, k: int|
                0 <= k < self.A@.len() && #[trigger] self.A@[k].is_multiple(j)
                    ==> r.A@[k].is_multiple(rhs@ * j),
    {
        let mut out: Vec<Point> = Vec::new();
        let mut k: usize = 0;
        while k < self.A.len()
            invariant
                k <= self.A@.len(),
                out@.len() == k,
                forall|j: nat, u: int|
                    0 <= u < k && #[trigger] self.A@[u].is_multiple(j) ==> out@[u].is_multiple(
                        rhs@ * j,
                    ),
            decreases self.A@.len() - k,
        {
            let point = self.A[k].mul(rhs);
            out.push(point);
            k += 1;
        }
        RistrettoPolynomial { A: out }
    }
}

impl Evaluate for RistrettoPolynomial {
    type Output = Point;

    open spec fn evaluable(&self) -> bool {
        self.A@.len() > 0
    }

    open spec fn evaluates_to(&self, x: nat, out: Point) -> bool {
        forall|ks: Seq<nat>| #[trigger]
            are_multiples(self.A@, ks) ==> out.is_multiple(poly_eval(ks, x))
    }

    fn evaluate(&self, x: &Scalar) -> (out: Point) {
        let n = self.A.len();
        let mut k: usize = n - 1;
        let mut partial = self.A[k].clone();
        proof {
            assert forall|ks: Seq<nat>| #[trigger]
                are_multiples(self.A@, ks) implies partial.is_multiple(
                poly_eval(ks.subrange(k as int, n as int), x@),
            ) by {
                let tail = ks.subrange(k as int, n as int);
                assert(tail.drop_first() =~= Seq::<nat>::empty());
                assert(poly_eval(tail.drop_first(), x@) == 0);
                assert(x@ * 0 == 0) by (nonlinear_arith);
                lemma_small_mod(0, group_order());
                assert(self.A@[k as int].is_multiple(ks[k as int]));
                lemma_fadd_reduce(ks[k as int], 0);
                lemma_mod_twice(ks[k as int] as int, group_order() as int);
            }
        }
        while k > 0
            invariant
                k < n,
                n == self.A@.len(),
                forall|ks: Seq<nat>| #[trigger]
                    are_multiples(self.A@, ks) ==> partial.is_multiple(
                        poly_eval(ks.subrange(k as int, n as int), x@),
                    ),
            decreases k,
        {
            k -= 1;
            let scaled = partial.mul(x);
            let next = scaled.add(&self.A[k]);
            proof {
                assert forall|ks: Seq<nat>| #[trigger]
                    are_multiples(self.A@, ks) implies next.is_multiple(
                    poly_eval(ks.subrange(k as int, n as int), x@),
                ) by {
                    let tail = ks.subrange(k as int, n as int);
                    assert(tail.drop_first() =~= ks.subrange(k + 1, n as int));
                    let p = poly_eval(ks.subrange(k + 1, n as int), x@);
                    assert(partial.is_multiple(p));
                    assert(scaled.is_multiple(x@ * p));
                    assert(self.A@[k as int].is_multiple(ks[k as int]));
                    assert(next.is_multiple(x@ * p + ks[k as int]));
                    lemma_fadd_reduce(ks[k as int], x@ * p);
                    lemma_mod_twice((x@ * p + ks[k as int]) as int, group_order() as int);
                }
            }
            partial = next;
        }
        proof {
            assert forall|ks: Seq<nat>| #[trigger]
                are_multiples(self.A@, ks) implies partial.is_multiple(poly_eval(ks, x@)) by {
                assert(ks.subrange(0, n as int) =~= ks);
            }
        }
        partial
    }
}

impl Degree for RistrettoPolynomial {
    open spec fn terms(&self) -> nat {
        self.A@.len()
    }

    fn degree(&self) -> (d: usize) {
        self.A.len() - 1
    }
}

} // verus!
