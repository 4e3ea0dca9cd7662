//! Polynomials with integer coefficients, lowest first: their values, their
//! division by `x - r`, and their roots modulo the group order.

use vstd::prelude::*;
use crate::modular::{
    lemma_no_zero_divisors, lemma_vanishes_add, lemma_vanishes_mul, vanishes,
};

verus! {

/// The value of a polynomial at `x`.
pub open spec fn value(p: Seq<int>, x: int) -> int
    decreases p.len(),
{
    if p.len() == 0 {
        0
    } else {
        p[0] + x * value(p.drop_first(), x)
    }
}

/// The sum of two polynomials of one length.
pub open spec fn sum(p: Seq<int>, q: Seq<int>) -> Seq<int> {
    Seq::new(p.len(), |k: int| p[k] + q[k])
}

/// A polynomial scaled by `c`.
pub open spec fn scaled(c: int, p: Seq<int>) -> Seq<int> {
    Seq::new(p.len(), |k: int| c * p[k])
}

/// The product of a polynomial and `c - x`.
pub open spec fn times_linear(p: Seq<int>, c: int) -> Seq<int> {
    Seq::new(
        p.len() + 1,
        |k: int|
            (if k < p.len() {
                c * p[k]
            } else {
                0
            }) - (if k > 0 {
                p[k - 1]
            } else {
                0
            }),
    )
}

/// The quotient of a polynomial by `x - r`.
pub open spec fn quotient(p: Seq<int>, r: int) -> Seq<int>
    decreases p.len(),
{
    if p.len() <= 1 {
        Seq::empty()
    } else {
        seq![value(p.drop_first(), r)] + quotient(p.drop_first(), r)
    }
}

/// The value of a sum is the sum of the values.
pub proof fn lemma_value_sum(p: Seq<int>, q: Seq<int>, x: int)
    requires
        p.len() == q.len(),
    ensures
        value(sum(p, q), x) == value(p, x) + value(q, x),
    decreases p.len(),
{
    if p.len() > 0 {
        lemma_value_sum(p.drop_first(), q.drop_first(), x);
        assert(sum(p, q).drop_first() =~= sum(p.drop_first(), q.drop_first()));
        let a = value(p.drop_first(), x);
        let b = value(q.drop_first(), x);
        assert(x * (a + b) == x * a + x * b) by (nonlinear_arith);
    }
}

/// The value of a scaled polynomial is the scaled value.
pub proof fn lemma_value_scaled(c: int, p: Seq<int>, x: int)
    ensures
        value(scaled(c, p), x) == c * value(p, x),
    decreases p.len(),
{
    if p.len() > 0 {
        lemma_value_scaled(c, p.drop_first(), x);
        assert(scaled(c, p).drop_first() =~= scaled(c, p.drop_first()));
        let a = value(p.drop_first(), x);
        assert(c * p[0] + x * (c * a) == c * (p[0] + x * a)) by (nonlinear_arith);
    } else {
        assert(c * 0 == 0);
    }
}

/// The value of the product with `c - x` is the value times `c - x`.
pub proof fn lemma_value_times_linear(p: Seq<int>, c: int, x: int)
    ensures
        value(times_linear(p, c), x) == (c - x) * value(p, x),
        times_linear(p, c).len() == p.len() + 1,
    decreases p.len(),
{
    let t = times_linear(p, c);
    if p.len() == 0 {
        assert(t.drop_first() =~= Seq::<int>::empty());
        assert(t[0] == 0);
        assert(value(t.drop_first(), x) == 0);
        assert(x * 0 == 0 && (c - x) * 0 == 0);
        assert(value(t, x) == t[0] + x * value(t.drop_first(), x));
    } else {
        // (c - x) * (p0 + x * P) = c * p0 + x * ((c - x) * P - p0)
        let rest = p.drop_first();
        lemma_value_times_linear(rest, c, x);
        let carry = Seq::new(p.len(), |k: int| if k == 0 { -p[0] } else { 0 });
        let shifted = sum(times_linear(rest, c), carry);
        assert(t.drop_first() =~= shifted) by {
            assert forall|k: int| 0 <= k < p.len() implies t.drop_first()[k] == shifted[k] by {
                assert(t.drop_first()[k] == t[k + 1]);
                if k + 1 < p.len() {
                    assert(rest[k] == p[k + 1]);
                }
                if k > 0 {
                    assert(rest[k - 1] == p[k]);
                }
            }
        }
        lemma_value_sum(times_linear(rest, c), carry, x);
        lemma_value_constant(carry, x);
        let v = value(rest, x);
        assert(value(t.drop_first(), x) == (c - x) * v + (-p[0]));
        assert(t[0] == c * p[0]);
        assert(value(t, x) == t[0] + x * value(t.drop_first(), x));
        assert(value(p, x) == p[0] + x * v);
        assert(c * p[0] + x * ((c - x) * v + (-p[0])) == (c - x) * (p[0] + x * v))
            by (nonlinear_arith);
    }
}

/// The value of a polynomial whose higher coefficients are zero is its
/// constant coefficient.
pub proof fn lemma_value_constant(p: Seq<int>, x: int)
    requires
        p.len() > 0,
        forall|k: int| 0 < k < p.len() ==> p[k] == 0,
    ensures
        value(p, x) == p[0],
{
    lemma_value_zero(p.drop_first(), x);
    assert(x * 0 == 0);
}

/// The value of a polynomial whose coefficients are zero is zero.
pub proof fn lemma_value_zero(p: Seq<int>, x: int)
    requires
        forall|k: int| 0 <= k < p.len() ==> p[k] == 0,
    ensures
        value(p, x) == 0,
    decreases p.len(),
{
    if p.len() > 0 {
        lemma_value_zero(p.drop_first(), x);
        assert(x * 0 == 0);
    }
}

/// The value at zero is the constant coefficient.
pub proof fn lemma_value_at_zero(p: Seq<int>)
    requires
        p.len() > 0,
    ensures
        value(p, 0) == p[0],
{
    assert(0 * value(p.drop_first(), 0) == 0) by (nonlinear_arith);
}

/// Division by `x - r`: a polynomial is `x - r` times its quotient, plus its
/// value at `r`.
pub proof fn lemma_division(p: Seq<int>, r: int, x: int)
    ensures
        value(p, x) == (x - r) * value(quotient(p, r), x) + value(p, r),
        p.len() > 0 ==> quotient(p, r).len() == p.len() - 1,
    decreases p.len(),
{
    if p.len() == 0 {
        assert((x - r) * 0 == 0);
    } else if p.len() == 1 {
        assert(p.drop_first().len() == 0);
        assert(value(p.drop_first(), x) == 0);
        assert(value(p.drop_first(), r) == 0);
        assert(value(quotient(p, r), x) == 0);
        assert((x - r) * 0 == 0);
        assert(x * 0 == 0 && r * 0 == 0);
    } else {
        let rest = p.drop_first();
        lemma_division(rest, r, x);
        let h = quotient(rest, r);
        let q = quotient(p, r);
        assert(q.drop_first() =~= h);
        let c = value(rest, r);
        let hv = value(h, x);
        assert(q[0] == c);
        assert(value(q, x) == q[0] + x * value(q.drop_first(), x));
        assert(value(rest, x) == (x - r) * hv + c);
        assert(value(p, x) == p[0] + x * value(rest, x));
        assert(value(p, r) == p[0] + r * c);
        assert(p[0] + x * ((x - r) * hv + c) == (x - r) * (c + x * hv) + (p[0] + r * c))
            by (nonlinear_arith);
    }
}

/// Where the quotient by `x - r` and the value at `r` vanish, every
/// coefficient vanishes.
pub proof fn lemma_coefficients_vanish(p: Seq<int>, r: int)
    requires
        vanishes(value(p, r)),
        forall|k: int| 0 <= k < quotient(p, r).len() ==> vanishes(#[trigger] quotient(p, r)[k]),
    ensures
        forall|k: int| 0 <= k < p.len() ==> vanishes(#[trigger] p[k]),
    decreases p.len(),
{
    if p.len() == 1 {
        assert(p.drop_first().len() == 0);
        assert(value(p.drop_first(), r) == 0);
        assert(r * 0 == 0);
        assert(value(p, r) == p[0]);
    } else if p.len() > 1 {
        let rest = p.drop_first();
        let q = quotient(p, r);
        assert(q[0] == value(rest, r));
        assert(vanishes(q[0]));
        assert(q.drop_first() =~= quotient(rest, r));
        assert forall|k: int| 0 <= k < quotient(rest, r).len() implies vanishes(
            #[trigger] quotient(rest, r)[k],
        ) by {
            assert(quotient(rest, r)[k] == q[k + 1]);
        }
        lemma_coefficients_vanish(rest, r);
        // p0 = p(r) - r * rest(r)
        lemma_vanishes_mul(value(rest, r), r);
        lemma_vanishes_add(value(p, r), r * value(rest, r));
        assert(value(p, r) == p[0] + r * value(rest, r));
        assert(p[0] == value(p, r) - r * value(rest, r));
        assert forall|k: int| 0 <= k < p.len() implies vanishes(#[trigger] p[k]) by {
            if k > 0 {
                assert(p[k] == rest[k - 1]);
            }
        }
    }
}

/// Modulo the group order, a polynomial with no more coefficients than it
/// has roots that differ has coefficients that all vanish.
pub proof fn lemma_roots(p: Seq<int>, roots: Seq<int>)
    requires
        p.len() <= roots.len(),
        forall|k: int| 0 <= k < roots.len() ==> vanishes(#[trigger] value(p, roots[k])),
        forall|k: int, l: int| 0 <= k < l < roots.len() ==> !vanishes(roots[k] - roots[l]),
    ensures
        forall|k: int| 0 <= k < p.len() ==> vanishes(#[trigger] p[k]),
    decreases roots.len(),
{
    if p.len() > 0 {
        let r = roots.last();
        let others = roots.drop_last();
        let q = quotient(p, r);
        lemma_division(p, r, r);
        assert forall|k: int| 0 <= k < others.len() implies vanishes(
            #[trigger] value(q, others[k]),
        ) by {
            let x = others[k];
            assert(x == roots[k]);
            lemma_division(p, r, x);
            assert(vanishes(value(p, x)));
            assert(vanishes(value(p, r)));
            lemma_vanishes_add(value(p, x), value(p, r));
            assert((x - r) * value(q, x) == value(p, x) - value(p, r));
            lemma_no_zero_divisors(x - r, value(q, x));
            assert(!vanishes(roots[k] - roots[roots.len() - 1]));
        }
        lemma_roots(q, others);
        lemma_coefficients_vanish(p, r);
    }
}

} // verus!
