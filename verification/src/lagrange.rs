//! Why recovery works: the shares of a polynomial interpolate to its value at
//! zero, on scalars and in the exponent.

use vstd::prelude::*;
use vstd::arithmetic::div_mod::{
    lemma_add_mod_noop, lemma_mod_bound, lemma_mod_twice, lemma_mul_mod_noop_general,
    lemma_small_mod,
};
use crate::field::{finv, fmul, group_order, is_inverse, lemma_fmul_reduce};
use crate::modular::{
    congruent, lemma_congruent_difference, lemma_inverse_exists, lemma_no_zero_divisors,
    vanishes,
};
use crate::polynomial::{
    lemma_roots, lemma_value_at_zero, lemma_value_scaled, lemma_value_sum,
    lemma_value_times_linear, lemma_value_zero, scaled, sum, times_linear, value,
};
use crate::shares::{
    basis_den, basis_num, distinct, lagrange_basis, poly_eval, recover_sum, recover_value,
};

verus! {

/// The product of `xs[j] - x` over the `j < n` other than `i`.
pub open spec fn node_product(xs: Seq<nat>, i: int, n: nat, x: int) -> int
    decreases n,
{
    if n == 0 {
        1
    } else if n - 1 == i {
        node_product(xs, i, (n - 1) as nat, x)
    } else {
        node_product(xs, i, (n - 1) as nat, x) * (xs[n - 1] - x)
    }
}

/// The polynomial whose value at `x` is that product.
pub open spec fn node_poly(xs: Seq<nat>, i: int, n: nat) -> Seq<int>
    decreases n,
{
    if n == 0 {
        seq![1int]
    } else if n - 1 == i {
        node_poly(xs, i, (n - 1) as nat)
    } else {
        times_linear(node_poly(xs, i, (n - 1) as nat), xs[n - 1] as int)
    }
}

/// The sum of `cs[i]` times the product of node `i` over `i < m`, taken at `x`.
pub open spec fn weighted_sum(xs: Seq<nat>, cs: Seq<int>, n: nat, m: nat, x: int) -> int
    decreases m,
{
    if m == 0 {
        0
    } else {
        weighted_sum(xs, cs, n, (m - 1) as nat, x) + cs[m - 1] * node_product(xs, m - 1, n, x)
    }
}

/// The polynomial whose value at `x` is that sum.
pub open spec fn weighted_poly(xs: Seq<nat>, cs: Seq<int>, n: nat, m: nat) -> Seq<int>
    decreases m,
{
    if m == 0 {
        Seq::new(n, |k: int| 0int)
    } else {
        sum(weighted_poly(xs, cs, n, (m - 1) as nat), scaled(cs[m - 1], node_poly(xs, m - 1, n)))
    }
}

/// The coefficients as integers, with zeros up to `n` of them.
pub open spec fn padded(coeffs: Seq<nat>, n: nat) -> Seq<int> {
    Seq::new(n, |k: int| if k < coeffs.len() { coeffs[k] as int } else { 0 })
}

proof fn lemma_node_poly(xs: Seq<nat>, i: int, n: nat, x: int)
    ensures
        value(node_poly(xs, i, n), x) == node_product(xs, i, n, x),
        node_poly(xs, i, n).len() == if 0 <= i < n { n } else { n + 1 },
    decreases n,
{
    if n == 0 {
        let one = node_poly(xs, i, n);
        assert(one.drop_first() =~= Seq::<int>::empty());
        assert(value(one.drop_first(), x) == 0);
        assert(one[0] == 1);
        assert(x * 0 == 0);
        assert(value(one, x) == one[0] + x * value(one.drop_first(), x));
    } else {
        lemma_node_poly(xs, i, (n - 1) as nat, x);
        if n - 1 != i {
            let before = node_poly(xs, i, (n - 1) as nat);
            lemma_value_times_linear(before, xs[n - 1] as int, x);
            let v = node_product(xs, i, (n - 1) as nat, x);
            assert((xs[n - 1] - x) * v == v * (xs[n - 1] - x)) by (nonlinear_arith);
        }
    }
}

proof fn lemma_node_product_zero(xs: Seq<nat>, i: int, n: nat, k: int)
    requires
        0 <= k < n,
        k != i,
    ensures
        node_product(xs, i, n, xs[k] as int) == 0,
    decreases n,
{
    let x = xs[k] as int;
    if n - 1 == k {
        let v = node_product(xs, i, (n - 1) as nat, x);
        assert(v * 0 == 0);
    } else {
        lemma_node_product_zero(xs, i, (n - 1) as nat, k);
        if n - 1 != i {
            assert(0 * (xs[n - 1] - x) == 0);
        }
    }
}

proof fn lemma_basis_num(xs: Seq<nat>, i: int, n: nat)
    ensures
        basis_num(xs, i, n) == node_product(xs, i, n, 0) % (group_order() as int),
    decreases n,
{
    let m = group_order() as int;
    if n == 0 {
        lemma_small_mod(1, group_order());
    } else {
        lemma_basis_num(xs, i, (n - 1) as nat);
        if n - 1 != i {
            let v = node_product(xs, i, (n - 1) as nat, 0);
            lemma_mul_mod_noop_general(v, xs[n - 1] as int, m);
        } else {
        }
    }
}

proof fn lemma_basis_den(xs: Seq<nat>, i: int, n: nat)
    ensures
        basis_den(xs, i, n) == node_product(xs, i, n, xs[i] as int) % (group_order() as int),
    decreases n,
{
    let m = group_order() as int;
    if n == 0 {
        lemma_small_mod(1, group_order());
    } else {
        lemma_basis_den(xs, i, (n - 1) as nat);
        if n - 1 != i {
            let v = node_product(xs, i, (n - 1) as nat, xs[i] as int);
            let d = xs[n - 1] - xs[i];
            lemma_mul_mod_noop_general(v, d, m);
            lemma_mod_bound(d, m);
        }
    }
}

/// The difference of two different numbers below the group order does not
/// vanish.
proof fn lemma_difference(a: nat, b: nat)
    requires
        a < group_order(),
        b < group_order(),
        a != b,
    ensures
        !vanishes(a - b),
{
    let m = group_order();
    if a > b {
        lemma_small_mod((a - b) as nat, m);
    } else {
        lemma_small_mod((b - a) as nat, m);
        lemma_congruent_difference(a as int, b as int);
        lemma_small_mod(a, m);
        lemma_small_mod(b, m);
    }
}

proof fn lemma_den_nonzero(xs: Seq<nat>, i: int, n: nat)
    requires
        distinct(xs),
        forall|k: int| 0 <= k < xs.len() ==> xs[k] < group_order(),
        0 <= i < xs.len(),
        n <= xs.len(),
    ensures
        !vanishes(node_product(xs, i, n, xs[i] as int)),
    decreases n,
{
    if n == 0 {
        lemma_small_mod(1, group_order());
    } else {
        lemma_den_nonzero(xs, i, (n - 1) as nat);
        if n - 1 != i {
            let v = node_product(xs, i, (n - 1) as nat, xs[i] as int);
            let d = xs[n - 1] - xs[i];
            lemma_difference(xs[n - 1], xs[i]);
            if vanishes(v * d) {
                lemma_no_zero_divisors(v, d);
            }
        }
    }
}

proof fn lemma_weighted_poly(xs: Seq<nat>, cs: Seq<int>, n: nat, m: nat, x: int)
    requires
        m <= n,
    ensures
        weighted_poly(xs, cs, n, m).len() == n,
        value(weighted_poly(xs, cs, n, m), x) == weighted_sum(xs, cs, n, m, x),
    decreases m,
{
    if m == 0 {
        lemma_value_zero(weighted_poly(xs, cs, n, m), x);
    } else {
        lemma_weighted_poly(xs, cs, n, (m - 1) as nat, x);
        lemma_node_poly(xs, m - 1, n, x);
        let before = weighted_poly(xs, cs, n, (m - 1) as nat);
        let term = scaled(cs[m - 1], node_poly(xs, m - 1, n));
        lemma_value_scaled(cs[m - 1], node_poly(xs, m - 1, n), x);
        lemma_value_sum(before, term, x);
    }
}

proof fn lemma_weighted_at_node(xs: Seq<nat>, cs: Seq<int>, n: nat, m: nat, k: int)
    requires
        0 <= k < n,
        m <= n,
    ensures
        weighted_sum(xs, cs, n, m, xs[k] as int) == if k < m {
            cs[k] * node_product(xs, k, n, xs[k] as int)
        } else {
            0
        },
    decreases m,
{
    if m > 0 {
        lemma_weighted_at_node(xs, cs, n, (m - 1) as nat, k);
        if m - 1 != k {
            lemma_node_product_zero(xs, m - 1, n, k);
            assert(cs[m - 1] * 0 == 0);
        }
    }
}

proof fn lemma_poly_eval_padded(coeffs: Seq<nat>, n: nat, x: nat)
    requires
        coeffs.len() <= n,
    ensures
        poly_eval(coeffs, x) == value(padded(coeffs, n), x as int) % (group_order() as int),
    decreases n,
{
    let m = group_order() as int;
    let p = padded(coeffs, n);
    if coeffs.len() == 0 {
        lemma_value_zero(p, x as int);
        lemma_small_mod(0, group_order());
    } else {
        let rest = coeffs.drop_first();
        lemma_poly_eval_padded(rest, (n - 1) as nat, x);
        assert(p.drop_first() =~= padded(rest, (n - 1) as nat));
        let v = value(p.drop_first(), x as int);
        lemma_mul_mod_noop_general(x as int, v, m);
        lemma_add_mod_noop(coeffs[0] as int, x * v, m);
        lemma_add_mod_noop(coeffs[0] as int, (x * (v % m)) % m, m);
        lemma_mod_twice(x * (v % m), m);
    }
}

/// The weights with which the products of the nodes give the basis
/// polynomials: each value over the basis polynomial's denominator.
pub open spec fn weights(xs: Seq<nat>, ys: Seq<nat>) -> Seq<int> {
    Seq::new(xs.len(), |i: int| (ys[i] * finv(basis_den(xs, i, xs.len()))) as int)
}

proof fn lemma_recover_weighted(xs: Seq<nat>, ys: Seq<nat>, n: nat)
    requires
        n <= xs.len(),
    ensures
        recover_sum(xs, ys, n) == weighted_sum(xs, weights(xs, ys), xs.len(), n, 0) % (
        group_order() as int),
    decreases n,
{
    let m = group_order() as int;
    if n == 0 {
        lemma_small_mod(0, group_order());
    } else {
        lemma_recover_weighted(xs, ys, (n - 1) as nat);
        let i = n - 1;
        let before = weighted_sum(xs, weights(xs, ys), xs.len(), (n - 1) as nat, 0);
        let num = node_product(xs, i, xs.len(), 0);
        let inv = finv(basis_den(xs, i, xs.len())) as int;
        let y = ys[i] as int;
        lemma_basis_num(xs, i, xs.len());
        // the basis polynomial is num * inv, and the term is that times y
        lemma_mul_mod_noop_general(num, inv, m);
        lemma_mul_mod_noop_general(num * inv, y, m);
        assert((num * inv) * y == (y * inv) * num) by (nonlinear_arith);
        lemma_add_mod_noop(before, (y * inv) * num, m);
        lemma_add_mod_noop(before % m, (((num % m) * inv) % m * y) % m, m);
        lemma_mod_twice(before, m);
        lemma_mod_twice((num * inv) * y, m);
    }
}

/// Lagrange recovery. The shares of a polynomial at nodes that differ, at
/// least as many as it has coefficients, interpolate to its constant
/// coefficient: the sum of `lagrange_basis(xs, i) * f(xs[i])` is `f(0)`.
pub proof fn lemma_lagrange_recovery(coeffs: Seq<nat>, xs: Seq<nat>)
    requires
        0 < coeffs.len() <= xs.len(),
        distinct(xs),
        forall|k: int| 0 <= k < xs.len() ==> xs[k] < group_order(),
    ensures
        recover_value(xs, Seq::new(xs.len(), |i: int| poly_eval(coeffs, xs[i]))) == coeffs[0]
            % group_order(),
{
    let m = group_order() as int;
    let n = xs.len();
    let ys = Seq::new(n, |i: int| poly_eval(coeffs, xs[i]));
    let cs = weights(xs, ys);
    let f = padded(coeffs, n);
    let w = weighted_poly(xs, cs, n, n);
    let g = sum(f, scaled(-1, w));
    let roots = Seq::new(n, |k: int| xs[k] as int);
    lemma_weighted_poly(xs, cs, n, n, 0);
    assert forall|k: int| 0 <= k < roots.len() implies vanishes(
        #[trigger] value(g, roots[k]),
    ) by {
        let x = xs[k] as int;
        lemma_weighted_poly(xs, cs, n, n, x);
        lemma_value_scaled(-1, w, x);
        lemma_value_sum(f, scaled(-1, w), x);
        lemma_weighted_at_node(xs, cs, n, n, k);
        let den = node_product(xs, k, n, x);
        let inv = finv(basis_den(xs, k, n)) as int;
        lemma_basis_den(xs, k, n);
        lemma_den_nonzero(xs, k, n);
        lemma_mod_bound(den, m);
        lemma_inverse_exists(basis_den(xs, k, n));
        assert(is_inverse(basis_den(xs, k, n), finv(basis_den(xs, k, n))));
        // den * inv is congruent to 1, so the weighted sum at the node is
        // congruent to the share, which is congruent to the polynomial's value
        lemma_mul_mod_noop_general(den, inv, m);
        assert((den * inv) % m == 1);
        lemma_poly_eval_padded(coeffs, n, xs[k]);
        let y = ys[k] as int;
        assert(cs[k] * den == y * (den * inv)) by (nonlinear_arith)
            requires
                cs[k] == y * inv,
        ;
        lemma_mul_mod_noop_general(y, den * inv, m);
        assert(y * 1 == y);
        lemma_mod_twice(value(f, x), m);
        assert(congruent(cs[k] * den, value(f, x)));
        lemma_congruent_difference(value(f, x), cs[k] * den);
        assert(value(g, x) == value(f, x) + (-1) * (cs[k] * den));
    }
    assert forall|k: int, l: int| 0 <= k < l < roots.len() implies !vanishes(
        roots[k] - roots[l],
    ) by {
        lemma_difference(xs[k], xs[l]);
    }
    lemma_roots(g, roots);
    assert(vanishes(g[0]));
    lemma_value_at_zero(w);
    lemma_recover_weighted(xs, ys, n);
    assert(g[0] == coeffs[0] - weighted_sum(xs, cs, n, n, 0));
    lemma_congruent_difference(coeffs[0] as int, weighted_sum(xs, cs, n, n, 0));
}

/// Recovery is linear: scaling every share by `q` scales what they
/// interpolate to by `q`.
pub proof fn lemma_recover_scaled(xs: Seq<nat>, ys: Seq<nat>, q: nat, n: nat)
    requires
        n <= xs.len(),
    ensures
        recover_sum(xs, Seq::new(xs.len(), |i: int| fmul(ys[i], q)), n) == fmul(
            recover_sum(xs, ys, n),
            q,
        ),
    decreases n,
{
    let m = group_order() as int;
    let scaled_ys = Seq::new(xs.len(), |i: int| fmul(ys[i], q));
    if n == 0 {
        assert(0 * q == 0);
        lemma_small_mod(0, group_order());
    } else {
        lemma_recover_scaled(xs, ys, q, (n - 1) as nat);
        let before = recover_sum(xs, ys, (n - 1) as nat) as int;
        let l = lagrange_basis(xs, n - 1) as int;
        let y = ys[n - 1] as int;
        // ((before + (l * y) % m) % m * q) % m
        //     == ((before * q) % m + (l * ((y * q) % m)) % m) % m
        lemma_mul_mod_noop_general(l, y * q, m);
        lemma_mul_mod_noop_general(l * y, q as int, m);
        assert(l * (y * q) == (l * y) * q) by (nonlinear_arith);
        lemma_add_mod_noop(before, l * y, m);
        lemma_mul_mod_noop_general(before + l * y, q as int, m);
        assert((before + l * y) * q == before * q + (l * y) * q) by (nonlinear_arith);
        lemma_add_mod_noop(before * q, (l * y) * q, m);
        lemma_mul_mod_noop_general((before + (l * y) % m) % m, q as int, m);
        lemma_mod_twice(before + (l * y) % m, m);
        lemma_add_mod_noop(before, (l * y) % m, m);
        lemma_mod_twice(l * y, m);
        lemma_add_mod_noop((before * q) % m, (l * ((y * q) % m)) % m, m);
        lemma_mod_twice(before * q, m);
        lemma_mod_twice(l * (y * q), m);
    }
}

/// Lagrange recovery in the exponent. Where the shares of a polynomial are
/// lifted by the point `q * B`, they interpolate to `f(0) * q`, the exponent
/// of the lifted secret.
pub proof fn lemma_lagrange_recovery_lifted(coeffs: Seq<nat>, xs: Seq<nat>, q: nat)
    requires
        0 < coeffs.len() <= xs.len(),
        distinct(xs),
        forall|k: int| 0 <= k < xs.len() ==> xs[k] < group_order(),
    ensures
        recover_value(xs, Seq::new(xs.len(), |i: int| fmul(poly_eval(coeffs, xs[i]), q)))
            == fmul(coeffs[0], q),
{
    let ys = Seq::new(xs.len(), |i: int| poly_eval(coeffs, xs[i]));
    lemma_lagrange_recovery(coeffs, xs);
    lemma_recover_scaled(xs, ys, q, xs.len());
    assert(Seq::new(xs.len(), |i: int| fmul(ys[i], q)) =~= Seq::new(
        xs.len(),
        |i: int| fmul(poly_eval(coeffs, xs[i]), q),
    ));
    lemma_fmul_reduce(coeffs[0], q);
}

} // verus!
