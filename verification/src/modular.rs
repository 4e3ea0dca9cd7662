//! Arithmetic modulo a prime, and congruences modulo the group order.

use vstd::prelude::*;
use vstd::arithmetic::div_mod::{
    lemma_add_mod_noop, lemma_fundamental_div_mod, lemma_mod_bound, lemma_mod_equivalence,
    lemma_mod_multiples_vanish, lemma_mul_mod_noop_general, lemma_small_mod, lemma_sub_mod_noop,
};
use crate::field::{group_order, invertible, is_inverse};
use crate::primality::lemma_group_order_prime;

verus! {

/// Whether `p` is a prime number.
pub open spec fn is_prime(p: nat) -> bool {
    p > 1 && forall|d: nat| 1 < d < p ==> #[trigger] (p % d) != 0
}

/// Modulo a prime, every number from 1 below the prime has an inverse.
pub proof fn lemma_inverse_mod(p: nat, a: nat)
    requires
        is_prime(p),
        0 < a < p,
    ensures
        exists|b: nat| b < p && #[trigger] (a * b) % p == 1,
    decreases a,
{
    if a == 1 {
        assert(1 * 1 == 1) by (nonlinear_arith);
        lemma_small_mod(1, p);
        assert((a * 1) % p == 1);
    } else {
        let q = (p / a) as int;
        let r = p % a;
        assert(r != 0);
        lemma_fundamental_div_mod(p as int, a as int);
        lemma_mod_bound(p as int, a as int);
        lemma_inverse_mod(p, r);
        let ri = choose|b: nat| b < p && #[trigger] (r * b) % p == 1;
        let b = ((-(q * ri)) % (p as int)) as nat;
        lemma_mod_bound(-(q * ri), p as int);
        // a * b = a * (-(q * ri)) = (r - p) * ri, which is r * ri up to a multiple of p
        lemma_mul_mod_noop_general(a as int, -(q * ri), p as int);
        assert(a * (-(q * ri)) == p * (-(ri as int)) + r * ri) by (nonlinear_arith)
            requires
                p == a * q + r,
        ;
        lemma_mod_multiples_vanish(-(ri as int), (r * ri) as int, p as int);
        assert((a * b) % p == 1);
    }
}

/// A prime that divides a product divides one of its factors.
pub proof fn lemma_euclid(p: nat, a: int, b: int)
    requires
        is_prime(p),
        (a * b) % (p as int) == 0,
    ensures
        a % (p as int) == 0 || b % (p as int) == 0,
{
    let m = p as int;
    if a % m != 0 {
        let a0 = (a % m) as nat;
        lemma_mod_bound(a, m);
        lemma_inverse_mod(p, a0);
        let ai = choose|c: nat| c < p && #[trigger] (a0 * c) % p == 1;
        // ai * a is 1 up to a multiple of p, so b = (ai * a) * b = ai * (a * b) is
        // a multiple of p
        lemma_mul_mod_noop_general(ai as int, a, m);
        assert(ai * a0 == a0 * ai) by (nonlinear_arith);
        assert((ai * a) % m == 1);
        lemma_mul_mod_noop_general(ai * a, b, m);
        assert(1 * b == b);
        assert((ai * a) * b == ai * (a * b)) by (nonlinear_arith);
        lemma_mul_mod_noop_general(ai as int, a * b, m);
        assert(ai * 0 == 0);
        lemma_small_mod(0, p);
    }
}

/// Whether `a` is a multiple of the group order.
pub open spec fn vanishes(a: int) -> bool {
    a % (group_order() as int) == 0
}

/// Whether `a` and `b` are congruent modulo the group order.
pub open spec fn congruent(a: int, b: int) -> bool {
    a % (group_order() as int) == b % (group_order() as int)
}

/// Two numbers are congruent exactly when their difference vanishes.
pub proof fn lemma_congruent_difference(a: int, b: int)
    ensures
        congruent(a, b) <==> vanishes(a - b),
{
    lemma_mod_equivalence(a, b, group_order() as int);
}

/// Every scalar but zero has an inverse.
pub proof fn lemma_inverse_exists(a: nat)
    requires
        0 < a < group_order(),
    ensures
        invertible(a),
{
    lemma_group_order_prime();
    lemma_inverse_mod(group_order(), a);
    let b = choose|b: nat| b < group_order() && #[trigger] (a * b) % group_order() == 1;
    assert(is_inverse(a, b));
}

/// A product vanishes only where a factor does.
pub proof fn lemma_no_zero_divisors(a: int, b: int)
    requires
        vanishes(a * b),
    ensures
        vanishes(a) || vanishes(b),
{
    lemma_group_order_prime();
    lemma_euclid(group_order(), a, b);
}

/// Multiples of a number that vanishes vanish.
pub proof fn lemma_vanishes_mul(a: int, c: int)
    requires
        vanishes(a),
    ensures
        vanishes(a * c),
        vanishes(c * a),
{
    let m = group_order() as int;
    lemma_mul_mod_noop_general(a, c, m);
    lemma_mul_mod_noop_general(c, a, m);
    assert(0 * c == 0 && c * 0 == 0);
    lemma_small_mod(0, group_order());
}

/// Sums and differences of numbers that vanish vanish.
pub proof fn lemma_vanishes_add(a: int, b: int)
    requires
        vanishes(a),
        vanishes(b),
    ensures
        vanishes(a + b),
        vanishes(a - b),
{
    let m = group_order() as int;
    lemma_add_mod_noop(a, b, m);
    lemma_sub_mod_noop(a, b, m);
    lemma_small_mod(0, group_order());
}

} // verus!
