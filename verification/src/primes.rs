//! Two criteria for primes. `n` is prime where some `a` has the order `n - 1`
//! modulo `n`, which its powers show once the prime factors of `n - 1` are
//! known; and where a prime above the square root of `n` divides `n - 1` and
//! the powers of some `a` show that it divides the order of `a` modulo every
//! prime divisor of `n`.

use vstd::prelude::*;
use vstd::arithmetic::div_mod::{
    lemma_fundamental_div_mod, lemma_fundamental_div_mod_converse, lemma_mod_bound,
    lemma_mod_equivalence, lemma_mod_mod, lemma_mod_multiples_basic, lemma_mod_twice,
    lemma_mul_mod_noop_general, lemma_small_mod,
};
use vstd::arithmetic::power::{
    lemma_pow0, lemma_pow1, lemma_pow_adds, lemma_pow_mod_noop, lemma_pow_multiplies, pow,
};
use vstd::set_lib::{lemma_int_range, lemma_len_subset, set_int_range};
use crate::modular::{is_prime, lemma_euclid};

verus! {

/// The power `a^e` modulo `n`.
pub open spec fn power_mod(a: nat, e: nat, n: nat) -> int {
    pow(a as int, e) % (n as int)
}

/// The power of a sum of exponents is the product of the powers.
pub proof fn lemma_power_adds(a: nat, x: nat, y: nat, n: nat)
    requires
        n > 0,
    ensures
        power_mod(a, x + y, n) == (power_mod(a, x, n) * power_mod(a, y, n)) % (n as int),
{
    lemma_pow_adds(a as int, x, y);
    lemma_mul_mod_noop_general(pow(a as int, x), pow(a as int, y), n as int);
}

/// The power with exponent zero is one.
pub proof fn lemma_power_zero(a: nat, n: nat)
    requires
        n > 1,
    ensures
        power_mod(a, 0, n) == 1,
{
    lemma_pow0(a as int);
    lemma_small_mod(1, n);
}

/// Where a power is one, so is the power of every multiple of its exponent.
proof fn lemma_power_of_multiple(a: nat, d: nat, m: nat, n: nat)
    requires
        n > 1,
        power_mod(a, d, n) == 1,
    ensures
        power_mod(a, d * m, n) == 1,
    decreases m,
{
    if m == 0 {
        assert(d * 0 == 0);
        lemma_power_zero(a, n);
    } else {
        lemma_power_of_multiple(a, d, (m - 1) as nat, n);
        assert(d * m == d * (m - 1) + d) by (nonlinear_arith);
        lemma_power_adds(a, d * (m - 1) as nat, d, n);
        assert(1 * 1 == 1);
        lemma_small_mod(1, n);
    }
}

/// A quotient without remainder gives the number back when multiplied.
proof fn lemma_exact_division(c: nat, d: nat)
    requires
        d > 0,
        c % d == 0,
    ensures
        c == d * (c / d),
{
    lemma_fundamental_div_mod(c as int, d as int);
}

/// Every number above one has a prime divisor.
proof fn lemma_prime_divisor(c: nat)
    requires
        c > 1,
    ensures
        exists|r: nat| is_prime(r) && #[trigger] (c % r) == 0,
    decreases c,
{
    if is_prime(c) {
        lemma_mod_multiples_basic(1, c as int);
        assert(c % c == 0);
    } else {
        let d = choose|d: nat| 1 < d < c && #[trigger] (c % d) == 0;
        lemma_prime_divisor(d);
        let r = choose|r: nat| is_prime(r) && #[trigger] (d % r) == 0;
        lemma_exact_division(c, d);
        lemma_exact_division(d, r);
        let x = d / r;
        let y = c / d;
        assert(c == (x * y) * r) by (nonlinear_arith)
            requires
                c == d * y,
                d == r * x,
        ;
        lemma_mod_multiples_basic((x * y) as int, r as int);
        assert(c % r == 0);
    }
}

/// Where some positive exponent gives the power one, there is a least one.
proof fn lemma_least_exponent(a: nat, n: nat, k: nat)
    requires
        0 < k,
        power_mod(a, k, n) == 1,
    ensures
        exists|d: nat|
            0 < d <= k && #[trigger] power_mod(a, d, n) == 1 && forall|j: nat|
                0 < j < d ==> #[trigger] power_mod(a, j, n) != 1,
    decreases k,
{
    if forall|j: nat| 0 < j < k ==> #[trigger] power_mod(a, j, n) != 1 {
        assert(power_mod(a, k, n) == 1);
    } else {
        let j = choose|j: nat| 0 < j < k && #[trigger] power_mod(a, j, n) == 1;
        lemma_least_exponent(a, n, j);
    }
}

/// What is known of `n` and `a` once part of `n - 1` has been taken apart:
/// every prime that divides the part `m` is among `qs`, and every `q` among
/// `qs` is a prime that divides `n - 1`, for which `a^((n - 1) / q)` is not
/// one modulo `n`.
pub open spec fn certified(n: nat, a: nat, m: nat, qs: Seq<nat>) -> bool {
    &&& m > 0
    &&& forall|r: nat| is_prime(r) && #[trigger] (m % r) == 0 ==> qs.contains(r)
    &&& forall|i: int|
        0 <= i < qs.len() ==> is_prime(#[trigger] qs[i]) && (n - 1) % (qs[i] as int) == 0
            && power_mod(a, ((n - 1) / (qs[i] as int)) as nat, n) != 1
}

/// Nothing is known of the part 1, which no prime divides.
pub proof fn lemma_certified_start(n: nat, a: nat)
    ensures
        certified(n, a, 1, Seq::empty()),
{
    assert forall|r: nat| is_prime(r) && #[trigger] (1nat % r) == 0 implies Seq::<nat>::empty()
        .contains(r) by {
        lemma_small_mod(1, r);
    }
}

/// The part grows by a prime `q` of `n - 1` for which the power is not one.
pub proof fn lemma_certified_factor(n: nat, a: nat, m: nat, qs: Seq<nat>, q: nat)
    requires
        certified(n, a, m, qs),
        is_prime(q),
        (n - 1) % (q as int) == 0,
        power_mod(a, ((n - 1) / (q as int)) as nat, n) != 1,
    ensures
        certified(n, a, m * q, qs.push(q)),
{
    let more = qs.push(q);
    assert(m * q > 0) by (nonlinear_arith)
        requires
            m > 0,
            q > 1,
    ;
    assert forall|r: nat| is_prime(r) && #[trigger] ((m * q) % r) == 0 implies more.contains(
        r,
    ) by {
        lemma_euclid(r, m as int, q as int);
        if m % r == 0 {
            let i = choose|i: int| 0 <= i < qs.len() && qs[i] == r;
            assert(more[i] == r);
        } else {
            // a prime that divides the prime q is q
            if r < q {
                assert(q % r != 0);
            } else if r > q {
                lemma_small_mod(q, r);
            }
            assert(more[qs.len() as int] == r);
        }
    }
    assert forall|i: int| 0 <= i < more.len() implies is_prime(#[trigger] more[i]) && (n - 1) % (
    more[i] as int) == 0 && power_mod(a, ((n - 1) / (more[i] as int)) as nat, n) != 1 by {
        if i < qs.len() {
            assert(more[i] == qs[i]);
        }
    }
}

/// The part grows once more by the prime that was added to `qs` last.
pub proof fn lemma_certified_again(n: nat, a: nat, m: nat, qs: Seq<nat>, q: nat)
    requires
        certified(n, a, m, qs),
        qs.len() > 0,
        qs.last() == q,
    ensures
        certified(n, a, m * q, qs),
{
    assert(is_prime(qs[qs.len() - 1]));
    assert(m * q > 0) by (nonlinear_arith)
        requires
            m > 0,
            q > 1,
    ;
    assert forall|r: nat| is_prime(r) && #[trigger] ((m * q) % r) == 0 implies qs.contains(r) by {
        lemma_euclid(r, m as int, q as int);
        if m % r != 0 {
            if r < q {
                assert(q % r != 0);
            } else if r > q {
                lemma_small_mod(q, r);
            }
        }
    }
}

/// Whether `a` has the order `t` modulo `n`: `a^t` is one, and no smaller
/// positive power of `a` is.
pub open spec fn has_order(a: nat, n: nat, t: nat) -> bool {
    &&& t > 0
    &&& power_mod(a, t, n) == 1
    &&& forall|j: nat| 0 < j < t ==> #[trigger] power_mod(a, j, n) != 1
}

/// The order divides every exponent that gives the power one.
proof fn lemma_order_divides(a: nat, n: nat, d: nat, t: nat)
    requires
        n > 1,
        has_order(a, n, d),
        power_mod(a, t, n) == 1,
    ensures
        t % d == 0,
{
    let m = t / d;
    let rest = t % d;
    lemma_fundamental_div_mod(t as int, d as int);
    lemma_mod_bound(t as int, d as int);
    // a^t = a^(d * m) * a^rest, so a^rest is one, and rest is zero
    lemma_power_of_multiple(a, d, m, n);
    lemma_power_adds(a, d * m, rest, n);
    assert(1 * power_mod(a, rest, n) == power_mod(a, rest, n));
    lemma_mod_twice(pow(a as int, rest), n as int);
    assert(power_mod(a, rest, n) == 1);
}

/// Where `n - 1` has been taken apart wholly and `a^(n - 1)` is one, `a` has
/// the order `n - 1`.
proof fn lemma_full_order(n: nat, a: nat, qs: Seq<nat>)
    requires
        n > 1,
        certified(n, a, (n - 1) as nat, qs),
        power_mod(a, (n - 1) as nat, n) == 1,
    ensures
        has_order(a, n, (n - 1) as nat),
{
    let top = (n - 1) as nat;
    assert forall|k: nat| 0 < k < top implies #[trigger] power_mod(a, k, n) != 1 by {
        if power_mod(a, k, n) == 1 {
            lemma_least_exponent(a, n, k);
            let d = choose|d: nat|
                0 < d <= k && #[trigger] power_mod(a, d, n) == 1 && forall|j: nat|
                    0 < j < d ==> #[trigger] power_mod(a, j, n) != 1;
            lemma_order_divides(a, n, d, top);
            lemma_exact_division(top, d);
            let m = top / d;
            assert(m > 1) by (nonlinear_arith)
                requires
                    top == d * m,
                    0 < d < top,
            ;
            // a prime r divides m, hence n - 1, and (n - 1) / r is a multiple of d
            lemma_prime_divisor(m);
            let r = choose|r: nat| is_prime(r) && #[trigger] (m % r) == 0;
            lemma_exact_division(m, r);
            let t = m / r;
            assert(top == (d * t) * r) by (nonlinear_arith)
                requires
                    top == d * m,
                    m == r * t,
            ;
            lemma_mod_multiples_basic((d * t) as int, r as int);
            assert(top % r == 0);
            let i = choose|i: int| 0 <= i < qs.len() && qs[i] == r;
            lemma_fundamental_div_mod_converse(top as int, r as int, (d * t) as int, 0);
            lemma_power_of_multiple(a, d, t, n);
            assert(power_mod(a, ((n - 1) / (qs[i] as int)) as nat, n) == 1);
        }
    }
}

/// The powers of `a` modulo `n` with exponents below `m`.
pub open spec fn powers_below(a: nat, n: nat, m: nat) -> Set<int> {
    Set::new(|x: int| exists|k: nat| k < m && #[trigger] power_mod(a, k, n) == x)
}

/// The powers of `a` with exponents below its order differ from each other.
proof fn lemma_powers_differ(a: nat, n: nat, t: nat, i: nat, j: nat)
    requires
        n > 1,
        has_order(a, n, t),
        i < j < t,
    ensures
        power_mod(a, i, n) != power_mod(a, j, n),
{
    if power_mod(a, i, n) == power_mod(a, j, n) {
        let m = n as int;
        let p = pow(a as int, (j - i) as nat);
        let q = pow(a as int, (t - j) as nat);
        let ri = pow(a as int, i);
        let rj = pow(a as int, j);
        // p = p * (q * rj) = (p * q) * ri = a^(t - i) * a^i = a^t = 1, up to
        // multiples of n
        lemma_pow_adds(a as int, (t - j) as nat, j);
        assert((q * rj) % m == 1);
        lemma_pow_adds(a as int, (j - i) as nat, (t - j) as nat);
        lemma_pow_adds(a as int, (t - i) as nat, i);
        assert(((p * q) * ri) % m == 1);
        lemma_mul_mod_noop_general(p * q, ri, m);
        lemma_mul_mod_noop_general(p * q, rj, m);
        assert(((p * q) * rj) % m == 1);
        assert((p * q) * rj == p * (q * rj)) by (nonlinear_arith);
        lemma_mul_mod_noop_general(p, q * rj, m);
        assert(p * 1 == p);
        assert(power_mod(a, (j - i) as nat, n) == 1);
    }
}

/// There are as many powers with exponents below `m` as exponents, up to the
/// order.
proof fn lemma_count_powers(a: nat, n: nat, t: nat, m: nat)
    requires
        n > 1,
        has_order(a, n, t),
        m <= t,
    ensures
        powers_below(a, n, m).finite(),
        powers_below(a, n, m).len() == m,
    decreases m,
{
    if m == 0 {
        assert(powers_below(a, n, m) =~= Set::<int>::empty());
    } else {
        let before = powers_below(a, n, (m - 1) as nat);
        let x = power_mod(a, (m - 1) as nat, n);
        lemma_count_powers(a, n, t, (m - 1) as nat);
        assert(!before.contains(x)) by {
            if before.contains(x) {
                let k = choose|k: nat| k < m - 1 && #[trigger] power_mod(a, k, n) == x;
                lemma_powers_differ(a, n, t, k, (m - 1) as nat);
            }
        }
        assert(powers_below(a, n, m) =~= before.insert(x)) by {
            assert forall|y: int| before.insert(x).contains(y) implies powers_below(
                a,
                n,
                m,
            ).contains(y) by {
                if y == x {
                    assert(power_mod(a, (m - 1) as nat, n) == y);
                } else {
                    let k = choose|k: nat| k < m - 1 && #[trigger] power_mod(a, k, n) == y;
                    assert(k < m && power_mod(a, k, n) == y);
                }
            }
        }
    }
}

/// No divisor `u` of `n` above one divides a power of a number that has an
/// order modulo `n`.
proof fn lemma_powers_are_units(a: nat, n: nat, t: nat, u: nat, k: nat)
    requires
        n > 1,
        has_order(a, n, t),
        1 < u <= n,
        n % u == 0,
        k < t,
    ensures
        power_mod(a, k, n) % (u as int) != 0,
        0 <= power_mod(a, k, n) < n,
{
    let x = power_mod(a, k, n);
    let y = power_mod(a, (t - k) as nat, n);
    lemma_mod_bound(pow(a as int, k), n as int);
    lemma_power_adds(a, k, (t - k) as nat, n);
    assert((x * y) % (n as int) == 1);
    if x % (u as int) == 0 {
        lemma_exact_division(n, u);
        let w = n / u;
        assert(w > 0) by (nonlinear_arith)
            requires
                n == u * w,
                n > 0,
                u > 0,
        ;
        lemma_mod_mod(x * y, u as int, w as int);
        lemma_mul_mod_noop_general(x, y, u as int);
        assert(0 * y == 0);
        lemma_small_mod(0, u);
        lemma_small_mod(1, u);
    }
}

/// The criterion of the full order. Where `n - 1` has been taken apart wholly
/// and `a^(n - 1)` is one modulo `n`, `n` is prime: the `n - 1` powers of `a`
/// differ, and a divisor of `n` divides none of them, which leaves no room
/// for one.
pub proof fn lemma_criterion(n: nat, a: nat, qs: Seq<nat>)
    requires
        n > 1,
        certified(n, a, (n - 1) as nat, qs),
        power_mod(a, (n - 1) as nat, n) == 1,
    ensures
        is_prime(n),
{
    if !is_prime(n) {
        let top = (n - 1) as nat;
        let u = choose|u: nat| 1 < u < n && #[trigger] (n % u) == 0;
        let powers = powers_below(a, n, top);
        let room = set_int_range(0, n as int).remove(0).remove(u as int);
        lemma_full_order(n, a, qs);
        lemma_count_powers(a, n, top, top);
        lemma_int_range(0, n as int);
        assert(room.len() == n - 2);
        assert forall|x: int| powers.contains(x) implies room.contains(x) by {
            let k = choose|k: nat| k < top && #[trigger] power_mod(a, k, n) == x;
            lemma_powers_are_units(a, n, top, u, k);
            lemma_small_mod(0, u);
            lemma_mod_multiples_basic(1, u as int);
        }
        lemma_len_subset(powers, room);
    }
}

/// A composite number has a prime divisor whose square does not exceed it.
proof fn lemma_small_prime_divisor(n: nat)
    requires
        n > 1,
        !is_prime(n),
    ensures
        exists|p: nat| is_prime(p) && p * p <= n && #[trigger] (n % p) == 0,
{
    let u = choose|u: nat| 1 < u < n && #[trigger] (n % u) == 0;
    lemma_exact_division(n, u);
    let v = n / u;
    assert(1 < v) by (nonlinear_arith)
        requires
            n == u * v,
            1 < u < n,
    ;
    lemma_mod_multiples_basic(u as int, v as int);
    assert(n == v * u) by (nonlinear_arith)
        requires
            n == u * v,
    ;
    assert(n % v == 0);
    let w = if u <= v { u } else { v };
    let z = if u <= v { v } else { u };
    assert(w * w <= n) by (nonlinear_arith)
        requires
            n == w * z,
            0 < w <= z,
    ;
    lemma_prime_divisor(w);
    let p = choose|p: nat| is_prime(p) && #[trigger] (w % p) == 0;
    lemma_exact_division(w, p);
    let c = w / p;
    assert(c >= 1 && p <= w) by (nonlinear_arith)
        requires
            w == p * c,
            w > 1,
            p > 1,
    ;
    assert(p * p <= w * w) by (nonlinear_arith)
        requires
            0 < p <= w,
    ;
    assert(n == (c * z) * p) by (nonlinear_arith)
        requires
            n == w * z,
            w == p * c,
    ;
    lemma_mod_multiples_basic((c * z) as int, p as int);
    assert(n % p == 0);
}

/// The criterion of the large factor. Where a prime `q` above the square root
/// of `n` divides `n - 1`, `a^(n - 1)` is one modulo `n`, and
/// `b = a^((n - 1) / q)` less one has the inverse `s` modulo `n`, `n` is
/// prime: modulo a prime divisor `p` of `n`, `b` has the order `q`, so that
/// `q` is below `p`, and the square of `p` exceeds `n`.
pub proof fn lemma_criterion_large_factor(n: nat, a: nat, q: nat, b: nat, s: nat)
    requires
        n > 1,
        is_prime(q),
        q * q > n,
        (n - 1) % (q as int) == 0,
        power_mod(a, (n - 1) as nat, n) == 1,
        power_mod(a, ((n - 1) / (q as int)) as nat, n) == b,
        (s * (b - 1)) % (n as int) == 1,
    ensures
        is_prime(n),
{
    if !is_prime(n) {
        lemma_small_prime_divisor(n);
        let p = choose|p: nat| is_prime(p) && p * p <= n && #[trigger] (n % p) == 0;
        let e = ((n - 1) / (q as int)) as nat;
        lemma_exact_division(n, p);
        let w = n / p;
        assert(w > 0) by (nonlinear_arith)
            requires
                n == p * w,
                n > 0,
                p > 0,
        ;
        lemma_exact_division((n - 1) as nat, q);
        // modulo p, b^q is a^(n - 1), which is one
        assert(power_mod(b, q, p) == 1) by {
            lemma_pow_mod_noop(pow(a as int, e), q, n as int);
            lemma_pow_multiplies(a as int, e, q);
            assert(e * q == q * e) by (nonlinear_arith);
            assert(pow(b as int, q) % (n as int) == 1);
            lemma_mod_mod(pow(b as int, q), p as int, w as int);
            lemma_small_mod(1, p);
        }
        // modulo p, b is not one, as b - 1 has an inverse modulo n
        assert(power_mod(b, 1, p) != 1) by {
            lemma_pow1(b as int);
            if b % p == 1 {
                lemma_small_mod(1, p);
                lemma_mod_equivalence(b as int, 1, p as int);
                lemma_mul_mod_noop_general(s as int, b - 1, p as int);
                assert(s * 0 == 0);
                lemma_small_mod(0, p);
                lemma_mod_mod(s * (b - 1), p as int, w as int);
            }
        }
        // so b has the order q modulo p
        assert forall|j: nat| 0 < j < q implies #[trigger] power_mod(b, j, p) != 1 by {
            if power_mod(b, j, p) == 1 {
                lemma_least_exponent(b, p, j);
                let d = choose|d: nat|
                    0 < d <= j && #[trigger] power_mod(b, d, p) == 1 && forall|i: nat|
                        0 < i < d ==> #[trigger] power_mod(b, i, p) != 1;
                lemma_order_divides(b, p, d, q);
                assert(d == 1);
            }
        }
        assert(has_order(b, p, q));
        // and its q powers are among the p - 1 numbers from 1 below p
        let powers = powers_below(b, p, q);
        let room = set_int_range(1, p as int);
        lemma_count_powers(b, p, q, q);
        lemma_int_range(1, p as int);
        assert forall|x: int| powers.contains(x) implies room.contains(x) by {
            let k = choose|k: nat| k < q && #[trigger] power_mod(b, k, p) == x;
            lemma_mod_multiples_basic(1, p as int);
            lemma_powers_are_units(b, p, q, p, k);
            lemma_small_mod(0, p);
        }
        lemma_len_subset(powers, room);
        assert(q * q < p * p) by (nonlinear_arith)
            requires
                0 < q < p,
        ;
    }
}

/// A further bit of the exponent: the power is squared, and multiplied by
/// `a` where the bit is one.
pub proof fn lemma_power_step(a: nat, n: nat, e: nat, v: int, bit: nat, next: int)
    requires
        n > 1,
        bit <= 1,
        power_mod(a, e, n) == v,
        next == (v * v * (if bit == 1 { a as int } else { 1 })) % (n as int),
    ensures
        power_mod(a, 2 * e + bit, n) == next,
{
    let m = n as int;
    let p = pow(a as int, e);
    lemma_pow_adds(a as int, e, e);
    lemma_mul_mod_noop_general(p, p, m);
    if bit == 1 {
        lemma_pow_adds(a as int, 2 * e, 1);
        lemma_pow1(a as int);
        lemma_mul_mod_noop_general(p * p, a as int, m);
        lemma_mul_mod_noop_general(v * v, a as int, m);
    } else {
        assert(v * v * 1 == v * v);
    }
}

} // verus!
