//! The scalar field: integers modulo the prime order of the Ristretto group.

use vstd::prelude::*;
use vstd::arithmetic::div_mod::{
    lemma_add_mod_noop, lemma_add_mod_noop_right, lemma_mod_bound, lemma_mod_twice,
    lemma_mul_mod_noop_general, lemma_small_mod,
};

verus! {

/// The order of the Ristretto group, `2^252 + 27742317777372353535851937790883648493`.
pub open spec fn group_order() -> nat {
    0x1000000000000000000000000000000014def9dea2f79cd65812631a5cf5d3ednat
}

/// The number that a byte string denotes when read little-endian.
pub open spec fn le_nat(bytes: Seq<u8>) -> nat
    decreases bytes.len(),
{
    if bytes.len() == 0 {
        0
    } else {
        bytes[0] as nat + 256 * le_nat(bytes.drop_first())
    }
}

/// Two byte strings of one length that denote the same number are the same string.
pub proof fn lemma_le_nat_injective(a: Seq<u8>, b: Seq<u8>)
    requires
        a.len() == b.len(),
        le_nat(a) == le_nat(b),
    ensures
        a == b,
    decreases a.len(),
{
    if a.len() > 0 {
        let x = le_nat(a.drop_first());
        let y = le_nat(b.drop_first());
        assert(a[0] as nat + 256 * x == b[0] as nat + 256 * y);
        assert(a[0] == b[0] && x == y) by (nonlinear_arith)
            requires
                a[0] as nat + 256 * x == b[0] as nat + 256 * y,
                a[0] < 256,
                b[0] < 256,
        ;
        lemma_le_nat_injective(a.drop_first(), b.drop_first());
        assert(a =~= seq![a[0]] + a.drop_first());
        assert(b =~= seq![b[0]] + b.drop_first());
    } else {
        assert(a =~= b);
    }
}

/// Sum in the scalar field.
pub open spec fn fadd(a: nat, b: nat) -> nat {
    (a + b) % group_order()
}

/// Difference in the scalar field.
pub open spec fn fsub(a: nat, b: nat) -> nat {
    ((a as int - b as int) % (group_order() as int)) as nat
}

/// Product in the scalar field.
pub open spec fn fmul(a: nat, b: nat) -> nat {
    (a * b) % group_order()
}

/// Negation in the scalar field.
pub open spec fn fneg(a: nat) -> nat {
    fsub(0, a)
}

/// `b` is a multiplicative inverse of `a` in the scalar field.
pub open spec fn is_inverse(a: nat, b: nat) -> bool {
    b < group_order() && fmul(a, b) == 1
}

/// Whether `a` has a multiplicative inverse in the scalar field.
pub open spec fn invertible(a: nat) -> bool {
    exists|b: nat| is_inverse(a, b)
}

/// The multiplicative inverse of `a` in the scalar field, and 0 where `a` has none.
pub open spec fn finv(a: nat) -> nat {
    if invertible(a) {
        choose|b: nat| is_inverse(a, b)
    } else {
        0
    }
}

/// Products in the scalar field do not depend on which representative is multiplied.
pub proof fn lemma_fmul_reduce(a: nat, b: nat)
    ensures
        fmul(a % group_order(), b) == fmul(a, b),
        fmul(a, b % group_order()) == fmul(a, b),
        fmul(a, b) < group_order(),
        fmul(a, b) == fmul(b, a),
{
    let m = group_order() as int;
    lemma_mul_mod_noop_general(a as int, b as int, m);
    lemma_mod_bound((a * b) as int, m);
    assert(a * b == b * a) by (nonlinear_arith);
}

/// Sums in the scalar field do not depend on which representative is added.
pub proof fn lemma_fadd_reduce(a: nat, b: nat)
    ensures
        fadd(a % group_order(), b) == fadd(a, b),
        fadd(a, b % group_order()) == fadd(a, b),
        fadd(a, b) < group_order(),
        fadd(a, b) == fadd(b, a),
{
    let m = group_order() as int;
    lemma_add_mod_noop(a as int, b as int, m);
    lemma_add_mod_noop((a % group_order()) as int, b as int, m);
    lemma_add_mod_noop(a as int, (b % group_order()) as int, m);
    lemma_mod_twice(a as int, m);
    lemma_mod_twice(b as int, m);
    lemma_mod_bound((a + b) as int, m);
}

/// Adding back what was subtracted gives the first number again.
pub proof fn lemma_fadd_fsub(a: nat, b: nat)
    ensures
        fadd(b, fsub(a, b)) == a % group_order(),
        fadd(fsub(a, b), b) == a % group_order(),
        fsub(a, b) < group_order(),
{
    let m = group_order() as int;
    lemma_mod_bound(a as int - b as int, m);
    lemma_add_mod_noop_right(b as int, a as int - b as int, m);
}

/// Multiplication in the scalar field is associative.
pub proof fn lemma_fmul_assoc(a: nat, b: nat, c: nat)
    ensures
        fmul(fmul(a, b), c) == fmul(a, fmul(b, c)),
{
    lemma_fmul_reduce(a * b, c);
    lemma_fmul_reduce(a, b * c);
    assert((a * b) * c == a * (b * c)) by (nonlinear_arith);
}

/// A scalar has at most one multiplicative inverse.
pub proof fn lemma_inverse_unique(a: nat, b: nat, c: nat)
    requires
        is_inverse(a, b),
        is_inverse(a, c),
    ensures
        b == c,
{
    // b = b * (a * c) = (b * a) * c = c
    lemma_fmul_assoc(b, a, c);
    lemma_fmul_reduce(b, a);
    lemma_fmul_reduce(1, c);
    lemma_fmul_reduce(b, 1);
    assert(b * 1 == b && 1 * c == c) by (nonlinear_arith);
    lemma_small_mod(b, group_order());
    lemma_small_mod(c, group_order());
}

} // verus!
