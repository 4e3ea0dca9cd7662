use record_chain::error::ErrorKind;
use record_chain::point::Point;
use record_chain::scalar::{rnd_scalar, Scalar};
use record_chain::shares::{
    cut_tail, lx_num_bar, short_mul, Degree, Evaluate, Polynomial, RistrettoShare, Share,
    ShareVector,
};

#[allow(non_snake_case)]
#[test]
fn test_reconstruct() {
    let threshold = 16;
    let parties = 3 * threshold + 1;

    let s = rnd_scalar();
    let G = Point::basepoint();
    let S = G.mul(&s);

    let poly = Polynomial::rnd(s.clone(), threshold);

    let shares = poly.shares(parties);
    let S_shares = shares.lift_to_point(&G);

    let r_s = shares.recover();
    assert!(s == r_s);

    let r_S = S_shares.recover();
    assert!(S == r_S);
}

fn line(a0: u64, a1: u64) -> Polynomial {
    Polynomial { a: vec![Scalar::from_u64(a0), Scalar::from_u64(a1)] }
}

#[test]
fn evaluate_follows_horner() {
    // 7 + 3x + 2x^2 at x = 5 is 7 + 15 + 50
    let poly = Polynomial {
        a: vec![Scalar::from_u64(7), Scalar::from_u64(3), Scalar::from_u64(2)],
    };
    assert!(poly.evaluate(&Scalar::from_u64(5)) == Scalar::from_u64(72));
    assert!(poly.evaluate(&Scalar::zero()) == Scalar::from_u64(7));
    assert_eq!(poly.degree(), 2);
}

#[test]
fn shares_are_values_at_one_to_n() {
    let shares = line(10, 4).shares(3);
    assert_eq!(shares.0.len(), 3);
    assert_eq!(shares.0[0].i, 1);
    assert_eq!(shares.0[2].i, 3);
    assert!(shares.0[0].yi == Scalar::from_u64(14));
    assert!(shares.0[1].yi == Scalar::from_u64(18));
    assert!(shares.0[2].yi == Scalar::from_u64(22));
}

#[test]
fn no_shares_for_no_parties() {
    assert_eq!(line(10, 4).shares(0).0.len(), 0);
}

#[test]
fn lagrange_basis_of_two_nodes() {
    // nodes 1 and 2: l_0 = 2 / (2 - 1) = 2, l_1 = 1 / (1 - 2) = -1
    let range = vec![Scalar::from_u64(1), Scalar::from_u64(2)];
    assert!(Polynomial::l_i(&range, 0) == Scalar::from_u64(2));
    assert!(Polynomial::l_i(&range, 1) == Scalar::one().neg());
}

#[test]
fn lagrange_basis_with_a_repeated_node_is_zero() {
    let range = vec![Scalar::from_u64(3), Scalar::from_u64(3)];
    assert!(Polynomial::l_i(&range, 0) == Scalar::zero());
}

#[test]
fn any_two_shares_of_a_line_recover_its_secret() {
    let all = line(1234, 77).shares(5);
    let pick = ShareVector(vec![all.0[4].clone(), all.0[1].clone()]);
    assert!(pick.recover() == Scalar::from_u64(1234));
}

#[test]
fn one_share_of_a_line_does_not_recover_its_secret() {
    let all = line(1234, 77).shares(5);
    let pick = ShareVector(vec![all.0[2].clone()]);
    // a single share interpolates to its own value
    assert!(pick.recover() == Scalar::from_u64(1234 + 3 * 77));
}

#[test]
fn recovery_in_the_exponent_matches_the_lifted_secret() {
    let q = Point::basepoint().mul(&Scalar::from_u64(9));
    let all = line(55, 8).shares(4);
    let pick = ShareVector(vec![all.0[0].clone(), all.0[3].clone()]);
    let lifted = pick.lift_to_point(&q);
    assert!(lifted.recover() == q.mul(&Scalar::from_u64(55)));
}

#[test]
fn share_set_with_duplicate_index_is_rejected() {
    let all = line(1, 2).shares(3);
    let twice = vec![all.0[0].clone(), all.0[1].clone(), all.0[0].clone()];
    match ShareVector::new(twice, 1) {
        Err(e) => assert_eq!(e.kind, ErrorKind::Threshold),
        Ok(_) => panic!("a repeated index was accepted"),
    }
}

#[test]
fn share_set_below_threshold_is_rejected() {
    let all = line(1, 2).shares(3);
    let one = vec![all.0[0].clone()];
    match ShareVector::new(one, 1) {
        Err(e) => assert_eq!(e.kind, ErrorKind::Threshold),
        Ok(_) => panic!("too few shares were accepted"),
    }
    let two = vec![all.0[0].clone(), all.0[2].clone()];
    assert!(ShareVector::new(two, 1).is_ok());
}

#[test]
fn share_algebra() {
    let a = Share { i: 3, yi: Scalar::from_u64(10) };
    let b = Share { i: 3, yi: Scalar::from_u64(4) };
    assert!(a.add(&b).yi == Scalar::from_u64(14));
    assert!(a.sub(&b).yi == Scalar::from_u64(6));
    assert!(a.add_scalar(&Scalar::from_u64(1)).yi == Scalar::from_u64(11));
    assert!(a.sub_scalar(&Scalar::from_u64(1)).yi == Scalar::from_u64(9));
    assert!(a.mul_scalar(&Scalar::from_u64(5)).yi == Scalar::from_u64(50));
    assert_eq!(a.add(&b).i, 3);
    let g = Point::basepoint();
    let lifted = a.lift_to_point(&g);
    assert_eq!(lifted.i, 3);
    assert!(lifted.Yi == Point::mul_base(&Scalar::from_u64(10)));
}

#[test]
fn point_share_algebra() {
    let g = Point::basepoint();
    let share = RistrettoShare { i: 2, Yi: Point::mul_base(&Scalar::from_u64(6)) };
    assert!(share.add_point(&g).Yi == Point::mul_base(&Scalar::from_u64(7)));
    assert!(share.sub_point(&g).Yi == Point::mul_base(&Scalar::from_u64(5)));
    assert!(share.mul_scalar(&Scalar::from_u64(3)).Yi == Point::mul_base(&Scalar::from_u64(18)));
}

#[test]
fn commitment_verifies_its_shares_and_no_others() {
    let poly = line(21, 5);
    let g = Point::basepoint();
    let commitment = poly.lift_to_point(&g);
    assert_eq!(commitment.degree(), 1);
    let shares = poly.shares(3).lift_to_point(&g);
    for share in shares.0.iter() {
        assert!(commitment.verify(share));
    }
    let wrong = RistrettoShare { i: 2, Yi: Point::mul_base(&Scalar::from_u64(30)) };
    assert!(!commitment.verify(&wrong));
    let scaled = commitment.mul_scalar(&Scalar::from_u64(2));
    let doubled = RistrettoShare { i: 2, Yi: Point::mul_base(&Scalar::from_u64(62)) };
    assert!(scaled.verify(&doubled));
}

#[test]
fn scaled_polynomial() {
    let poly = line(21, 5).mul_scalar(&Scalar::from_u64(3));
    assert!(poly.a[0] == Scalar::from_u64(63));
    assert!(poly.a[1] == Scalar::from_u64(15));
}

#[test]
fn random_polynomial_keeps_the_secret() {
    let poly = Polynomial::rnd(Scalar::from_u64(99), 4);
    assert_eq!(poly.a.len(), 5);
    assert!(poly.a[0] == Scalar::from_u64(99));
    assert!(poly.evaluate(&Scalar::zero()) == Scalar::from_u64(99));
}

fn values(v: &[Scalar]) -> Vec<[u8; 32]> {
    v.iter().map(|s| s.to_bytes()).collect()
}

fn scalars(v: &[u64]) -> Vec<Scalar> {
    v.iter().map(|x| Scalar::from_u64(*x)).collect()
}

#[test]
fn short_mul_multiplies_by_a_linear_factor() {
    // (x + 2)(x + 3) = 6 + 5x + x^2
    let mut poly = scalars(&[2, 1]);
    short_mul(&mut poly, Scalar::from_u64(3));
    assert_eq!(values(&poly), values(&scalars(&[6, 5, 1])));
    // (x + 4) times the constant 1
    let mut one = scalars(&[1]);
    short_mul(&mut one, Scalar::from_u64(4));
    assert_eq!(values(&one), values(&scalars(&[4, 1])));
}

#[test]
fn basis_polynomial_in_parts() {
    // nodes 1, 2, 4 and i = 1: numerator (x - 1)(x - 4) = 4 - 5x + x^2,
    // denominator (2 - 1)(2 - 4) = -2
    let range = scalars(&[1, 2, 4]);
    let (num, bar) = lx_num_bar(&range, 1);
    assert_eq!(num.len(), 3);
    assert!(num[0] == Scalar::from_u64(4));
    assert!(num[1] == Scalar::from_u64(5).neg());
    assert!(num[2] == Scalar::one());
    assert!(bar == Scalar::from_u64(2).neg().invert());
    // at zero the parts give the basis polynomial
    assert!(num[0].mul(&bar) == Polynomial::l_i(&range, 1));
}

fn cut_by_the_iterators(v: &mut Vec<u64>, elm: u64) {
    if let Some(i) = v.iter().rev().rposition(|x| *x == elm) {
        v.truncate(i);
    }
}

#[test]
fn cut_tail_keeps_what_follows_the_first_occurrence_in_count() {
    for (v, elm) in [
        (vec![1u64, 0, 0], 0u64),
        (vec![1, 2, 0], 0),
        (vec![0, 1, 2, 3], 0),
        (vec![1, 2, 3], 0),
        (vec![], 0),
        (vec![5, 5, 5, 5, 5], 5),
    ] {
        let mut mine = v.clone();
        cut_tail(&mut mine, elm);
        let mut theirs = v.clone();
        cut_by_the_iterators(&mut theirs, elm);
        assert_eq!(mine, theirs);
    }
    let mut v = vec![1u64, 0, 0];
    cut_tail(&mut v, 0);
    assert_eq!(v, vec![1]);
}
