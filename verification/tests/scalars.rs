use record_chain::encoding::{try_decode, HardKeyDecoder, KeyEncoder};
use record_chain::keys::KeyPair;
use record_chain::point::{CompressedPoint, Point};
use record_chain::scalar::{rnd_scalar, Scalar};

#[test]
fn scalar_arithmetic() {
    let a = Scalar::from_u64(20);
    let b = Scalar::from_u64(22);
    assert!(a.add(&b) == Scalar::from_u64(42));
    assert!(b.sub(&a) == Scalar::from_u64(2));
    assert!(a.mul(&b) == Scalar::from_u64(440));
    assert!(a.sub(&b).add(&b) == a);
    assert!(a.neg().add(&a) == Scalar::zero());
    assert!(Scalar::one().mul(&a) == a);
}

#[test]
fn scalar_subtraction_wraps_below_zero() {
    // 0 - 1 is the group order less one
    let top: [u8; 32] = [
        0xec, 0xd3, 0xf5, 0x5c, 0x1a, 0x63, 0x12, 0x58, 0xd6, 0x9c, 0xf7, 0xa2, 0xde, 0xf9, 0xde,
        0x14, 0, 0, 0, 0, 0, 0, 0, 0, 0, 0, 0, 0, 0, 0, 0, 0x10,
    ];
    assert_eq!(Scalar::zero().sub(&Scalar::one()).to_bytes(), top);
}

#[test]
fn scalar_inverse() {
    let a = Scalar::from_u64(12345);
    assert!(a.invert().mul(&a) == Scalar::one());
    assert!(Scalar::zero().invert() == Scalar::zero());
    assert!(Scalar::one().invert() == Scalar::one());
}

#[test]
fn scalar_bytes_are_little_endian() {
    let bytes = Scalar::from_u64(0x0102).to_bytes();
    assert_eq!(bytes[0], 2);
    assert_eq!(bytes[1], 1);
    assert!(bytes[2..].iter().all(|b| *b == 0));
    assert!(Scalar::from_canonical_bytes(bytes).unwrap() == Scalar::from_u64(0x0102));
}

#[test]
fn hashing_to_a_scalar_is_the_curve_librarys() {
    let expected = curve25519_dalek::scalar::Scalar::hash_from_bytes::<sha2::Sha512>(b"abc");
    assert_eq!(Scalar::hash_from_bytes(b"abc").to_bytes(), expected.to_bytes());
    assert!(Scalar::hash_from_bytes(b"abc") != Scalar::hash_from_bytes(b"abd"));
}

#[test]
fn random_scalars_differ() {
    assert!(rnd_scalar() != rnd_scalar());
}

#[test]
fn point_arithmetic() {
    let g = Point::basepoint();
    let two = g.add(&g);
    assert!(two == Point::mul_base(&Scalar::from_u64(2)));
    assert!(two.sub(&g) == g);
    assert!(g.sub(&g) == Point::identity());
    assert!(two.mul(&Scalar::from_u64(3)) == Point::mul_base(&Scalar::from_u64(6)));
    assert!(Point::identity().add(&g) == g);
    assert_eq!(Point::identity().compress().to_bytes(), [0u8; 32]);
}

#[test]
fn basepoint_has_the_known_encoding() {
    let expected = curve25519_dalek::constants::RISTRETTO_BASEPOINT_COMPRESSED;
    assert_eq!(Point::basepoint().compress().to_bytes(), expected.to_bytes());
}

#[test]
fn decompression_accepts_points_only() {
    let g = Point::basepoint().compress();
    assert!(g.decompress().unwrap() == Point::basepoint());
    assert!(CompressedPoint([0xff; 32]).decompress().is_none());
    assert_eq!(g.as_bytes(), &g.to_bytes());
}

#[test]
fn key_pair_holds_the_secrets_multiple() {
    let pair = KeyPair::new();
    assert!(pair.key == Point::mul_base(&pair.s));
    let fixed = KeyPair::from_secret(Scalar::from_u64(3));
    assert!(fixed.key == Point::basepoint().mul(&Scalar::from_u64(3)));
}

#[test]
fn keys_are_written_as_base64() {
    let s = Scalar::from_u64(1);
    assert_eq!(s.encode(), "AQAAAAAAAAAAAAAAAAAAAAAAAAAAAAAAAAAAAAAAAAA=");
    let g = Point::basepoint();
    assert_eq!(g.encode(), base64::encode(&g.compress().to_bytes()));
    assert_eq!(g.compress().encode(), g.encode());
}

#[test]
fn keys_are_read_from_base64() {
    let s = rnd_scalar();
    let back: Scalar = s.encode().decode();
    assert!(back == s);
    let g = Point::mul_base(&s);
    let point: Point = g.encode().decode();
    assert!(point == g);
    let compressed: CompressedPoint = g.encode().decode();
    assert_eq!(compressed.to_bytes(), g.compress().to_bytes());
}

#[test]
fn text_that_holds_no_key_is_not_decoded() {
    let not_base64 = String::from("***");
    let r: Option<Scalar> = try_decode(&not_base64);
    assert!(r.is_none());
    let short = base64::encode(&[1u8; 16]);
    let r: Option<Scalar> = try_decode(&short);
    assert!(r.is_none());
    let r: Option<CompressedPoint> = try_decode(&short);
    assert!(r.is_none());
    let no_point = base64::encode(&[0xffu8; 32]);
    let r: Option<Point> = try_decode(&no_point);
    assert!(r.is_none());
    let r: Option<CompressedPoint> = try_decode(&no_point);
    assert_eq!(r.unwrap().to_bytes(), [0xffu8; 32]);
    let r: Option<Scalar> = try_decode(&no_point);
    assert!(r.is_none());
    let good = Scalar::from_u64(77).encode();
    let r: Option<Scalar> = try_decode(&good);
    assert!(r.unwrap() == Scalar::from_u64(77));
}

#[test]
fn cleared_scalar_is_zero() {
    let mut s = rnd_scalar();
    s.clear();
    assert!(s == Scalar::zero());
    assert_eq!(s.to_bytes(), [0u8; 32]);
}

#[test]
fn cleared_secret_bytes_are_zero() {
    let mut secret = record_chain::secret::SecretBytes::new([7u8; 32]);
    assert_eq!(secret.get(), [7u8; 32]);
    let copy = secret.clone();
    secret.clear();
    assert_eq!(secret.get(), [0u8; 32]);
    assert_eq!(copy.get(), [7u8; 32]);
}
