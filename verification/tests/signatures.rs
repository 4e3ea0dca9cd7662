use record_chain::error::ErrorKind;
use record_chain::point::Point;
use record_chain::scalar::{rnd_scalar, Scalar};
use record_chain::signatures::{ExtSignature, Signature};

#[allow(non_snake_case)]
#[test]
fn test_correct() {
    let a = rnd_scalar();
    let Pa = Point::mul_base(&a);

    let d0 = rnd_scalar();
    let d1 = rnd_scalar();

    let data = &[d0.to_bytes().to_vec(), d1.to_bytes().to_vec()];
    let sig = ExtSignature::sign(&a, Pa, data);

    assert!(sig.verify(data) == true);
}

#[allow(non_snake_case)]
#[test]
fn test_incorrect() {
    let a = rnd_scalar();
    let Pa = Point::mul_base(&a);

    let d0 = rnd_scalar();
    let d1 = rnd_scalar();
    let d2 = rnd_scalar();

    let data1 = &[d0.to_bytes().to_vec(), d1.to_bytes().to_vec()];
    let sig = ExtSignature::sign(&a, Pa, data1);

    let data2 = &[d0.to_bytes().to_vec(), d2.to_bytes().to_vec()];
    assert!(sig.verify(data2) == false);
}

#[test]
fn signing_is_deterministic() {
    let s = Scalar::from_u64(42);
    let key = Point::mul_base(&s);
    let data = vec![b"message".to_vec()];
    let one = Signature::sign(&s, &key, &data);
    let two = Signature::sign(&s, &key, &data);
    assert!(one.c == two.c);
    assert!(one.p == two.p);
    assert_eq!(one.encoded, two.encoded);
}

#[test]
fn signature_follows_the_formulas() {
    let s = Scalar::from_u64(42);
    let key = Point::mul_base(&s);
    let m = b"message".to_vec();
    let sig = Signature::sign(&s, &key, &[m.clone()]);

    // nonce = H(s || m), commitment = nonce * B
    let mut first = s.to_bytes().to_vec();
    first.extend_from_slice(&m);
    let nonce = Scalar::hash_from_bytes(&first);
    let commitment = Point::mul_base(&nonce);
    // c = H(K || R || m), p = nonce - c * s
    let mut second = key.compress().to_bytes().to_vec();
    second.extend_from_slice(&commitment.compress().to_bytes());
    second.extend_from_slice(&m);
    let c = Scalar::hash_from_bytes(&second);
    assert!(sig.c == c);
    assert!(sig.p == nonce.sub(&c.mul(&s)));
    // the verifier finds the commitment again as c * K + p * B
    assert!(key.mul(&sig.c).add(&Point::mul_base(&sig.p)) == commitment);
}

#[test]
fn a_message_is_the_concatenation_of_its_parts() {
    let s = Scalar::from_u64(42);
    let key = Point::mul_base(&s);
    let sig = Signature::sign(&s, &key, &[b"ab".to_vec(), b"c".to_vec()]);
    assert!(sig.verify(&key, &[b"a".to_vec(), b"bc".to_vec()]));
    assert!(sig.verify(&key, &[b"abc".to_vec()]));
    assert!(!sig.verify(&key, &[b"abd".to_vec()]));
}

#[test]
fn signature_under_another_key_fails() {
    let s = Scalar::from_u64(42);
    let key = Point::mul_base(&s);
    let other = Point::mul_base(&Scalar::from_u64(43));
    let data = vec![b"message".to_vec()];
    let sig = Signature::sign(&s, &key, &data);
    assert!(sig.verify(&key, &data));
    assert!(!sig.verify(&other, &data));
}

#[test]
fn text_is_base64_of_challenge_and_response() {
    let s = Scalar::from_u64(7);
    let key = Point::mul_base(&s);
    let sig = ExtSignature::sign(&s, key, &[b"m".to_vec()]);
    assert_eq!(sig.id().len(), 88);
    let mut both = sig.sig.c.to_bytes().to_vec();
    both.extend_from_slice(&sig.sig.p.to_bytes());
    assert_eq!(sig.id(), base64::encode(&both));
}

#[test]
fn extended_signature_has_136_bytes_and_reads_back() {
    let s = rnd_scalar();
    let key = Point::mul_base(&s);
    let data = vec![b"some message".to_vec()];
    let sig = ExtSignature::sign(&s, key, &data);
    let bytes = sig.serialize();
    assert_eq!(bytes.len(), 136);
    let back = ExtSignature::deserialize(&bytes).unwrap();
    assert!(back.sig.c == sig.sig.c);
    assert!(back.sig.p == sig.sig.p);
    assert!(back.key == sig.key);
    assert_eq!(back.sig.encoded, sig.sig.encoded);
    assert!(back.verify(&data));
    assert_eq!(back.serialize(), bytes);
}

#[test]
fn serialized_form_is_that_of_the_binary_codec() {
    let s = Scalar::from_u64(5);
    let key = Point::mul_base(&s);
    let sig = ExtSignature::sign(&s, key, &[b"m".to_vec()]);
    let dalek = curve25519_dalek::ristretto::CompressedRistretto(sig.key.compress().to_bytes())
        .decompress()
        .unwrap();
    let expected = bincode::serialize(&(sig.sig.encoded.clone(), dalek)).unwrap();
    assert_eq!(sig.serialize(), expected);
    let alone = bincode::serialize(&sig.sig.encoded).unwrap();
    assert_eq!(sig.sig.serialize(), alone);
}

fn decode_kind(bytes: &[u8]) -> ErrorKind {
    match ExtSignature::deserialize(bytes) {
        Err(e) => e.kind,
        Ok(_) => panic!("malformed bytes were accepted"),
    }
}

#[test]
fn malformed_extended_signatures_are_rejected() {
    let s = Scalar::from_u64(5);
    let key = Point::mul_base(&s);
    let good = ExtSignature::sign(&s, key, &[b"m".to_vec()]).serialize();

    // wrong length
    assert_eq!(decode_kind(&good[..135]), ErrorKind::Decode);
    let mut long = good.clone();
    long.push(0);
    assert_eq!(decode_kind(&long), ErrorKind::Decode);

    // wrong length field of the text
    let mut bad = good.clone();
    bad[0] = 87;
    assert_eq!(decode_kind(&bad), ErrorKind::Decode);

    // a character outside the base64 alphabet
    let mut bad = good.clone();
    bad[10] = b'!';
    assert_eq!(decode_kind(&bad), ErrorKind::Decode);

    // wrong length field of the key
    let mut bad = good.clone();
    bad[96] = 31;
    assert_eq!(decode_kind(&bad), ErrorKind::Decode);

    // bytes that encode no point
    let mut bad = good.clone();
    for b in bad[104..136].iter_mut() {
        *b = 0xff;
    }
    assert_eq!(decode_kind(&bad), ErrorKind::Decode);
}

#[test]
fn non_canonical_scalars_are_rejected() {
    // c = the group order itself, which is not reduced
    let order: [u8; 32] = [
        0xed, 0xd3, 0xf5, 0x5c, 0x1a, 0x63, 0x12, 0x58, 0xd6, 0x9c, 0xf7, 0xa2, 0xde, 0xf9, 0xde,
        0x14, 0, 0, 0, 0, 0, 0, 0, 0, 0, 0, 0, 0, 0, 0, 0, 0x10,
    ];
    assert!(Scalar::from_canonical_bytes(order).is_none());
    let mut both = order.to_vec();
    both.extend_from_slice(&[0u8; 32]);
    let text = base64::encode(&both);
    let mut bytes = 88u64.to_le_bytes().to_vec();
    bytes.extend_from_slice(text.as_bytes());
    match Signature::deserialize(&bytes) {
        Err(e) => assert_eq!(e.kind, ErrorKind::Decode),
        Ok(_) => panic!("a non-canonical scalar was accepted"),
    }
    // the largest reduced scalar is accepted
    let mut top = order;
    top[0] = 0xec;
    assert!(Scalar::from_canonical_bytes(top).is_some());
}
