use record_chain::error::ErrorKind;
use record_chain::keys::{KeyPair, LambdaKey};
use record_chain::payload::{RnData, RnFileRef};
use record_chain::point::Point;
use record_chain::records::{Rn, RnChain, RnKind};
use record_chain::scalar::Scalar;
use record_chain::shares::{Polynomial, ShareVector};
use sha2::Digest;

#[test]
fn record_write_load() {
    let ekp = KeyPair::new(); // master key-pair
    let skp = KeyPair::new(); // source key-pair

    let id = "subject-id";
    let set = "dataset-id";

    let cd1 = RnData {
        lambda_prev: None,
        file: RnFileRef { dn: *b"encryption123456", hfile: b"file-url".to_vec() },
    };
    let (_, r1) = Rn::head(&skp, &ekp.key, id, set, cd1.clone());
    assert!(r1.check().is_ok());

    let alpha = r1.data.kn.mul(&ekp.s).compress();
    let lambda = LambdaKey::new(&alpha, id, set);
    let cd2 = r1.data.data(&lambda).unwrap();
    assert!(cd1 == cd2);
}

fn three_records(ekp: &KeyPair, skp: &KeyPair) -> RnChain {
    let id = "subject-id";
    let set = "dataset-id";

    let rd = RnData {
        lambda_prev: None,
        file: RnFileRef { dn: *b"encryption123456", hfile: b"file-1-url".to_vec() },
    };
    let (lamb, r) = Rn::head(skp, &ekp.key, id, set, rd);

    let mut chain = RnChain::new(r).unwrap();

    let rd = RnData {
        lambda_prev: Some(lamb),
        file: RnFileRef { dn: *b"encryption654321", hfile: b"file-2-url".to_vec() },
    };
    let (lamb, r) = Rn::tail(skp, &ekp.key, &chain.lhash, id, set, rd);

    chain.push(r).unwrap();

    let rd = RnData {
        lambda_prev: Some(lamb),
        file: RnFileRef { dn: *b"encryption564321", hfile: b"file-3-url".to_vec() },
    };
    let (_, r) = Rn::tail(skp, &ekp.key, &chain.lhash, id, set, rd);

    chain.push(r).unwrap();
    chain
}

fn listing(refs: &[RnFileRef]) -> String {
    let mut res: String = "".into();
    for r in refs.iter() {
        res += &format!(
            "(dn={}, hfile={})",
            std::str::from_utf8(&r.dn).unwrap(),
            std::str::from_utf8(&r.hfile).unwrap()
        );
    }
    res
}

#[test]
fn chain_write_load() {
    let ekp = KeyPair::new(); // master key-pair
    let skp = KeyPair::new(); // source key-pair

    let chain = three_records(&ekp, &skp);

    // recover the file references
    let alpha = chain.kn().mul(&ekp.s).compress();
    let refs = chain.recover(&alpha).unwrap();

    let res = listing(&refs);

    assert!(res == "(dn=encryption123456, hfile=file-1-url)(dn=encryption654321, hfile=file-2-url)(dn=encryption564321, hfile=file-3-url)");
}

#[test]
fn chain_is_recovered_from_a_quorum_of_shares() {
    let threshold = 16;
    let parties = 49;
    let ekp = KeyPair::new();
    let skp = KeyPair::new();
    let shares = Polynomial::rnd(ekp.s.clone(), threshold).shares(parties);

    let chain = three_records(&ekp, &skp);
    assert_eq!(chain.id(), "subject-id");
    assert_eq!(chain.set(), "dataset-id");

    let alpha = shares.lift_to_point(chain.kn()).recover().compress();
    let refs = chain.recover(&alpha).unwrap();
    assert_eq!(
        listing(&refs),
        "(dn=encryption123456, hfile=file-1-url)(dn=encryption654321, hfile=file-2-url)(dn=encryption564321, hfile=file-3-url)"
    );

    // any 17 of the 49 do
    let some: Vec<_> = shares.0.iter().skip(20).take(threshold + 1).cloned().collect();
    let quorum = ShareVector::new(some, threshold).unwrap();
    let alpha = quorum.lift_to_point(chain.kn()).recover().compress();
    assert_eq!(chain.recover(&alpha).unwrap().len(), 3);
}

#[test]
fn chain_is_not_recovered_from_too_few_shares() {
    let threshold = 16;
    let ekp = KeyPair::new();
    let skp = KeyPair::new();
    let shares = Polynomial::rnd(ekp.s.clone(), threshold).shares(49);
    let chain = three_records(&ekp, &skp);

    let few: Vec<_> = shares.0.iter().take(threshold).cloned().collect();
    let alpha = ShareVector(few).lift_to_point(chain.kn()).recover().compress();
    match chain.recover(&alpha) {
        Err(e) => assert!(e.kind == ErrorKind::Padding || e.kind == ErrorKind::Recovery),
        Ok(_) => panic!("the chain was unsealed below the threshold"),
    }
}

#[test]
fn tail_with_a_wrong_link_is_rejected() {
    let ekp = KeyPair::new();
    let skp = KeyPair::new();
    let id = "subject-id";
    let set = "dataset-id";
    let rd = RnData {
        lambda_prev: None,
        file: RnFileRef { dn: *b"encryption123456", hfile: b"file-1-url".to_vec() },
    };
    let (lamb, r) = Rn::head(&skp, &ekp.key, id, set, rd);
    let mut chain = RnChain::new(r).unwrap();

    let mut hprev = chain.lhash.clone();
    hprev[0] ^= 1;
    let rd = RnData {
        lambda_prev: Some(lamb),
        file: RnFileRef { dn: *b"encryption654321", hfile: b"file-2-url".to_vec() },
    };
    let (_, r) = Rn::tail(&skp, &ekp.key, &hprev, id, set, rd);
    assert!(r.check().is_ok());
    let before = chain.lhash.clone();
    match chain.push(r) {
        Err(e) => assert_eq!(e.kind, ErrorKind::ChainLink),
        Ok(()) => panic!("a tail with a wrong link was accepted"),
    }
    assert_eq!(chain.chain.len(), 1);
    assert_eq!(chain.lhash, before);
}

#[test]
fn record_with_a_changed_link_fails_its_signature() {
    let ekp = KeyPair::new();
    let skp = KeyPair::new();
    let mut chain = three_records(&ekp, &skp);
    let mut last = chain.chain.pop().unwrap();
    chain.lhash = chain.chain[1].hash();
    if let RnKind::Tail { hprev } = &mut last.kind {
        hprev[0] ^= 1;
    }
    match chain.push(last) {
        Err(e) => assert_eq!(e.kind, ErrorKind::Signature),
        Ok(()) => panic!("a changed record was accepted"),
    }
}

#[test]
fn truncated_ciphertext_is_rejected() {
    let ekp = KeyPair::new();
    let skp = KeyPair::new();
    let mut chain = three_records(&ekp, &skp);
    chain.chain[2].data.data.pop();
    let alpha = chain.kn().mul(&ekp.s).compress();
    match chain.recover(&alpha) {
        Err(e) => assert!(e.kind == ErrorKind::Padding || e.kind == ErrorKind::Recovery),
        Ok(_) => panic!("a truncated record was unsealed"),
    }
}

#[test]
fn head_and_tail_are_told_apart() {
    let ekp = KeyPair::new();
    let skp = KeyPair::new();
    let id = "subject-id";
    let set = "dataset-id";
    let file = RnFileRef { dn: *b"encryption123456", hfile: b"file-1-url".to_vec() };
    let (lamb, head) =
        Rn::head(&skp, &ekp.key, id, set, RnData { lambda_prev: None, file: file.clone() });
    let (_, tail) = Rn::tail(
        &skp,
        &ekp.key,
        &head.hash(),
        id,
        set,
        RnData { lambda_prev: Some(lamb), file: file.clone() },
    );
    assert!(head.owner() == &skp.key);

    match RnChain::new(tail) {
        Err(e) => assert_eq!(e.kind, ErrorKind::Shape),
        Ok(_) => panic!("a tail began a chain"),
    }
    let (_, second) =
        Rn::head(&skp, &ekp.key, id, set, RnData { lambda_prev: None, file: file.clone() });
    let mut chain = RnChain::new(head).unwrap();
    match chain.push(second) {
        Err(e) => assert_eq!(e.kind, ErrorKind::Shape),
        Ok(()) => panic!("a head followed a head"),
    }
}

#[test]
fn unsigned_head_is_rejected() {
    let ekp = KeyPair::new();
    let skp = KeyPair::new();
    let file = RnFileRef { dn: *b"encryption123456", hfile: b"file-1-url".to_vec() };
    let (_, mut head) =
        Rn::head(&skp, &ekp.key, "a", "b", RnData { lambda_prev: None, file });
    head.data.data[0] ^= 1;
    assert!(head.check().is_err());
    match RnChain::new(head) {
        Err(e) => assert_eq!(e.kind, ErrorKind::Signature),
        Ok(_) => panic!("a changed head began a chain"),
    }
}

#[test]
fn walk_needs_the_key_of_each_record_before() {
    let ekp = KeyPair::new();
    let skp = KeyPair::new();
    let id = "subject-id";
    let set = "dataset-id";
    let file = RnFileRef { dn: *b"encryption123456", hfile: b"file-1-url".to_vec() };
    let (lamb, head) =
        Rn::head(&skp, &ekp.key, id, set, RnData { lambda_prev: None, file: file.clone() });
    let mut chain = RnChain::new(head).unwrap();
    // a tail that holds no key of the record before it
    let (_, tail) = Rn::tail(
        &skp,
        &ekp.key,
        &chain.lhash,
        id,
        set,
        RnData { lambda_prev: None, file: file.clone() },
    );
    chain.push(tail).unwrap();
    let alpha = chain.kn().mul(&ekp.s).compress();
    match chain.recover(&alpha) {
        Err(e) => assert_eq!(e.kind, ErrorKind::Recovery),
        Ok(_) => panic!("a chain without a key was walked"),
    }

    // a head that holds a key
    let (_, head) = Rn::head(
        &skp,
        &ekp.key,
        id,
        set,
        RnData { lambda_prev: Some(lamb), file: file.clone() },
    );
    let chain = RnChain::new(head).unwrap();
    let alpha = chain.kn().mul(&ekp.s).compress();
    match chain.recover(&alpha) {
        Err(e) => assert_eq!(e.kind, ErrorKind::Shape),
        Ok(_) => panic!("a head with a key was walked"),
    }

    // no records at all
    let empty = RnChain { lhash: Vec::new(), chain: Vec::new() };
    match empty.recover(&alpha) {
        Err(e) => assert_eq!(e.kind, ErrorKind::Shape),
        Ok(_) => panic!("an empty chain was walked"),
    }
}

#[test]
fn sealing_with_a_given_secret_is_deterministic() {
    let ekp = KeyPair::from_secret(Scalar::from_u64(11));
    let skp = KeyPair::from_secret(Scalar::from_u64(12));
    let k = Scalar::from_u64(13);
    let rd = RnData {
        lambda_prev: None,
        file: RnFileRef { dn: *b"encryption123456", hfile: b"file-1-url".to_vec() },
    };
    let (l1, r1) = Rn::head_with(&k, &skp, &ekp.key, "a", "b", rd.clone());
    let (l2, r2) = Rn::head_with(&k, &skp, &ekp.key, "a", "b", rd.clone());
    assert!(l1 == l2);
    assert_eq!(r1.data.data, r2.data.data);
    assert_eq!(r1.hash(), r2.hash());
    assert!(r1.data.kn == Point::mul_base(&k));
    // 1 + 16 + 8 + 10 bytes of payload are padded to 48
    assert_eq!(r1.data.data.len(), 48);
    assert_eq!(r1.data.to_vec().len(), 32 + 48);
    // the key is the hash of the shared point and the framed names
    let alpha = ekp.key.mul(&k).compress();
    assert!(l1 == LambdaKey::new(&alpha, "a", "b"));
    assert!(l1 != LambdaKey::new(&alpha, "ab", ""));
}

#[test]
fn every_tail_holds_the_hash_of_the_record_before() {
    let ekp = KeyPair::new();
    let skp = KeyPair::new();
    let chain = three_records(&ekp, &skp);
    for k in 1..chain.chain.len() {
        match &chain.chain[k].kind {
            RnKind::Tail { hprev } => {
                assert_eq!(hprev, &chain.chain[k - 1].check().unwrap());
            }
            RnKind::Head { .. } => panic!("a head after the first record"),
        }
    }
    match &chain.chain[0].kind {
        RnKind::Head { id, set } => {
            assert_eq!(id, "subject-id");
            assert_eq!(set, "dataset-id");
        }
        RnKind::Tail { .. } => panic!("a tail as the first record"),
    }
    assert_eq!(chain.lhash, chain.chain[2].hash());
}

#[test]
fn record_hash_is_sha256_of_names_point_and_ciphertext() {
    let ekp = KeyPair::new();
    let skp = KeyPair::new();
    let chain = three_records(&ekp, &skp);
    let head = &chain.chain[0];
    let mut preimage = b"subject-iddataset-id".to_vec();
    preimage.extend_from_slice(&head.data.kn.compress().to_bytes());
    preimage.extend_from_slice(&head.data.data);
    assert_eq!(head.hash(), sha2::Sha256::digest(&preimage).to_vec());
    let tail = &chain.chain[1];
    let mut preimage = head.hash();
    preimage.extend_from_slice(&tail.data.to_vec());
    assert_eq!(tail.hash(), sha2::Sha256::digest(&preimage).to_vec());
}

#[test]
fn recovery_verifies_the_signature_of_every_record() {
    let ekp = KeyPair::new();
    let skp = KeyPair::new();
    for at in 0..3 {
        let mut chain = three_records(&ekp, &skp);
        chain.chain[at].sig.sig.p = chain.chain[at].sig.sig.p.add(&Scalar::one());
        let alpha = chain.kn().mul(&ekp.s).compress();
        match chain.recover(&alpha) {
            Err(e) => assert_eq!(e.kind, ErrorKind::Signature),
            Ok(_) => panic!("a record with a changed signature was accepted"),
        }
    }
}
