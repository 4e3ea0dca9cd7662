use record_chain::error::ErrorKind;
use record_chain::keys::LambdaKey;
use record_chain::payload::{RnData, RnFileRef};
use record_chain::point::Point;
use sha2::Digest;

fn key() -> LambdaKey {
    LambdaKey::new(&Point::basepoint().compress(), "subject-id", "dataset-id")
}

#[test]
fn lambda_key_is_the_hash_of_the_framed_preimage() {
    let alpha = Point::basepoint().compress();
    let mut preimage = alpha.to_bytes().to_vec();
    preimage.extend_from_slice(&10u64.to_le_bytes());
    preimage.extend_from_slice(b"subject-id");
    preimage.extend_from_slice(&10u64.to_le_bytes());
    preimage.extend_from_slice(b"dataset-id");
    let expected = sha2::Sha256::digest(&preimage);
    assert_eq!(key().k256().to_vec(), expected.to_vec());
}

#[test]
fn lambda_key_projections_are_prefixes() {
    let k = key();
    let all = k.k256();
    assert_eq!(k.k128().to_vec(), all[..16].to_vec());
    assert_eq!(k.k192().to_vec(), all[..24].to_vec());
    assert!(LambdaKey::from_bytes(all) == k);
}

#[test]
fn head_payload_has_the_codecs_form() {
    let data = RnData {
        lambda_prev: None,
        file: RnFileRef { dn: *b"encryption123456", hfile: b"file-url".to_vec() },
    };
    let none: Option<Vec<u8>> = None;
    let expected =
        bincode::serialize(&(none, (*b"encryption123456", b"file-url".to_vec()))).unwrap();
    assert_eq!(data.serialize(), expected);
    assert_eq!(expected.len(), 1 + 16 + 8 + 8);
    assert!(RnData::deserialize(&expected).unwrap() == data);
}

#[test]
fn tail_payload_has_the_codecs_form() {
    let data = RnData {
        lambda_prev: Some(key()),
        file: RnFileRef { dn: *b"encryption654321", hfile: Vec::new() },
    };
    let expected = bincode::serialize(&(
        Some(key().k256().to_vec()),
        (*b"encryption654321", Vec::<u8>::new()),
    ))
    .unwrap();
    assert_eq!(data.serialize(), expected);
    assert_eq!(expected.len(), 1 + 8 + 32 + 16 + 8);
    assert!(RnData::deserialize(&expected).unwrap() == data);
}

fn rejected(bytes: &[u8]) {
    match RnData::deserialize(bytes) {
        Err(e) => assert_eq!(e.kind, ErrorKind::Recovery),
        Ok(_) => panic!("malformed bytes were read as a payload"),
    }
}

#[test]
fn malformed_payloads_are_rejected() {
    let good = RnData {
        lambda_prev: Some(key()),
        file: RnFileRef { dn: *b"encryption654321", hfile: b"xyz".to_vec() },
    }
    .serialize();
    rejected(&[]);
    rejected(&good[..good.len() - 1]);
    let mut long = good.clone();
    long.push(0);
    rejected(&long);
    let mut tag = good.clone();
    tag[0] = 2;
    rejected(&tag);
    let mut key_len = good.clone();
    key_len[1] = 31;
    rejected(&key_len);
    let mut locator_len = good.clone();
    locator_len[1 + 8 + 32 + 16] = 4;
    rejected(&locator_len);
    assert!(RnFileRef::deserialize(&good[41..]).is_some());
    assert!(RnFileRef::deserialize(&good[41..good.len() - 1]).is_none());
}
