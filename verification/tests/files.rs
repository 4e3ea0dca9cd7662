use record_chain::error::{error, ErrorKind};
use record_chain::files::{FnAdaptor, ReadUntil};
use record_chain::keys::KeyPair;

#[test]
fn file_write_load() {
    let dn = b"encryption123456";
    let data = b"sjdhflasdvbasliyfbrlaiybasrivbaskdvjb4o837t239846g5uybgsidufbyv586fge58b6ves58dsfgsdfgsdfg";
    let skp = KeyPair::new(); // source key-pair

    let mut plaintext1 = Vec::new();
    plaintext1.extend(data.to_vec());

    // write data
    let ciphertext = FnAdaptor::save(&skp, dn, plaintext1.as_slice()).unwrap();

    // read data
    let plaintext2 = FnAdaptor::load(dn, ciphertext.as_slice()).unwrap();

    assert!(plaintext1 == plaintext2);
}

fn kind_of(dn: &[u8; 16], container: &[u8]) -> ErrorKind {
    match FnAdaptor::load(dn, container) {
        Err(e) => e.kind,
        Ok(_) => panic!("a changed file was opened"),
    }
}

#[test]
fn sealed_file_is_stream_and_trailer() {
    let dn = b"encryption123456";
    let skp = KeyPair::new();
    let plain = vec![7u8; 40];
    let sealed = FnAdaptor::save(&skp, dn, &plain).unwrap();
    // a block of initialisation vector, 40 bytes padded to 48, the trailer
    assert_eq!(sealed.len(), 16 + 48 + 136);
    // the stream of an empty file is its initialisation vector alone
    let empty = FnAdaptor::save(&skp, dn, &[]).unwrap();
    assert_eq!(empty.len(), 16 + 136);
    assert_eq!(FnAdaptor::load(dn, &empty).unwrap(), Vec::<u8>::new());
    // two seals of one file differ, by their initialisation vectors
    assert!(FnAdaptor::save(&skp, dn, &plain).unwrap() != sealed);
}

#[test]
fn files_of_every_length_round_trip() {
    let dn = b"encryption123456";
    let skp = KeyPair::new();
    for len in [0usize, 1, 15, 16, 17, 31, 32, 33, 100, 4096, 10_000] {
        let plain: Vec<u8> = (0..len).map(|k| (k % 251) as u8).collect();
        let sealed = FnAdaptor::save(&skp, dn, &plain).unwrap();
        assert_eq!(FnAdaptor::load(dn, &sealed).unwrap(), plain);
    }
}

#[test]
fn tampering_with_the_trailer_is_detected() {
    let dn = b"encryption123456";
    let skp = KeyPair::new();
    let other = KeyPair::new();
    let plain = b"some plaintext of a file".to_vec();
    let sealed = FnAdaptor::save(&skp, dn, &plain).unwrap();
    let body = sealed.len() - 136;

    // the signature of another party's seal of the same stream
    let mut forged = FnAdaptor::seal(&other, sealed[..body].to_vec());
    assert_eq!(FnAdaptor::load(dn, &forged).unwrap(), plain);
    // ... with the first party's key put in its place
    forged[body + 104..].copy_from_slice(&sealed[body + 104..]);
    assert_eq!(kind_of(dn, &forged), ErrorKind::Signature);

    // a trailer that is no signature at all
    let mut broken = sealed.clone();
    broken[body + 20] = b'!';
    assert_eq!(kind_of(dn, &broken), ErrorKind::Decode);
}

#[test]
fn tampering_with_the_body_is_detected() {
    let dn = b"encryption123456";
    let skp = KeyPair::new();
    let plain = vec![1u8; 100];
    let sealed = FnAdaptor::save(&skp, dn, &plain).unwrap();
    for at in [0usize, 17, 60] {
        let mut changed = sealed.clone();
        changed[at] ^= 0x80;
        let kind = kind_of(dn, &changed);
        assert!(kind == ErrorKind::Padding || kind == ErrorKind::Signature);
    }
    // a body that is no whole number of blocks
    let mut cut = sealed.clone();
    cut.remove(20);
    assert_eq!(kind_of(dn, &cut), ErrorKind::Padding);
}

#[test]
fn wrong_key_does_not_open_the_file() {
    let skp = KeyPair::new();
    let sealed = FnAdaptor::save(&skp, b"encryption123456", &[3u8; 64]).unwrap();
    match FnAdaptor::load(b"encryption654321", &sealed) {
        Err(e) => assert_eq!(e.kind, ErrorKind::Padding),
        Ok(plain) => assert!(plain != vec![3u8; 64]),
    }
}

#[test]
fn short_file_is_rejected() {
    assert_eq!(kind_of(b"encryption123456", &[0u8; 135]), ErrorKind::Decode);
    assert_eq!(kind_of(b"encryption123456", &[]), ErrorKind::Decode);
    // a trailer alone has no stream before it
    assert_eq!(kind_of(b"encryption123456", &[0u8; 136]), ErrorKind::Padding);
}

#[test]
fn reader_holds_back_the_last_bytes() {
    let input: Vec<u8> = (0u8..10).collect();
    let mut reader = ReadUntil::new(4);
    assert_eq!(reader.remainder(), &[] as &[u8]);
    let mut out = Vec::new();
    out.extend(reader.read(&input[..3]));
    assert!(out.is_empty());
    assert_eq!(reader.remainder(), &input[..3]);
    out.extend(reader.read(&input[3..5]));
    assert_eq!(out, vec![0]);
    out.extend(reader.read(&[]));
    out.extend(reader.read(&input[5..]));
    assert_eq!(out, input[..6].to_vec());
    assert_eq!(reader.remainder(), &input[6..]);
    assert_eq!(reader.finish().unwrap(), input[6..].to_vec());
}

#[test]
fn reader_fails_on_input_shorter_than_its_reserve() {
    let mut reader = ReadUntil::new(4);
    assert!(reader.read(&[1, 2, 3]).is_empty());
    match reader.finish() {
        Err(e) => assert_eq!(e.kind, ErrorKind::Decode),
        Ok(_) => panic!("a short input was accepted"),
    }
    let mut exact = ReadUntil::new(4);
    assert!(exact.read(&[1, 2, 3, 4]).is_empty());
    assert_eq!(exact.finish().unwrap(), vec![1, 2, 3, 4]);
    let none = ReadUntil::new(0);
    assert_eq!(none.finish().unwrap(), Vec::<u8>::new());
}

#[test]
fn errors_carry_kind_and_message() {
    let e = error(ErrorKind::ChainLink, "Incorrect hash chain!");
    assert_eq!(e.kind, ErrorKind::ChainLink);
    assert_eq!(e.message, "Incorrect hash chain!");
}

#[test]
fn large_file_round_trips_and_a_foreign_trailer_is_refused() {
    let dn = b"encryption123456";
    let skp = KeyPair::new();
    let mut plain = vec![0u8; 512 * 1024];
    let mut state = 0x2545f4914f6cdd1du64;
    for b in plain.iter_mut() {
        state ^= state << 13;
        state ^= state >> 7;
        state ^= state << 17;
        *b = state as u8;
    }
    let sealed = FnAdaptor::save(&skp, dn, &plain).unwrap();
    assert!(FnAdaptor::load(dn, &sealed).unwrap() == plain);

    // the trailer of another sealed file
    let other = FnAdaptor::save(&skp, dn, b"another file").unwrap();
    let mut changed = sealed.clone();
    let body = changed.len() - 136;
    changed[body..].copy_from_slice(&other[other.len() - 136..]);
    assert_eq!(kind_of(dn, &changed), ErrorKind::Signature);
}
