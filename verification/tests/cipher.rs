use crypto::symmetriccipher::{Decryptor, Encryptor};
use record_chain::cipher::{decrypt, encrypt, stream_decrypt, stream_seal};
use std::io::Read;

fn reference_encrypt(key: &[u8; 16], iv: &[u8; 16], plain: &[u8]) -> Vec<u8> {
    let mut out = vec![0u8; plain.len() + 16];
    let mut enc = crypto::blockmodes::CbcEncryptor::new(
        crypto::aessafe::AesSafe128Encryptor::new(key),
        crypto::blockmodes::PkcsPadding,
        iv.to_vec(),
    );
    let written = {
        let mut writer = crypto::buffer::RefWriteBuffer::new(&mut out);
        enc.encrypt(&mut crypto::buffer::RefReadBuffer::new(plain), &mut writer, true).unwrap();
        crypto::buffer::WriteBuffer::position(&writer)
    };
    out.truncate(written);
    out
}

fn reference_decrypt(key: &[u8; 16], iv: &[u8; 16], sealed: &[u8]) -> Vec<u8> {
    let mut out = vec![0u8; sealed.len()];
    let mut dec = crypto::blockmodes::CbcDecryptor::new(
        crypto::aessafe::AesSafe128Decryptor::new(key),
        crypto::blockmodes::PkcsPadding,
        iv.to_vec(),
    );
    let written = {
        let mut writer = crypto::buffer::RefWriteBuffer::new(&mut out);
        dec.decrypt(&mut crypto::buffer::RefReadBuffer::new(sealed), &mut writer, true).unwrap();
        crypto::buffer::WriteBuffer::position(&writer)
    };
    out.truncate(written);
    out
}

#[test]
fn encryption_is_cbc_with_pkcs7_padding() {
    let key = b"0123456789abcdef";
    let iv = [0u8; 16];
    for len in [1usize, 15, 16, 17, 32, 100] {
        let plain: Vec<u8> = (0..len).map(|k| k as u8).collect();
        let sealed = encrypt(key, &iv, &plain);
        assert_eq!(sealed.len(), (len / 16 + 1) * 16);
        assert_eq!(sealed, reference_encrypt(key, &iv, &plain));
        assert_eq!(reference_decrypt(key, &iv, &sealed), plain);
        assert_eq!(decrypt(key, &iv, &sealed).unwrap(), plain);
    }
}

#[test]
fn empty_plaintext_is_padded_to_a_block() {
    let key = b"0123456789abcdef";
    let iv = [0u8; 16];
    let sealed = encrypt(key, &iv, &[]);
    assert_eq!(sealed.len(), 16);
    assert_eq!(decrypt(key, &iv, &sealed).unwrap(), Vec::<u8>::new());
}

#[test]
fn known_answer_of_aes_128_cbc() {
    // NIST SP 800-38A, F.2.1, first block
    let key = [
        0x2b, 0x7e, 0x15, 0x16, 0x28, 0xae, 0xd2, 0xa6, 0xab, 0xf7, 0x15, 0x88, 0x09, 0xcf, 0x4f,
        0x3c,
    ];
    let iv = [
        0x00, 0x01, 0x02, 0x03, 0x04, 0x05, 0x06, 0x07, 0x08, 0x09, 0x0a, 0x0b, 0x0c, 0x0d, 0x0e,
        0x0f,
    ];
    let plain = [
        0x6b, 0xc1, 0xbe, 0xe2, 0x2e, 0x40, 0x9f, 0x96, 0xe9, 0x3d, 0x7e, 0x11, 0x73, 0x93, 0x17,
        0x2a,
    ];
    let expected = [
        0x76, 0x49, 0xab, 0xac, 0x81, 0x19, 0xb2, 0x46, 0xce, 0xe9, 0x8e, 0x9b, 0x12, 0xe9, 0x19,
        0x7d,
    ];
    let sealed = encrypt(&key, &iv, &plain);
    assert_eq!(sealed.len(), 32);
    assert_eq!(sealed[..16], expected);
}

#[test]
fn the_initialisation_vector_matters() {
    let key = b"0123456789abcdef";
    let plain = b"sixteen byte msg";
    assert!(encrypt(key, &[0u8; 16], plain) != encrypt(key, &[1u8; 16], plain));
}

#[test]
fn malformed_ciphertexts_are_rejected() {
    let key = b"0123456789abcdef";
    let iv = [0u8; 16];
    let sealed = encrypt(key, &iv, b"some plaintext");
    assert!(decrypt(key, &iv, &[]).is_none());
    assert!(decrypt(key, &iv, &sealed[..15]).is_none());
    let mut changed = sealed.clone();
    changed[15] ^= 1;
    assert!(decrypt(key, &iv, &changed).is_none());
    assert!(decrypt(b"fedcba9876543210", &iv, &sealed).is_none());
}

#[test]
fn stream_is_what_the_stream_reader_reads() {
    let key = b"0123456789abcdef";
    for len in [0usize, 5, 16, 48, 9000] {
        let plain: Vec<u8> = (0..len).map(|k| (k * 7) as u8).collect();
        let stream = stream_seal(key, &plain).unwrap();
        let mut read = Vec::new();
        let mut reader = aesstream::AesReader::new(
            stream.as_slice(),
            crypto::aessafe::AesSafe128Decryptor::new(key),
        )
        .unwrap();
        reader.read_to_end(&mut read).unwrap();
        assert_eq!(read, plain);
        assert_eq!(stream_decrypt(key, &stream).unwrap(), plain);
        if len > 0 {
            let iv: [u8; 16] = stream[..16].try_into().unwrap();
            assert_eq!(stream[16..].to_vec(), encrypt(key, &iv, &plain));
        }
    }
    assert!(stream_decrypt(key, &[0u8; 15]).is_none());
    assert!(stream_decrypt(key, &[0u8; 17]).is_none());
}
