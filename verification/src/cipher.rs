//! AES-128 in CBC mode with PKCS#7 padding: with a given initialisation vector
//! for records, and as a stream that begins with a random one for files.

use vstd::prelude::*;
use aesstream::AesWriter;
use crypto::aessafe::{AesSafe128Decryptor, AesSafe128Encryptor};
use crypto::blockmodes::{CbcDecryptor, CbcEncryptor, NoPadding};
use crypto::buffer::{RefReadBuffer, RefWriteBuffer};
use crypto::symmetriccipher::{Decryptor, Encryptor};
use std::io::Write;
use crate::bytes::{array_16, copy_range, extend};

verus! {

/// The ciphertext of whole blocks under AES-128 in CBC mode, without padding.
pub uninterp spec fn aes128_cbc_blocks(key: Seq<u8>, iv: Seq<u8>, blocks: Seq<u8>) -> Seq<u8>;

/// What whole blocks decrypt to under AES-128 in CBC mode, without padding.
pub uninterp spec fn aes128_cbc_blocks_open(key: Seq<u8>, iv: Seq<u8>, blocks: Seq<u8>) -> Seq<
    u8,
>;

/// The error of a reader or writer.
#[verifier::external_type_specification]
#[verifier::external_body]
pub struct ExIoError(std::io::Error);

/// How many bytes of padding follow a plaintext of the given length: as many
/// as fill the last block, and a whole block where it is full.
pub open spec fn pad_len(plain_len: nat) -> nat {
    (16 - plain_len % 16) as nat
}

/// A plaintext with its PKCS#7 padding: `n` bytes of value `n`.
pub open spec fn pkcs7_pad(plain: Seq<u8>) -> Seq<u8> {
    plain + Seq::new(pad_len(plain.len()), |k: int| pad_len(plain.len()) as u8)
}

/// Whether the bytes end in `n` bytes of value `n`, for an `n` from 1 to 16.
pub open spec fn pkcs7_padded(padded: Seq<u8>) -> bool {
    let n = padded.last() as int;
    &&& padded.len() > 0
    &&& 1 <= n <= 16
    &&& n <= padded.len()
    &&& forall|k: int| padded.len() - n <= k < padded.len() ==> padded[k] == padded.last()
}

/// The plaintext before PKCS#7 padding, where the bytes end in such padding.
pub open spec fn pkcs7_unpad(padded: Seq<u8>) -> Option<Seq<u8>> {
    if pkcs7_padded(padded) {
        Some(padded.subrange(0, padded.len() - padded.last() as int))
    } else {
        None
    }
}

/// Padding a plaintext and taking the padding off gives the plaintext again,
/// and the padded plaintext is a whole number of blocks.
pub proof fn lemma_pad_unpad(plain: Seq<u8>)
    ensures
        pkcs7_unpad(pkcs7_pad(plain)) == Some(plain),
        pkcs7_pad(plain).len() % 16 == 0,
        pkcs7_pad(plain).len() == plain.len() + pad_len(plain.len()),
        1 <= pad_len(plain.len()) <= 16,
{
    let padded = pkcs7_pad(plain);
    let n = pad_len(plain.len());
    assert(padded.last() == n as u8);
    assert(padded.subrange(0, padded.len() - n) =~= plain);
    assert((plain.len() + (16 - plain.len() % 16)) % 16 == 0) by (nonlinear_arith);
}

/// What a ciphertext decrypts to under AES-128-CBC with PKCS#7 padding: it
/// must be a whole number of blocks, at least one, and decrypt to padded
/// plaintext.
pub open spec fn cbc_open(key: Seq<u8>, iv: Seq<u8>, sealed: Seq<u8>) -> Option<Seq<u8>> {
    if sealed.len() == 0 || sealed.len() % 16 != 0 {
        None
    } else {
        pkcs7_unpad(aes128_cbc_blocks_open(key, iv, sealed))
    }
}

/// The ciphertext of a plaintext under AES-128-CBC with PKCS#7 padding.
pub open spec fn cbc_seal(key: Seq<u8>, iv: Seq<u8>, plain: Seq<u8>) -> Seq<u8> {
    aes128_cbc_blocks(key, iv, pkcs7_pad(plain))
}

/// What an encrypted stream decrypts to. The stream begins with its
/// initialisation vector. The stream of an empty plaintext holds nothing else;
/// every other holds a ciphertext with PKCS#7 padding.
pub open spec fn stream_open(key: Seq<u8>, stream: Seq<u8>) -> Option<Seq<u8>> {
    if stream.len() < 16 {
        None
    } else if stream.len() == 16 {
        Some(Seq::empty())
    } else {
        cbc_open(key, stream.subrange(0, 16), stream.subrange(16, stream.len() as int))
    }
}

/// Whether `stream` is an encrypted stream of `plain`: an initialisation
/// vector, followed for a plaintext that is not empty by its ciphertext under
/// that vector, which decrypts to the padded plaintext again.
pub open spec fn is_stream_of(key: Seq<u8>, plain: Seq<u8>, stream: Seq<u8>) -> bool {
    let iv = stream.subrange(0, 16);
    let sealed = stream.subrange(16, stream.len() as int);
    &&& stream.len() >= 16
    &&& plain.len() == 0 ==> stream.len() == 16
    &&& plain.len() > 0 ==> sealed == cbc_seal(key, iv, plain) && sealed.len() == pkcs7_pad(
        plain,
    ).len() && aes128_cbc_blocks_open(key, iv, sealed) == pkcs7_pad(plain)
}

/// `CbcEncryptor::encrypt` over whole blocks, with `AesSafe128Encryptor` and
/// `NoPadding`: the ciphertext, as long as the plaintext, which decrypts to
/// the plaintext again. `room` is the buffer that it is written to.
#[verifier::external_body]
fn cbc_blocks_encrypt(key: &[u8; 16], iv: &[u8; 16], blocks: &[u8], room: Vec<u8>) -> (out: Vec<
    u8,
>)
    requires
        blocks@.len() % 16 == 0,
        room@.len() == blocks@.len(),
    ensures
        out@ == aes128_cbc_blocks(key@, iv@, blocks@),
        out@.len() == blocks@.len(),
        aes128_cbc_blocks_open(key@, iv@, out@) == blocks@,
{
    let mut out = room;
    let mut enc = CbcEncryptor::new(AesSafe128Encryptor::new(key), NoPadding, iv.to_vec());
    enc.encrypt(&mut RefReadBuffer::new(blocks), &mut RefWriteBuffer::new(&mut out), true).unwrap();
    out
}

/// `CbcDecryptor::decrypt` over whole blocks, with `AesSafe128Decryptor` and
/// `NoPadding`: the plaintext, as long as the ciphertext. `room` is the buffer
/// that it is written to.
#[verifier::external_body]
fn cbc_blocks_decrypt(key: &[u8; 16], iv: &[u8; 16], blocks: &[u8], room: Vec<u8>) -> (out: Vec<
    u8,
>)
    requires
        blocks@.len() % 16 == 0,
        room@.len() == blocks@.len(),
    ensures
        out@ == aes128_cbc_blocks_open(key@, iv@, blocks@),
        out@.len() == blocks@.len(),
{
    let mut out = room;
    let mut dec = CbcDecryptor::new(AesSafe128Decryptor::new(key), NoPadding, iv.to_vec());
    dec.decrypt(&mut RefReadBuffer::new(blocks), &mut RefWriteBuffer::new(&mut out), true).unwrap();
    out
}

/// `AesWriter` over a vector, written to once and flushed: a block with a
/// random initialisation vector, followed for a plaintext that is not empty by
/// its CBC ciphertext with PKCS#7 padding under that vector; or the error of
/// the random generator.
#[verifier::external_body]
fn stream_encrypt(key: &[u8; 16], plain: &[u8]) -> (r: Result<Vec<u8>, std::io::Error>)
    ensures
        r matches Ok(out) ==> is_stream_of(key@, plain@, out@),
{
    let mut out: Vec<u8> = Vec::new();
    let mut writer = AesWriter::new(&mut out, AesSafe128Encryptor::new(key))?;
    writer.write_all(plain)?;
    writer.flush()?;
    drop(writer);
    Ok(out)
}

/// A vector of `len` zero bytes.
fn zeros(len: usize) -> (out: Vec<u8>)
    ensures
        out@.len() == len,
{
    let mut out: Vec<u8> = Vec::new();
    let mut k: usize = 0;
    while k < len
        invariant
            k <= len,
            out@.len() == k,
        decreases len - k,
    {
        out.push(0u8);
        k += 1;
    }
    out
}

/// Encrypts a plaintext under AES-128-CBC with PKCS#7 padding.
pub fn encrypt(key: &[u8; 16], iv: &[u8; 16], plain: &[u8]) -> (out: Vec<u8>)
    ensures
        out@ == cbc_seal(key@, iv@, plain@),
        cbc_open(key@, iv@, out@) == Some(plain@),
{
    let n: usize = 16 - plain.len() % 16;
    let mut padded: Vec<u8> = Vec::new();
    extend(&mut padded, plain);
    let mut k: usize = 0;
    while k < n
        invariant
            k <= n <= 16,
            n == pad_len(plain@.len()),
            padded@ == plain@ + Seq::new(k as nat, |j: int| n as u8),
        decreases n - k,
    {
        padded.push(n as u8);
        k += 1;
        assert(padded@ =~= plain@ + Seq::new(k as nat, |j: int| n as u8));
    }
    proof {
        lemma_pad_unpad(plain@);
        assert(padded@ =~= pkcs7_pad(plain@));
    }
    let room = zeros(padded.len());
    cbc_blocks_encrypt(key, iv, padded.as_slice(), room)
}

/// Decrypts a ciphertext under AES-128-CBC with PKCS#7 padding; `None` where
/// it is no whole number of blocks or does not decrypt to padded plaintext.
pub fn decrypt(key: &[u8; 16], iv: &[u8; 16], sealed: &[u8]) -> (r: Option<Vec<u8>>)
    ensures
        r is Some <==> cbc_open(key@, iv@, sealed@) is Some,
        r matches Some(plain) ==> cbc_open(key@, iv@, sealed@) == Some(plain@),
{
    if sealed.len() == 0 || sealed.len() % 16 != 0 {
        return None;
    }
    let room = zeros(sealed.len());
    let mut padded = cbc_blocks_decrypt(key, iv, sealed, room);
    let len = padded.len();
    let last = padded[len - 1];
    if last < 1 || last > 16 {
        return None;
    }
    let n = last as usize;
    let mut k: usize = len - n;
    while k < len
        invariant
            1 <= n <= 16 <= len,
            len - n <= k <= len,
            len == padded@.len() == sealed@.len(),
            len % 16 == 0,
            padded@ == aes128_cbc_blocks_open(key@, iv@, sealed@),
            n == last,
            last == padded@.last(),
            forall|j: int| len - n <= j < k ==> padded@[j] == last,
        decreases len - k,
    {
        if padded[k] != last {
            return None;
        }
        k += 1;
    }
    let ghost whole = padded@;
    padded.truncate(len - n);
    assert(padded@ =~= whole.subrange(0, whole.len() - whole.last() as int));
    Some(padded)
}

/// Encrypts a plaintext as a stream with a fresh random initialisation
/// vector; or the error of the random generator.
pub fn stream_seal(key: &[u8; 16], plain: &[u8]) -> (r: Result<Vec<u8>, std::io::Error>)
    ensures
        r matches Ok(out) ==> is_stream_of(key@, plain@, out@) && stream_open(key@, out@) == Some(
            plain@,
        ),
{
    let r = stream_encrypt(key, plain);
    proof {
        if r is Ok {
            lemma_stream_round_trip(key@, plain@, r.unwrap()@);
        }
    }
    r
}

/// An encrypted stream of a plaintext decrypts to that plaintext.
pub proof fn lemma_stream_round_trip(key: Seq<u8>, plain: Seq<u8>, stream: Seq<u8>)
    requires
        is_stream_of(key, plain, stream),
    ensures
        stream_open(key, stream) == Some(plain),
{
    lemma_pad_unpad(plain);
    if plain.len() == 0 {
        assert(plain =~= Seq::<u8>::empty());
    }
}

/// Decrypts an encrypted stream; `None` where it holds no initialisation
/// vector, is no whole number of blocks or does not decrypt to padded
/// plaintext.
pub fn stream_decrypt(key: &[u8; 16], stream: &[u8]) -> (r: Option<Vec<u8>>)
    ensures
        r is Some <==> stream_open(key@, stream@) is Some,
        r matches Some(plain) ==> stream_open(key@, stream@) == Some(plain@),
{
    if stream.len() < 16 {
        return None;
    }
    if stream.len() == 16 {
        return Some(Vec::new());
    }
    let iv = array_16(stream, 0);
    let sealed = copy_range(stream, 16, stream.len());
    decrypt(key, &iv, sealed.as_slice())
}

} // verus!
