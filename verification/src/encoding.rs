//! Keys as base64 text.

use vstd::prelude::*;
use vstd::utf8::encode_utf8;
use crate::bytes::array_32;
use crate::field::{group_order, le_nat};
use crate::point::{is_encoding, CompressedPoint, Point};
use crate::scalar::Scalar;

verus! {

/// The standard, padded base64 text of a byte string.
pub uninterp spec fn base64_text(data: Seq<u8>) -> Seq<char>;

/// The bytes that a text decodes to as standard base64, if it is such a text.
pub uninterp spec fn base64_data(text: Seq<u8>) -> Option<Seq<u8>>;

/// The error of `base64::decode`.
#[verifier::external_type_specification]
#[verifier::external_body]
pub struct ExDecodeError(base64::DecodeError);

/// `base64::encode`: the base64 text of the bytes. It has four characters for
/// every three bytes begun, all of them ASCII, and decodes to the bytes again.
#[verifier::external_body]
pub(crate) fn base64_encode(data: &[u8]) -> (r: String)
    requires
        4 * ((data@.len() + 2) / 3) <= usize::MAX,
    ensures
        r@ == base64_text(data@),
        r@.len() == 4 * ((data@.len() + 2) / 3),
        vstd::utf8::is_ascii_chars(r@),
        base64_data(encode_utf8(r@)) == Some(data@),
{
    base64::encode(data)
}

/// `base64::decode`: the bytes that the text decodes to, or the reason why it
/// is no base64 text.
#[verifier::external_body]
pub(crate) fn base64_decode(text: &[u8]) -> (r: Result<Vec<u8>, base64::DecodeError>)
    ensures
        r is Ok <==> base64_data(text@) is Some,
        r matches Ok(v) ==> base64_data(text@) == Some(v@),
{
    base64::decode(text)
}

/// A key that can be written as text.
pub trait KeyEncoder {
    /// The bytes of the key.
    spec fn key_bytes(&self) -> Seq<u8>;

    /// The base64 text of the key's bytes, which decodes to them again.
    fn encode(&self) -> (r: String)
        ensures
            r@ == base64_text(self.key_bytes()),
            base64_data(encode_utf8(r@)) == Some(self.key_bytes()),
    ;
}

impl KeyEncoder for CompressedPoint {
    open spec fn key_bytes(&self) -> Seq<u8> {
        self@
    }

    fn encode(&self) -> (r: String) {
        let bytes = self.to_bytes();
        base64_encode(bytes.as_slice())
    }
}

impl KeyEncoder for Point {
    open spec fn key_bytes(&self) -> Seq<u8> {
        self@
    }

    fn encode(&self) -> (r: String) {
        let bytes = self.compress().to_bytes();
        base64_encode(bytes.as_slice())
    }
}

impl KeyEncoder for Scalar {
    open spec fn key_bytes(&self) -> Seq<u8> {
        self.encoding()
    }

    fn encode(&self) -> (r: String) {
        let bytes = self.to_bytes();
        base64_encode(bytes.as_slice())
    }
}

/// A text that holds a key of type `T`, to be read where it is known to hold one.
pub trait HardKeyDecoder<T> {
    /// Whether the text is the base64 text of a key, and of which.
    spec fn decodes_to(&self, key: T) -> bool;

    /// Whether the text holds a key.
    spec fn decodable(&self) -> bool;

    /// Whether the text holds a key.
    fn can_decode(&self) -> (b: bool)
        ensures
            b == self.decodable(),
    ;

    /// The key that the text holds.
    fn decode(&self) -> (key: T)
        requires
            self.decodable(),
        ensures
            self.decodes_to(key),
    ;
}

/// The key that a text holds, if it holds one.
pub fn try_decode<T, S: HardKeyDecoder<T>>(text: &S) -> (r: Option<T>)
    ensures
        r is Some <==> text.decodable(),
        r matches Some(key) ==> text.decodes_to(key),
{
    if text.can_decode() {
        Some(text.decode())
    } else {
        None
    }
}

impl HardKeyDecoder<CompressedPoint> for String {
    open spec fn decodes_to(&self, key: CompressedPoint) -> bool {
        base64_data(encode_utf8(self@)) == Some(key@)
    }

    open spec fn decodable(&self) -> bool {
        base64_data(encode_utf8(self@)) matches Some(data) && data.len() == 32
    }

    fn can_decode(&self) -> (b: bool) {
        match base64_decode(self.as_str().as_bytes()) {
            Ok(data) => data.len() == 32,
            Err(_) => false,
        }
    }

    fn decode(&self) -> (key: CompressedPoint) {
        match base64_decode(self.as_str().as_bytes()) {
            Ok(data) => {
                let bytes = array_32(data.as_slice(), 0);
                assert(bytes@ =~= data@);
                CompressedPoint(bytes)
            },
            Err(_) => unreached(),
        }
    }
}

impl HardKeyDecoder<Point> for String {
    open spec fn decodes_to(&self, key: Point) -> bool {
        base64_data(encode_utf8(self@)) == Some(key@)
    }

    open spec fn decodable(&self) -> bool {
        base64_data(encode_utf8(self@)) matches Some(data) && data.len() == 32 && is_encoding(
            data,
        )
    }

    fn can_decode(&self) -> (b: bool) {
        match base64_decode(self.as_str().as_bytes()) {
            Ok(data) => {
                if data.len() == 32 {
                    let bytes = array_32(data.as_slice(), 0);
                    assert(bytes@ =~= data@);
                    CompressedPoint(bytes).decompress().is_some()
                } else {
                    false
                }
            },
            Err(_) => false,
        }
    }

    fn decode(&self) -> (key: Point) {
        match base64_decode(self.as_str().as_bytes()) {
            Ok(data) => {
                let bytes = array_32(data.as_slice(), 0);
                assert(bytes@ =~= data@);
                match CompressedPoint(bytes).decompress() {
                    Some(p) => p,
                    None => unreached(),
                }
            },
            Err(_) => unreached(),
        }
    }
}

impl HardKeyDecoder<Scalar> for String {
    open spec fn decodes_to(&self, key: Scalar) -> bool {
        base64_data(encode_utf8(self@)) matches Some(data) && data.len() >= 32 && key@ == le_nat(
            data.subrange(0, 32),
        )
    }

    open spec fn decodable(&self) -> bool {
        base64_data(encode_utf8(self@)) matches Some(data) && data.len() >= 32 && le_nat(
            data.subrange(0, 32),
        ) < group_order()
    }

    fn can_decode(&self) -> (b: bool) {
        match base64_decode(self.as_str().as_bytes()) {
            Ok(data) => {
                if data.len() >= 32 {
                    Scalar::from_canonical_bytes(array_32(data.as_slice(), 0)).is_some()
                } else {
                    false
                }
            },
            Err(_) => false,
        }
    }

    fn decode(&self) -> (key: Scalar) {
        match base64_decode(self.as_str().as_bytes()) {
            Ok(data) => {
                match Scalar::from_canonical_bytes(array_32(data.as_slice(), 0)) {
                    Some(s) => s,
                    None => unreached(),
                }
            },
            Err(_) => unreached(),
        }
    }
}

} // verus!
