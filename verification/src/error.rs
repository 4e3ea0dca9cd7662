//! The errors that the library reports.

use vstd::prelude::*;

verus! {

/// What went wrong.
#[derive(Clone, Copy, Debug, PartialEq, Eq, Structural)]
pub enum ErrorKind {
    /// Bad base64, a non-canonical scalar, bytes that encode no point, a buffer
    /// of the wrong length.
    Decode,
    /// A head record where a tail was expected, or the reverse.
    Shape,
    /// A tail whose link is not the hash of the record before it.
    ChainLink,
    /// A signature that does not verify.
    Signature,
    /// A ciphertext that does not decrypt to padded plaintext.
    Padding,
    /// A payload that cannot be read during the walk of a chain, or a missing key.
    Recovery,
    /// A set of shares with a repeated index or too few members.
    Threshold,
    /// A failure of the reader or writer around the library.
    Io,
}

/// An error: its kind, and a message for a person.
#[derive(Debug)]
pub struct Error {
    pub kind: ErrorKind,
    pub message: String,
}

/// An error of the given kind with the given message.
pub fn error(kind: ErrorKind, msg: &str) -> (e: Error)
    ensures
        e.kind == kind,
        e.message@ == msg@,
{
    Error { kind, message: msg.to_owned() }
}

} // verus!
