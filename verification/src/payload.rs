//! What a record seals: the key of the record before it and a reference to a
//! file, and their serialized form.

use vstd::prelude::*;
use vstd::bytes::{spec_u64_to_le_bytes, u64_to_le_bytes};
use vstd::slice::slice_subrange;
use crate::bytes::{array_16, array_32, copy_range, extend, same};
use crate::error::{error, Error, ErrorKind};
use crate::keys::LambdaKey;
use crate::signatures::text_image;

verus! {

/// A reference to a file: the key that encrypts it and where it lies.
#[derive(Clone, Debug, PartialEq, Eq)]
pub struct RnFileRef {
    pub dn: [u8; 16],
    pub hfile: Vec<u8>,
}

/// A file reference as plain values.
pub struct FileRefView {
    pub dn: Seq<u8>,
    pub hfile: Seq<u8>,
}

impl View for RnFileRef {
    type V = FileRefView;

    open spec fn view(&self) -> FileRefView {
        FileRefView { dn: self.dn@, hfile: self.hfile@ }
    }
}

/// What a record seals: the key of the record before it, which a head has
/// none of, and a file reference.
#[derive(Clone, PartialEq, Eq)]
pub struct RnData {
    pub lambda_prev: Option<LambdaKey>,
    pub file: RnFileRef,
}

/// A payload as plain values.
pub struct PayloadView {
    pub prev: Option<Seq<u8>>,
    pub file: FileRefView,
}

impl View for RnData {
    type V = PayloadView;

    open spec fn view(&self) -> PayloadView {
        PayloadView {
            prev: match self.lambda_prev {
                Some(key) => Some(key@),
                None => None,
            },
            file: self.file@,
        }
    }
}

/// The views of a sequence of file references.
pub open spec fn file_views(files: Seq<RnFileRef>) -> Seq<FileRefView> {
    Seq::new(files.len(), |k: int| files[k]@)
}

/// Whether a payload can be serialized: a key of 32 bytes, a file key of 16,
/// and a locator whose length fits in 8 bytes.
pub open spec fn payload_wf(p: PayloadView) -> bool {
    &&& p.prev matches Some(key) ==> key.len() == 32
    &&& p.file.dn.len() == 16
    &&& p.file.hfile.len() <= u64::MAX
}

/// The serialized form of a file reference: the 16 bytes of the key, then the
/// locator after its length.
pub open spec fn file_image(f: FileRefView) -> Seq<u8> {
    f.dn + text_image(f.hfile)
}

/// The serialized form of a payload: a tag, 0 for no key and 1 for a key; the
/// key after its length, if there is one; then the file reference.
pub open spec fn payload_image(p: PayloadView) -> Seq<u8> {
    match p.prev {
        None => seq![0u8] + file_image(p.file),
        Some(key) => seq![1u8] + text_image(key) + file_image(p.file),
    }
}

/// The file reference that bytes are the serialized form of.
pub open spec fn file_parse(bytes: Seq<u8>) -> Option<FileRefView> {
    let hfile = bytes.subrange(24, bytes.len() as int);
    if bytes.len() >= 24 && hfile.len() <= u64::MAX && bytes.subrange(16, 24)
        == spec_u64_to_le_bytes(hfile.len() as u64) {
        Some(FileRefView { dn: bytes.subrange(0, 16), hfile })
    } else {
        None
    }
}

/// The payload that bytes are the serialized form of.
pub open spec fn payload_parse(bytes: Seq<u8>) -> Option<PayloadView> {
    if bytes.len() >= 1 && bytes[0] == 0 {
        match file_parse(bytes.subrange(1, bytes.len() as int)) {
            Some(file) => Some(PayloadView { prev: None, file }),
            None => None,
        }
    } else if bytes.len() >= 41 && bytes[0] == 1 && bytes.subrange(1, 9) == spec_u64_to_le_bytes(
        32,
    ) {
        match file_parse(bytes.subrange(41, bytes.len() as int)) {
            Some(file) => Some(PayloadView { prev: Some(bytes.subrange(9, 41)), file }),
            None => None,
        }
    } else {
        None
    }
}

/// A serialized file reference is parsed to the reference again.
pub proof fn lemma_file_round_trip(f: FileRefView)
    requires
        f.dn.len() == 16,
        f.hfile.len() <= u64::MAX,
    ensures
        file_parse(file_image(f)) == Some(f),
{
    vstd::bytes::lemma_auto_spec_u64_to_from_le_bytes();
    let bytes = file_image(f);
    assert(bytes.subrange(0, 16) =~= f.dn);
    assert(bytes.subrange(16, 24) =~= spec_u64_to_le_bytes(f.hfile.len() as u64));
    assert(bytes.subrange(24, bytes.len() as int) =~= f.hfile);
}

/// A serialized payload is parsed to the payload again.
pub proof fn lemma_payload_round_trip(p: PayloadView)
    requires
        payload_wf(p),
    ensures
        payload_parse(payload_image(p)) == Some(p),
{
    vstd::bytes::lemma_auto_spec_u64_to_from_le_bytes();
    lemma_file_round_trip(p.file);
    let bytes = payload_image(p);
    match p.prev {
        None => {
            assert(bytes.subrange(1, bytes.len() as int) =~= file_image(p.file));
        },
        Some(key) => {
            assert(bytes.subrange(1, 9) =~= spec_u64_to_le_bytes(32));
            assert(bytes.subrange(9, 41) =~= key);
            assert(bytes.subrange(41, bytes.len() as int) =~= file_image(p.file));
        },
    }
}

impl RnFileRef {
    /// The serialized form.
    pub fn serialize(&self) -> (out: Vec<u8>)
        ensures
            out@ == file_image(self@),
    {
        let mut out: Vec<u8> = Vec::new();
        extend(&mut out, self.dn.as_slice());
        extend(&mut out, u64_to_le_bytes(self.hfile.len() as u64).as_slice());
        extend(&mut out, self.hfile.as_slice());
        assert(out@ =~= file_image(self@));
        out
    }

    /// The file reference that serialized bytes hold.
    pub fn deserialize(bytes: &[u8]) -> (r: Option<RnFileRef>)
        ensures
            r is Some <==> file_parse(bytes@) is Some,
            r matches Some(file) ==> file_parse(bytes@) == Some(file@),
    {
        if bytes.len() < 24 {
            return None;
        }
        let length = u64_to_le_bytes((bytes.len() - 24) as u64);
        if !same(slice_subrange(bytes, 16, 24), length.as_slice()) {
            return None;
        }
        Some(RnFileRef { dn: array_16(bytes, 0), hfile: copy_range(bytes, 24, bytes.len()) })
    }
}

impl RnData {
    /// The serialized form.
    pub fn serialize(&self) -> (out: Vec<u8>)
        ensures
            out@ == payload_image(self@),
            payload_wf(self@),
            out@.len() <= 65 + self.file.hfile@.len(),
    {
        let mut out: Vec<u8> = Vec::new();
        match &self.lambda_prev {
            None => {
                out.push(0u8);
            },
            Some(key) => {
                out.push(1u8);
                extend(&mut out, u64_to_le_bytes(32).as_slice());
                extend(&mut out, key.k256().as_slice());
                proof {
                    key.lemma_len();
                }
            },
        }
        let file = self.file.serialize();
        extend(&mut out, file.as_slice());
        proof {
            vstd::bytes::lemma_auto_spec_u64_to_from_le_bytes();
            let hfile_len = self.file.hfile.len();
            assert(hfile_len <= u64::MAX);
            assert(self.file.dn@.len() == 16);
            assert(file@.len() == 24 + self.file.hfile@.len());
            assert(out@ =~= payload_image(self@));
        }
        out
    }

    /// The payload that serialized bytes hold.
    pub fn deserialize(bytes: &[u8]) -> (r: Result<RnData, Error>)
        ensures
            r is Ok <==> payload_parse(bytes@) is Some,
            r matches Ok(data) ==> payload_parse(bytes@) == Some(data@),
            r matches Err(e) ==> e.kind == ErrorKind::Recovery,
    {
        if bytes.len() >= 1 && bytes[0] == 0 {
            match RnFileRef::deserialize(slice_subrange(bytes, 1, bytes.len())) {
                Some(file) => Ok(RnData { lambda_prev: None, file }),
                None => Err(error(ErrorKind::Recovery, "No file reference in the record!")),
            }
        } else if bytes.len() >= 41 && bytes[0] == 1 {
            let length = u64_to_le_bytes(32);
            if !same(slice_subrange(bytes, 1, 9), length.as_slice()) {
                return Err(error(ErrorKind::Recovery, "No key of 32 bytes in the record!"));
            }
            match RnFileRef::deserialize(slice_subrange(bytes, 41, bytes.len())) {
                Some(file) => {
                    let key = LambdaKey::from_bytes(array_32(bytes, 9));
                    Ok(RnData { lambda_prev: Some(key), file })
                },
                None => Err(error(ErrorKind::Recovery, "No file reference in the record!")),
            }
        } else {
            Err(error(ErrorKind::Recovery, "No payload in the record!"))
        }
    }
}

} // verus!
