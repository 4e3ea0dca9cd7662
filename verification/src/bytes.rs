//! Small operations on byte strings.

use vstd::prelude::*;

verus! {

/// Appends `part` to `buf`.
pub fn extend(buf: &mut Vec<u8>, part: &[u8])
    ensures
        final(buf)@ == old(buf)@ + part@,
{
    let mut i: usize = 0;
    while i < part.len()
        invariant
            i <= part.len(),
            buf@ == old(buf)@ + part@.subrange(0, i as int),
        decreases part.len() - i,
    {
        buf.push(part[i]);
        i += 1;
        assert(part@.subrange(0, i as int) == part@.subrange(0, i - 1).push(part@[i - 1]));
    }
    assert(part@.subrange(0, i as int) == part@);
}

/// Whether two byte strings are the same.
pub fn same(a: &[u8], b: &[u8]) -> (r: bool)
    ensures
        r == (a@ == b@),
{
    if a.len() != b.len() {
        return false;
    }
    let mut i: usize = 0;
    while i < a.len()
        invariant
            i <= a.len(),
            a@.len() == b@.len(),
            forall|j: int| 0 <= j < i ==> a@[j] == b@[j],
        decreases a.len() - i,
    {
        if a[i] != b[i] {
            return false;
        }
        i += 1;
    }
    assert(a@ =~= b@);
    true
}

/// The 16 bytes of `data` from `at` on, as an array.
pub fn array_16(data: &[u8], at: usize) -> (out: [u8; 16])
    requires
        at + 16 <= data@.len(),
    ensures
        out@ == data@.subrange(at as int, at + 16),
{
    let len = data.len();
    let mut out = [0u8; 16];
    let mut i: usize = 0;
    while i < 16
        invariant
            i <= 16,
            at + 16 <= data@.len() == len,
            forall|j: int| 0 <= j < i ==> out@[j] == data@[at + j],
        decreases 16 - i,
    {
        out[i] = data[at + i];
        i += 1;
    }
    assert(out@ =~= data@.subrange(at as int, at + 16));
    out
}

/// The 32 bytes of `data` from `at` on, as an array.
pub fn array_32(data: &[u8], at: usize) -> (out: [u8; 32])
    requires
        at + 32 <= data@.len(),
    ensures
        out@ == data@.subrange(at as int, at + 32),
{
    let len = data.len();
    let mut out = [0u8; 32];
    let mut i: usize = 0;
    while i < 32
        invariant
            i <= 32,
            at + 32 <= data@.len() == len,
            forall|j: int| 0 <= j < i ==> out@[j] == data@[at + j],
        decreases 32 - i,
    {
        out[i] = data[at + i];
        i += 1;
    }
    assert(out@ =~= data@.subrange(at as int, at + 32));
    out
}

/// The bytes of `data` from `from` up to `to`, as a vector.
pub fn copy_range(data: &[u8], from: usize, to: usize) -> (out: Vec<u8>)
    requires
        from <= to <= data@.len(),
    ensures
        out@ == data@.subrange(from as int, to as int),
{
    let mut out: Vec<u8> = Vec::new();
    let mut i: usize = from;
    while i < to
        invariant
            from <= i <= to <= data@.len(),
            out@ == data@.subrange(from as int, i as int),
        decreases to - i,
    {
        out.push(data[i]);
        i += 1;
        assert(data@.subrange(from as int, i as int) == data@.subrange(from as int, i - 1).push(
            data@[i - 1],
        ));
    }
    out
}

} // verus!
