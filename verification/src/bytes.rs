//! Big-endian integer encodings shared by the wire formats.

use vstd::prelude::*;

verus! {

/// The two bytes of `v`, most significant first.
pub open spec fn be_u16(v: u16) -> Seq<u8> {
    seq![(v / 256) as u8, (v % 256) as u8]
}

/// The four bytes of `v`, most significant first.
pub open spec fn be_u32(v: u32) -> Seq<u8> {
    seq![
        (v / 0x100_0000) as u8,
        (v / 0x1_0000 % 256) as u8,
        (v / 256 % 256) as u8,
        (v % 256) as u8,
    ]
}

/// The eight bytes of `v`, most significant first.
pub open spec fn be_u64(v: u64) -> Seq<u8> {
    be_u32((v / 0x1_0000_0000) as u32) + be_u32((v % 0x1_0000_0000) as u32)
}

/// The sixteen bytes of `v`, most significant first.
pub open spec fn be_u128(v: u128) -> Seq<u8> {
    be_u64((v / 0x1_0000_0000_0000_0000) as u64) + be_u64((v % 0x1_0000_0000_0000_0000) as u64)
}

/// Appends the big-endian bytes of `v`.
pub fn push_be_u16(out: &mut Vec<u8>, v: u16)
    ensures
        final(out)@ == old(out)@ + be_u16(v),
{
    out.push((v / 256) as u8);
    out.push((v % 256) as u8);
    assert(final(out)@ =~= old(out)@ + be_u16(v));
}

/// Appends the big-endian bytes of `v`.
pub fn push_be_u32(out: &mut Vec<u8>, v: u32)
    ensures
        final(out)@ == old(out)@ + be_u32(v),
{
    out.push((v / 0x100_0000) as u8);
    out.push((v / 0x1_0000 % 256) as u8);
    out.push((v / 256 % 256) as u8);
    out.push((v % 256) as u8);
    assert(final(out)@ =~= old(out)@ + be_u32(v));
}

/// Appends the big-endian bytes of `v`.
pub fn push_be_u64(out: &mut Vec<u8>, v: u64)
    ensures
        final(out)@ == old(out)@ + be_u64(v),
{
    let ghost start = out@;
    push_be_u32(out, (v / 0x1_0000_0000) as u32);
    push_be_u32(out, (v % 0x1_0000_0000) as u32);
    assert(out@ =~= start + be_u64(v));
}

/// Appends the big-endian bytes of `v`.
pub fn push_be_u128(out: &mut Vec<u8>, v: u128)
    ensures
        final(out)@ == old(out)@ + be_u128(v),
{
    let ghost start = out@;
    push_be_u64(out, (v / 0x1_0000_0000_0000_0000) as u64);
    push_be_u64(out, (v % 0x1_0000_0000_0000_0000) as u64);
    assert(out@ =~= start + be_u128(v));
}

/// Appends every byte of `src`.
pub fn push_all(out: &mut Vec<u8>, src: &[u8])
    ensures
        final(out)@ == old(out)@ + src@,
{
    let ghost start = out@;
    let mut i: usize = 0;
    while i < src.len()
        invariant
            i <= src@.len(),
            out@ == start + src@.subrange(0, i as int),
        decreases src@.len() - i,
    {
        out.push(src[i]);
        i = i + 1;
        assert(out@ =~= start + src@.subrange(0, i as int));
    }
    assert(src@.subrange(0, src@.len() as int) =~= src@);
}

/// Whether `a` and `b` hold the same bytes.
pub fn bytes_eq(a: &[u8], b: &[u8]) -> (r: bool)
    ensures
        r == (a@ == b@),
{
    if a.len() != b.len() {
        return false;
    }
    let mut i: usize = 0;
    while i < a.len()
        invariant
            a@.len() == b@.len(),
            i <= a@.len(),
            forall|j: int| 0 <= j < i ==> a@[j] == b@[j],
        decreases a@.len() - i,
    {
        if a[i] != b[i] {
            return false;
        }
        i = i + 1;
    }
    assert(a@ =~= b@);
    true
}

/// Appends `src[lo..hi]`.
pub fn push_slice_range(out: &mut Vec<u8>, src: &[u8], lo: usize, hi: usize)
    requires
        lo <= hi <= src@.len(),
    ensures
        final(out)@ == old(out)@ + src@.subrange(lo as int, hi as int),
{
    let ghost start = out@;
    let mut i: usize = lo;
    while i < hi
        invariant
            lo <= i <= hi,
            hi <= src@.len(),
            out@ == start + src@.subrange(lo as int, i as int),
        decreases hi - i,
    {
        out.push(src[i]);
        i = i + 1;
        assert(out@ =~= start + src@.subrange(lo as int, i as int));
    }
}

} // verus!
