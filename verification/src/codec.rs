use vstd::prelude::*;
use vstd::bytes::{spec_u64_from_le_bytes, spec_u64_to_le_bytes};

use crate::error::BorshError;

verus! {

/// The error of reading a fixed-size record of `n` bytes from a buffer of
/// `len` bytes, if any: a short buffer ends the read, a long one leaves bytes over.
pub open spec fn fixed_len_error(len: nat, n: nat) -> Option<BorshError> {
    if len < n {
        Some(BorshError::UnexpectedLength)
    } else if len > n {
        Some(BorshError::NotAllBytesRead)
    } else {
        None
    }
}

/// The `u64` stored little-endian in `data[offset..offset + 8]`.
pub open spec fn u64_at(data: Seq<u8>, offset: int) -> u64 {
    spec_u64_from_le_bytes(data.subrange(offset, offset + 8))
}

/// The eight little-endian bytes of `x`.
pub open spec fn u64_bytes(x: u64) -> Seq<u8> {
    spec_u64_to_le_bytes(x)
}

/// Writing a `u64` and reading it back gives it again, and eight bytes
/// read as a `u64` are written back as the same bytes.
pub proof fn lemma_u64_bytes_roundtrip(x: u64, s: Seq<u8>)
    ensures
        u64_bytes(x).len() == 8,
        spec_u64_from_le_bytes(u64_bytes(x)) == x,
        s.len() == 8 ==> u64_bytes(spec_u64_from_le_bytes(s)) == s,
{
    vstd::bytes::lemma_auto_spec_u64_to_from_le_bytes();
}

/// Reads the little-endian `u64` at `offset`.
pub fn read_u64(data: &[u8], offset: usize) -> (x: u64)
    requires
        offset + 8 <= data.len(),
    ensures
        x == u64_at(data@, offset as int),
{
    let part = vstd::slice::slice_subrange(data, offset, offset + 8);
    vstd::bytes::u64_from_le_bytes(part)
}

/// Appends the little-endian bytes of `x`.
pub fn write_u64(out: &mut Vec<u8>, x: u64)
    ensures
        final(out)@ == old(out)@ + u64_bytes(x),
{
    let mut bytes = vstd::bytes::u64_to_le_bytes(x);
    out.append(&mut bytes);
}

/// Overwrites the front of `data` with `bytes`, leaving the rest as it was.
pub fn write_prefix(data: &mut Vec<u8>, bytes: &Vec<u8>)
    requires
        bytes.len() <= old(data).len(),
    ensures
        final(data)@ == bytes@ + old(data)@.skip(bytes.len() as int),
{
    let mut i: usize = 0;
    while i < bytes.len()
        invariant
            i <= bytes.len() <= data.len(),
            data.len() == old(data).len(),
            forall|j: int| 0 <= j < i ==> data@[j] == bytes@[j],
            forall|j: int| i <= j < data.len() ==> data@[j] == old(data)@[j],
        decreases bytes.len() - i,
    {
        data.set(i, bytes[i]);
        i = i + 1;
    }
    assert(data@ =~= bytes@ + old(data)@.skip(bytes.len() as int));
}

} // verus!

verus! {

/// A byte vector's deep view is its view.
pub proof fn lemma_bytes_deep_view(v: Vec<u8>)
    ensures
        v.deep_view() == v@,
{
    assert(v.deep_view() =~= v@);
}

/// A vector of byte vectors seen as the sequence of its elements' bytes.
pub proof fn lemma_seeds_deep_view(s: Vec<Vec<u8>>)
    ensures
        s.deep_view().len() == s@.len(),
        forall|i: int| 0 <= i < s@.len() ==> #[trigger] s.deep_view()[i] == s@[i]@,
{
    assert forall|i: int| 0 <= i < s@.len() implies #[trigger] s.deep_view()[i] == s@[i]@ by {
        lemma_bytes_deep_view(s@[i]);
    }
}

} // verus!

verus! {

/// The number that the bytes `b[0..8]` stand for, least significant first.
pub open spec fn le_value(b: Seq<u8>) -> int {
    b[0] + b[1] * 0x100 + b[2] * 0x1_0000 + b[3] * 0x100_0000 + b[4] * 0x1_0000_0000 + b[5]
        * 0x100_0000_0000 + b[6] * 0x1_0000_0000_0000 + b[7] * 0x100_0000_0000_0000
}

/// `u64` values are stored little-endian: the eight bytes written for `x`
/// stand for `x` least significant first, and the value read at `offset`
/// is what the eight bytes there stand for.
pub proof fn lemma_u64_little_endian(x: u64, data: Seq<u8>, offset: int)
    ensures
        u64_bytes(x).len() == 8,
        le_value(u64_bytes(x)) == x as int,
        0 <= offset && offset + 8 <= data.len() ==> le_value(data.subrange(offset, offset + 8))
            == u64_at(data, offset) as int,
{
    vstd::bytes::spec_u64_to_le_bytes_to_open(x);
    lemma_u64_bytes_roundtrip(x, Seq::empty());
    let b = u64_bytes(x);
    assert(b[0] == (x & 0xff) as u8);
    assert(b[7] == ((x >> 56) & 0xff) as u8);
    assert(x as int == ((x & 0xff) as u8) + ((x >> 8) & 0xff) as u8 * 0x100int + ((x >> 16) & 0xff) as u8
        * 0x1_0000int + ((x >> 24) & 0xff) as u8 * 0x100_0000int + ((x >> 32) & 0xff) as u8
        * 0x1_0000_0000int + ((x >> 40) & 0xff) as u8 * 0x100_0000_0000int + ((x >> 48) & 0xff) as u8
        * 0x1_0000_0000_0000int + ((x >> 56) & 0xff) as u8 * 0x100_0000_0000_0000int) by (bit_vector);
    if 0 <= offset && offset + 8 <= data.len() {
        let s = data.subrange(offset, offset + 8);
        let y = u64_at(data, offset);
        lemma_u64_bytes_roundtrip(y, s);
        vstd::bytes::spec_u64_to_le_bytes_to_open(y);
        assert(y as int == ((y & 0xff) as u8) + ((y >> 8) & 0xff) as u8 * 0x100int + ((y >> 16) & 0xff) as u8
            * 0x1_0000int + ((y >> 24) & 0xff) as u8 * 0x100_0000int + ((y >> 32) & 0xff) as u8
            * 0x1_0000_0000int + ((y >> 40) & 0xff) as u8 * 0x100_0000_0000int + ((y >> 48) & 0xff) as u8
            * 0x1_0000_0000_0000int + ((y >> 56) & 0xff) as u8 * 0x100_0000_0000_0000int) by (bit_vector);
        assert(u64_bytes(y) == s);
    }
}

} // verus!
