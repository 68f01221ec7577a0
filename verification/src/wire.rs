use vstd::prelude::*;

use vstd::bytes::{
    spec_u16_from_le_bytes, spec_u16_to_le_bytes, spec_u32_from_le_bytes, spec_u32_to_le_bytes,
    u16_from_le_bytes, u16_to_le_bytes, u32_from_le_bytes, u32_to_le_bytes,
};
use vstd::slice::slice_index_get;
use vstd::slice::slice_subrange;

verus! {

/// 4-byte little-endian marker that announces a local file header.
pub const LFHD: u32 = 0x04034b50;

/// 4-byte little-endian marker that begins the central directory; the stream
/// reader treats it as the end-of-entries sentinel.
pub const CDFHD: u32 = 0x02014b50;

/// 4-byte little-endian marker that announces a trailing data descriptor.
pub const DDD: u32 = 0x08074b50;

/// The 16-bit value stored little-endian at byte offset `i` of `b`.
pub open spec fn le16_at(b: Seq<u8>, i: int) -> u16
    recommends
        0 <= i,
        i + 2 <= b.len(),
{
    spec_u16_from_le_bytes(b.subrange(i, i + 2))
}

/// The 32-bit value stored little-endian at byte offset `i` of `b`.
pub open spec fn le32_at(b: Seq<u8>, i: int) -> u32
    recommends
        0 <= i,
        i + 4 <= b.len(),
{
    spec_u32_from_le_bytes(b.subrange(i, i + 4))
}

/// Appends all of `src` to `dst`.
pub fn append_bytes(dst: &mut Vec<u8>, src: &[u8])
    ensures
        final(dst)@ == old(dst)@ + src@,
{
    let n = src.len();
    proof {
        assert(old(dst)@ + src@.subrange(0, 0) =~= old(dst)@);
    }
    let mut i: usize = 0;
    while i < n
        invariant
            n == src@.len(),
            i <= n,
            dst@ == old(dst)@ + src@.subrange(0, i as int),
        decreases n - i,
    {
        dst.push(*slice_index_get(src, i));
        proof {
            assert(old(dst)@ + src@.subrange(0, (i + 1) as int) =~= (old(dst)@ + src@.subrange(
                0,
                i as int,
            )).push(src@[i as int]));
        }
        i = i + 1;
    }
    proof {
        assert(src@.subrange(0, n as int) =~= src@);
    }
}

/// Appends the 2-byte little-endian encoding of `x` to `dst`.
pub fn push_u16_le(dst: &mut Vec<u8>, x: u16)
    ensures
        final(dst)@ == old(dst)@ + spec_u16_to_le_bytes(x),
{
    let bs = u16_to_le_bytes(x);
    append_bytes(dst, bs.as_slice());
}

/// Appends the 4-byte little-endian encoding of `x` to `dst`.
pub fn push_u32_le(dst: &mut Vec<u8>, x: u32)
    ensures
        final(dst)@ == old(dst)@ + spec_u32_to_le_bytes(x),
{
    let bs = u32_to_le_bytes(x);
    append_bytes(dst, bs.as_slice());
}

/// Reads the 16-bit little-endian value at byte offset `i` of `b`.
pub fn get_u16_le(b: &[u8], i: usize) -> (r: u16)
    requires
        i + 2 <= b@.len(),
    ensures
        r == le16_at(b@, i as int),
{
    let _n: usize = b.len();
    let s = slice_subrange(b, i, i + 2);
    u16_from_le_bytes(s)
}

/// Reads the 32-bit little-endian value at byte offset `i` of `b`.
pub fn get_u32_le(b: &[u8], i: usize) -> (r: u32)
    requires
        i + 4 <= b@.len(),
    ensures
        r == le32_at(b@, i as int),
{
    let _n: usize = b.len();
    let s = slice_subrange(b, i, i + 4);
    u32_from_le_bytes(s)
}

} // verus!
