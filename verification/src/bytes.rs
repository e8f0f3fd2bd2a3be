//! Integers stored in bytes, most or least significant byte first.

use vstd::prelude::*;

verus! {

/// The 16-bit number stored big-endian at `at`.
pub open spec fn be16(s: Seq<u8>, at: int) -> int {
    s[at] as int * 256 + s[at + 1] as int
}

/// The 32-bit number stored big-endian at `at`.
pub open spec fn be32(s: Seq<u8>, at: int) -> int {
    s[at] as int * 16777216 + s[at + 1] as int * 65536 + s[at + 2] as int * 256 + s[at + 3] as int
}

/// The 64-bit number stored big-endian at `at`.
pub open spec fn be64(s: Seq<u8>, at: int) -> int {
    be32(s, at) * 4294967296 + be32(s, at + 4)
}

/// The 16-bit number stored little-endian at `at`.
pub open spec fn le16(s: Seq<u8>, at: int) -> int {
    s[at] as int + s[at + 1] as int * 256
}

/// The 32-bit number stored little-endian at `at`.
pub open spec fn le32(s: Seq<u8>, at: int) -> int {
    s[at] as int + s[at + 1] as int * 256 + s[at + 2] as int * 65536 + s[at + 3] as int * 16777216
}

/// The four bytes of a 32-bit number, most significant first.
pub open spec fn be32_bytes(v: u32) -> Seq<u8> {
    seq![
        (v / 16777216) as u8,
        ((v / 65536) % 256) as u8,
        ((v / 256) % 256) as u8,
        (v % 256) as u8,
    ]
}

/// Storing a number and reading it back gives the number.
pub proof fn lemma_be32_round_trip(v: u32)
    ensures
        be32_bytes(v).len() == 4,
        be32(be32_bytes(v), 0) == v,
{
}

/// Reads a big-endian 16-bit number.
pub fn read_be16(data: &[u8], at: usize) -> (r: u16)
    requires
        at + 2 <= data@.len(),
    ensures
        r == be16(data@, at as int),
{
    (data[at] as u16) * 256 + (data[at + 1] as u16)
}

/// Reads a big-endian 32-bit number.
pub fn read_be32(data: &[u8], at: usize) -> (r: u32)
    requires
        at + 4 <= data@.len(),
    ensures
        r == be32(data@, at as int),
{
    (data[at] as u32) * 16777216 + (data[at + 1] as u32) * 65536 + (data[at + 2] as u32) * 256 + (
    data[at + 3] as u32)
}

/// Reads a big-endian 64-bit number.
pub fn read_be64(data: &[u8], at: usize) -> (r: u64)
    requires
        at + 8 <= data@.len(),
    ensures
        r == be64(data@, at as int),
{
    let len: usize = data.len();
    (read_be32(data, at) as u64) * 4294967296 + (read_be32(data, at + 4) as u64)
}

/// Reads a little-endian 16-bit number.
pub fn read_le16(data: &[u8], at: usize) -> (r: u16)
    requires
        at + 2 <= data@.len(),
    ensures
        r == le16(data@, at as int),
{
    (data[at] as u16) + (data[at + 1] as u16) * 256
}

/// Reads a little-endian 32-bit number.
pub fn read_le32(data: &[u8], at: usize) -> (r: u32)
    requires
        at + 4 <= data@.len(),
    ensures
        r == le32(data@, at as int),
{
    (data[at] as u32) + (data[at + 1] as u32) * 256 + (data[at + 2] as u32) * 65536 + (data[at
        + 3] as u32) * 16777216
}

/// Appends the four bytes of a 32-bit number, most significant first.
pub fn push_be32(out: &mut Vec<u8>, v: u32)
    ensures
        final(out)@ == old(out)@ + be32_bytes(v),
{
    out.push((v / 16777216) as u8);
    out.push(((v / 65536) % 256) as u8);
    out.push(((v / 256) % 256) as u8);
    out.push((v % 256) as u8);
    proof {
        assert(out@ =~= old(out)@ + be32_bytes(v));
    }
}

} // verus!
