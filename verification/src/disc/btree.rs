//! Nodes of a catalog B-tree.
//!
//! A catalog is a run of nodes of one size. Each node begins with a
//! descriptor (link to the next node, kind, number of records) and ends with
//! a table of 16-bit record offsets, filled from the back. The leaves form a
//! singly linked list; every traversal follows that list and is bounded, so
//! that a corrupt cycle cannot keep it going.

use vstd::prelude::*;
use crate::bytes::{be16, be32, read_be16, read_be32};
use crate::disc::browse::filesystem::FilesystemError;
use crate::disc::browse::reader::{in_range, SectorReader};

verus! {

/// Most nodes a directory listing or a file lookup will visit.
pub const MAX_CATALOG_NODES: u32 = 10000;

/// Most nodes the lookup of a volume name will visit.
pub const MAX_NAME_NODES: u32 = 1000;

/// The shortest node that holds a whole descriptor field set.
pub const MIN_NODE_SIZE: u16 = 12;

/// Offset of a node in the image.
pub open spec fn node_offset(catalog_offset: int, node_size: int, node: int) -> int {
    catalog_offset + node * node_size
}

/// The bytes of a node, if the node is long enough for a descriptor and lies
/// within the image.
pub open spec fn node_bytes(image: Seq<u8>, catalog_offset: int, node_size: int, node: int) -> Option<
    Seq<u8>,
> {
    let at = node_offset(catalog_offset, node_size, node);
    if node_size >= 12 && in_range(image.len(), at, node_size) {
        Some(image.subrange(at, at + node_size))
    } else {
        None
    }
}

/// The node that follows in the list; 0 ends the list.
pub open spec fn next_node(data: Seq<u8>) -> int {
    be32(data, 0)
}

/// Whether the node is a leaf: its kind, a signed byte, is -1.
pub open spec fn is_leaf(data: Seq<u8>) -> bool {
    data[8] == 0xFF
}

/// The number of records the node claims to hold.
pub open spec fn record_count(data: Seq<u8>) -> int {
    be16(data, 10)
}

/// Where the offset of record `i` is stored.
pub open spec fn slot_position(node_size: int, i: int) -> int {
    node_size - 2 - 2 * i
}

/// Where record `i` begins, if its slot lies within the node.
pub open spec fn record_start(data: Seq<u8>, node_size: int, i: int) -> Option<int> {
    let pos = slot_position(node_size, i);
    if 0 <= pos && pos + 2 <= data.len() {
        Some(be16(data, pos))
    } else {
        None
    }
}

/// The 16-bit units stored big-endian from `at` on.
pub open spec fn be16_units(data: Seq<u8>, at: int, count: int) -> Seq<u16> {
    Seq::new(count as nat, |k: int| be16(data, at + 2 * k) as u16)
}

/// `times` copies of `part`, one after the other.
pub open spec fn repeated<A>(part: Seq<A>, times: nat) -> Seq<A>
    decreases times,
{
    if times == 0 {
        Seq::empty()
    } else {
        part + repeated(part, (times - 1) as nat)
    }
}

/// Reads one node of a catalog.
pub fn read_node<R: SectorReader>(reader: &mut R, catalog_offset: u64, node_size: u16, node: u32) -> (r:
    Result<Vec<u8>, FilesystemError>)
    requires
        old(reader).wf(),
    ensures
        final(reader).wf(),
        final(reader).image() == old(reader).image(),
        match r {
            Ok(v) => node_bytes(
                old(reader).image(),
                catalog_offset as int,
                node_size as int,
                node as int,
            ) == Some(v@),
            Err(FilesystemError::InvalidData(_)) => node_size < 12,
            Err(FilesystemError::Io(_)) => node_size >= 12 && node_bytes(
                old(reader).image(),
                catalog_offset as int,
                node_size as int,
                node as int,
            ) is None,
            Err(_) => false,
        },
{
    if node_size < MIN_NODE_SIZE {
        return Err(FilesystemError::InvalidData("B-tree node too small".to_owned()));
    }
    proof {
        reader.image_fits();
    }
    assert(node * node_size <= 0xffff_ffff * 0xffff) by (nonlinear_arith)
        requires
            node <= 0xffff_ffff,
            node_size <= 0xffff,
    ;
    let span: u64 = node as u64 * node_size as u64;
    match catalog_offset.checked_add(span) {
        Some(at) => {
            match reader.read_bytes(at, node_size as usize) {
                Ok(v) => Ok(v),
                Err(e) => Err(FilesystemError::Io(e)),
            }
        },
        None => Err(FilesystemError::Io(crate::disc::browse::reader::ReadError::UnexpectedEof)),
    }
}

/// Finds where record `i` of a node begins.
pub fn record_start_at(data: &[u8], node_size: u16, i: u16) -> (r: Option<usize>)
    ensures
        match r {
            Some(at) => record_start(data@, node_size as int, i as int) == Some(at as int),
            None => record_start(data@, node_size as int, i as int) is None,
        },
{
    let size: usize = node_size as usize;
    let back: usize = 2 + 2 * (i as usize);
    if back > size {
        return None;
    }
    let pos: usize = size - back;
    if pos + 2 > data.len() {
        return None;
    }
    Some(read_be16(data, pos) as usize)
}

/// Collects `count` big-endian 16-bit units.
pub fn read_units(data: &[u8], at: usize, count: usize) -> (r: Vec<u16>)
    requires
        at + 2 * count <= data@.len(),
    ensures
        r@ == be16_units(data@, at as int, count as int),
{
    let len: usize = data.len();
    let mut out: Vec<u16> = Vec::new();
    let mut k: usize = 0;
    while k < count
        invariant
            k <= count,
            at + 2 * count <= data@.len() == len,
            out@ == be16_units(data@, at as int, k as int),
        decreases count - k,
    {
        let unit: u16 = read_be16(data, at + 2 * k);
        proof {
            assert(be16_units(data@, at as int, k + 1) =~= out@.push(unit));
        }
        out.push(unit);
        k = k + 1;
    }
    out
}

/// The link to the next node.
pub fn node_link(data: &[u8]) -> (r: u32)
    requires
        data@.len() >= 12,
    ensures
        r == next_node(data@),
{
    read_be32(data, 0)
}

/// Whether the node is a leaf.
pub fn node_is_leaf(data: &[u8]) -> (r: bool)
    requires
        data@.len() >= 12,
    ensures
        r == is_leaf(data@),
{
    data[8] == 0xFF
}

/// The number of records of the node.
pub fn node_record_count(data: &[u8]) -> (r: u16)
    requires
        data@.len() >= 12,
    ensures
        r == record_count(data@),
{
    read_be16(data, 10)
}

} // verus!
