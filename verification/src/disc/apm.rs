//! The Apple partition map.
//!
//! A partitioned image begins with a driver descriptor block (signature
//! "ER"); the partition entries follow from block 1 on, one per 512-byte
//! block, each with the signature "PM".

use vstd::prelude::*;
use crate::bytes::{be16, be32, read_be16, read_be32};
use crate::disc::browse::reader::{in_range, SectorReader};
use crate::text::search::{starts_with, starts_with_chars};
use crate::text::trim::{trim, trim_chars, trim_end, trim_end_chars, CharClass};
use crate::text::{chars_of, decode_utf8_lossy, lossy_text, message_with_hex, string_of};
use vstd::slice::slice_subrange;

verus! {

/// Block size of the partition map.
pub const APM_BLOCK_SIZE: u64 = 512;

/// Signature of the driver descriptor block: "ER".
pub const DDM_SIGNATURE: u16 = 0x4552;

/// Signature of a partition entry: "PM".
pub const PM_SIGNATURE: u16 = 0x504D;

/// One entry of the partition map.
#[derive(Debug, Clone)]
pub struct PartitionEntry {
    /// Signature (0x504D).
    pub signature: u16,
    /// Number of entries in the map.
    pub map_entries: u32,
    /// First block of the partition.
    pub start_block: u32,
    /// Number of blocks of the partition.
    pub block_count: u32,
    /// Name of the partition.
    pub name: String,
    /// Type of the partition, such as "Apple_HFS".
    pub partition_type: String,
}

/// What a partition entry says, as mathematical values.
pub struct PartitionModel {
    /// Signature.
    pub signature: u16,
    /// Number of entries in the map.
    pub map_entries: u32,
    /// First block of the partition.
    pub start_block: u32,
    /// Number of blocks of the partition.
    pub block_count: u32,
    /// Name of the partition.
    pub name: Seq<char>,
    /// Type of the partition.
    pub partition_type: Seq<char>,
}

impl View for PartitionEntry {
    type V = PartitionModel;

    open spec fn view(&self) -> PartitionModel {
        PartitionModel {
            signature: self.signature,
            map_entries: self.map_entries,
            start_block: self.start_block,
            block_count: self.block_count,
            name: self.name@,
            partition_type: self.partition_type@,
        }
    }
}

/// The models of a sequence of entries.
pub open spec fn partition_models(entries: Seq<PartitionEntry>) -> Seq<PartitionModel> {
    Seq::new(entries.len(), |i: int| entries[i]@)
}

/// The text of a 32-byte field that ends at the first of its trailing NULs:
/// decoded, without trailing NULs and without surrounding whitespace.
pub open spec fn label_text(field: Seq<u8>) -> Seq<char> {
    trim(trim_end(lossy_text(field), CharClass::Nul))
}

/// The type tag of the hierarchical filesystems.
pub open spec fn hfs_tag() -> Seq<char> {
    "Apple_HFS"@
}

/// Whether a partition of this type holds a hierarchical filesystem.
pub open spec fn is_hfs_type(partition_type: Seq<char>) -> bool {
    starts_with(partition_type, hfs_tag())
}

/// Block `index` of the image, if it lies within the image.
pub open spec fn block_at(image: Seq<u8>, index: int) -> Option<Seq<u8>> {
    if in_range(image.len(), index * 512, 512) {
        Some(image.subrange(index * 512, index * 512 + 512))
    } else {
        None
    }
}

/// The entries from block `index` up to block `count`. A block that is no
/// entry ends the map; a block that cannot be read fails the whole.
pub open spec fn later_entries(image: Seq<u8>, index: int, count: int) -> Result<
    Seq<PartitionModel>,
    (),
>
    decreases count + 1 - index,
{
    if index > count {
        Ok(Seq::empty())
    } else {
        match block_at(image, index) {
            None => Err(()),
            Some(block) => {
                if !PartitionEntry::block_ok(block) {
                    Ok(Seq::empty())
                } else {
                    match later_entries(image, index + 1, count) {
                        Ok(rest) => Ok(seq![PartitionEntry::of_block(block)] + rest),
                        Err(e) => Err(e),
                    }
                }
            },
        }
    }
}

/// The partition map of an image: block 0 must carry the driver descriptor
/// signature and block 1 must be an entry, which says how many entries
/// there are.
pub open spec fn partition_map(image: Seq<u8>) -> Result<Seq<PartitionModel>, ()> {
    match block_at(image, 0) {
        None => Err(()),
        Some(descriptor) => {
            if be16(descriptor, 0) != 0x4552 {
                Err(())
            } else {
                match block_at(image, 1) {
                    None => Err(()),
                    Some(first) => {
                        if !PartitionEntry::block_ok(first) {
                            Err(())
                        } else {
                            match later_entries(
                                image,
                                2,
                                PartitionEntry::of_block(first).map_entries as int,
                            ) {
                                Ok(rest) => Ok(seq![PartitionEntry::of_block(first)] + rest),
                                Err(e) => Err(e),
                            }
                        }
                    },
                }
            }
        },
    }
}

/// The first entry at or after `from` that holds a hierarchical filesystem.
pub open spec fn first_hfs_from(entries: Seq<PartitionModel>, from: int) -> Option<int>
    decreases entries.len() - from,
{
    if from < 0 || from >= entries.len() {
        None
    } else if is_hfs_type(entries[from].partition_type) {
        Some(from)
    } else {
        first_hfs_from(entries, from + 1)
    }
}

/// The byte offset of the first partition with a hierarchical filesystem.
pub open spec fn hfs_partition_offset(image: Seq<u8>) -> Option<int> {
    match partition_map(image) {
        Err(_) => None,
        Ok(entries) => match first_hfs_from(entries, 0) {
            Some(k) => Some(entries[k].start_block * 512),
            None => None,
        },
    }
}

impl PartitionEntry {
    /// The block is a partition entry: 512 bytes that begin with "PM".
    pub open spec fn block_ok(block: Seq<u8>) -> bool {
        block.len() >= 512 && be16(block, 0) == 0x504D
    }

    /// The entry that a block holds.
    pub open spec fn of_block(block: Seq<u8>) -> PartitionModel {
        PartitionModel {
            signature: be16(block, 0) as u16,
            map_entries: be32(block, 4) as u32,
            start_block: be32(block, 8) as u32,
            block_count: be32(block, 12) as u32,
            name: label_text(block.subrange(16, 48)),
            partition_type: label_text(block.subrange(48, 80)),
        }
    }

    /// Parses a partition entry from a 512-byte block.
    pub fn parse(data: &[u8]) -> (r: Result<Self, String>)
        ensures
            r is Ok <==> Self::block_ok(data@),
            r matches Ok(entry) ==> entry@ == Self::of_block(data@),
    {
        if data.len() < 512 {
            return Err("Partition entry data too short".to_owned());
        }
        let signature: u16 = read_be16(data, 0);
        if signature != PM_SIGNATURE {
            return Err(message_with_hex("Invalid partition signature: ", signature));
        }
        let map_entries: u32 = read_be32(data, 4);
        let start_block: u32 = read_be32(data, 8);
        let block_count: u32 = read_be32(data, 12);
        let name = Self::label(slice_subrange(data, 16, 48));
        let partition_type = Self::label(slice_subrange(data, 48, 80));
        Ok(PartitionEntry { signature, map_entries, start_block, block_count, name, partition_type })
    }

    /// The text of a name or type field.
    pub fn label(field: &[u8]) -> (r: String)
        ensures
            r@ == label_text(field@),
    {
        let decoded = decode_utf8_lossy(field);
        let chars = chars_of(decoded.as_str());
        let cut = trim_end_chars(chars.as_slice(), CharClass::Nul);
        let trimmed = trim_chars(cut.as_slice());
        string_of(trimmed.as_slice())
    }

    /// Whether this partition holds a hierarchical filesystem: its type
    /// begins with "Apple_HFS".
    pub fn is_hfs(&self) -> (r: bool)
        ensures
            r == is_hfs_type(self.partition_type@),
    {
        let chars = chars_of(self.partition_type.as_str());
        let tag = chars_of("Apple_HFS");
        starts_with_chars(chars.as_slice(), tag.as_slice())
    }
}

/// Reads the partition map and returns all its entries.
pub fn parse_partition_map<R: SectorReader>(reader: &mut R) -> (r: Result<Vec<PartitionEntry>, String>)
    requires
        old(reader).wf(),
    ensures
        final(reader).wf(),
        final(reader).image() == old(reader).image(),
        r is Ok <==> partition_map(old(reader).image()) is Ok,
        r matches Ok(entries) ==> Ok::<Seq<PartitionModel>, ()>(partition_models(entries@))
            == partition_map(old(reader).image()),
{
    let ghost image = reader.image();
    let descriptor = match reader.read_bytes(0, 512) {
        Ok(v) => v,
        Err(_) => {
            return Err("Failed to read DDM".to_owned());
        },
    };
    let signature: u16 = read_be16(descriptor.as_slice(), 0);
    if signature != DDM_SIGNATURE {
        return Err(message_with_hex("Invalid DDM signature: ", signature));
    }
    let first_block = match reader.read_bytes(APM_BLOCK_SIZE, 512) {
        Ok(v) => v,
        Err(_) => {
            return Err("Failed to read first partition entry".to_owned());
        },
    };
    let first = match PartitionEntry::parse(first_block.as_slice()) {
        Ok(e) => e,
        Err(e) => {
            return Err(e);
        },
    };
    let count: u32 = first.map_entries;
    let ghost head = first@;
    let mut partitions: Vec<PartitionEntry> = Vec::new();
    partitions.push(first);
    let mut index: u64 = 2;
    proof {
        assert(partition_models(partitions@) =~= seq![head]);
    }
    while index <= count as u64
        invariant
            2 <= index <= count + 2,
            reader.wf(),
            reader.image() == image,
            image == old(reader).image(),
            partition_map(image) == match later_entries(image, index as int, count as int) {
                Ok(rest) => Ok::<Seq<PartitionModel>, ()>(partition_models(partitions@) + rest),
                Err(e) => Err(e),
            },
        decreases count + 1 - index,
    {
        let block = match reader.read_bytes(index * APM_BLOCK_SIZE, 512) {
            Ok(v) => v,
            Err(_) => {
                return Err("Failed to read partition entry".to_owned());
            },
        };
        match PartitionEntry::parse(block.as_slice()) {
            Ok(entry) => {
                proof {
                    let rest = later_entries(image, index + 1, count as int);
                    if rest is Ok {
                        assert(partition_models(partitions@.push(entry)) + rest->Ok_0
                            =~= partition_models(partitions@) + (seq![entry@] + rest->Ok_0));
                    }
                }
                partitions.push(entry);
            },
            Err(_) => {
                proof {
                    assert(partition_models(partitions@) + Seq::<PartitionModel>::empty()
                        =~= partition_models(partitions@));
                }
                return Ok(partitions);
            },
        }
        index = index + 1;
    }
    proof {
        assert(partition_models(partitions@) + Seq::<PartitionModel>::empty() =~= partition_models(
            partitions@,
        ));
    }
    Ok(partitions)
}

/// Finds the first partition with a hierarchical filesystem and returns its
/// byte offset: its first block times 512.
pub fn find_hfs_partition_offset<R: SectorReader>(reader: &mut R) -> (r: Result<u64, String>)
    requires
        old(reader).wf(),
    ensures
        final(reader).wf(),
        final(reader).image() == old(reader).image(),
        r is Ok <==> hfs_partition_offset(old(reader).image()) is Some,
        r matches Ok(offset) ==> Some(offset as int) == hfs_partition_offset(old(reader).image()),
{
    let partitions = match parse_partition_map(reader) {
        Ok(v) => v,
        Err(e) => {
            return Err(e);
        },
    };
    let ghost entries = partition_models(partitions@);
    let mut k: usize = 0;
    while k < partitions.len()
        invariant
            k <= partitions@.len(),
            reader.wf(),
            reader.image() == old(reader).image(),
            entries == partition_models(partitions@),
            partition_map(old(reader).image()) == Ok::<Seq<PartitionModel>, ()>(entries),
            first_hfs_from(entries, 0) == first_hfs_from(entries, k as int),
        decreases partitions@.len() - k,
    {
        if partitions[k].is_hfs() {
            return Ok(partitions[k].start_block as u64 * APM_BLOCK_SIZE);
        }
        k = k + 1;
    }
    Err("No HFS/HFS+ partition found in partition map".to_owned())
}

/// In a map with exactly one entry whose type begins with the tag, that
/// entry is the one found.
pub proof fn lemma_single_hfs_partition(entries: Seq<PartitionModel>, k: int, from: int)
    requires
        0 <= from <= k < entries.len(),
        is_hfs_type(entries[k].partition_type),
        forall|j: int| 0 <= j < entries.len() && j != k ==> !is_hfs_type(#[trigger] entries[j].partition_type),
    ensures
        first_hfs_from(entries, from) == Some(k),
    decreases k - from,
{
    if from < k {
        lemma_single_hfs_partition(entries, k, from + 1);
    }
}

/// In a map without any entry whose type begins with the tag, none is found.
pub proof fn lemma_no_hfs_partition(entries: Seq<PartitionModel>, from: int)
    requires
        0 <= from,
        forall|j: int| 0 <= j < entries.len() ==> !is_hfs_type(#[trigger] entries[j].partition_type),
    ensures
        first_hfs_from(entries, from) is None,
    decreases entries.len() - from,
{
    if from < entries.len() {
        lemma_no_hfs_partition(entries, from + 1);
    }
}

/// For a partition map with exactly one entry of a hierarchical filesystem,
/// the offset lookup gives that entry's first block times 512; for a map
/// with none, it gives nothing.
pub proof fn lemma_partition_offset(image: Seq<u8>, entries: Seq<PartitionModel>)
    requires
        partition_map(image) == Ok::<Seq<PartitionModel>, ()>(entries),
    ensures
        forall|k: int|
            0 <= k < entries.len() && is_hfs_type(#[trigger] entries[k].partition_type) && (forall|
                j: int,
            |
                0 <= j < entries.len() && j != k ==> !is_hfs_type(
                    #[trigger] entries[j].partition_type,
                )) ==> hfs_partition_offset(image) == Some(entries[k].start_block * 512),
        (forall|j: int| 0 <= j < entries.len() ==> !is_hfs_type(#[trigger] entries[j].partition_type))
            ==> hfs_partition_offset(image) is None,
{
    assert forall|k: int|
        0 <= k < entries.len() && is_hfs_type(#[trigger] entries[k].partition_type) && (forall|
            j: int,
        |
            0 <= j < entries.len() && j != k ==> !is_hfs_type(
                #[trigger] entries[j].partition_type,
            )) implies hfs_partition_offset(image) == Some(entries[k].start_block * 512) by {
        lemma_single_hfs_partition(entries, k, 0);
    }
    if forall|j: int| 0 <= j < entries.len() ==> !is_hfs_type(#[trigger] entries[j].partition_type) {
        lemma_no_hfs_partition(entries, 0);
    }
}

} // verus!
