//! The volume header of the extended hierarchical filesystem.
//!
//! The header lies at byte 1024 of the volume. It does not hold the volume
//! name: that is the name in the thread record of the root folder, which is
//! looked up in the catalog.

use vstd::prelude::*;
use crate::bytes::{be16, be32, read_be16, read_be32};
use crate::disc::browse::reader::{in_range, SectorReader};
use crate::disc::btree::{
    be16_units, is_leaf, next_node, node_bytes, node_is_leaf, node_link, node_record_count,
    read_node, read_units, record_count, record_start, record_start_at, MAX_NAME_NODES,
};
use crate::text::trim::{trim, trim_chars};
use crate::text::{chars_of, decode_utf16, message_with_hex, string_of, utf16_text};

verus! {

/// Catalog node id of the root folder.
pub const HFSPLUS_ROOT_FOLDER_ID: u32 = 2;

/// Record type of a folder thread record.
pub const HFSPLUS_FOLDER_THREAD_RECORD: u16 = 3;

/// Size of the volume header in bytes.
pub const HFSPLUS_HEADER_SIZE: usize = 512;

/// One extent: a run of allocation blocks.
#[derive(Debug, Clone, Copy)]
pub struct HfsPlusExtent {
    /// First allocation block.
    pub start_block: u32,
    /// Number of allocation blocks.
    pub block_count: u32,
}

/// The volume header.
#[derive(Debug, Clone, Copy)]
pub struct HfsPlusVolumeHeader {
    /// Volume signature: 0x482B ("H+") or 0x4858 ("HX").
    pub signature: u16,
    /// Version.
    pub version: u16,
    /// Volume attributes.
    pub attributes: u32,
    /// Version of the system that mounted the volume last.
    pub last_mounted_version: u32,
    /// Journal info block.
    pub journal_info_block: u32,
    /// Creation date.
    pub create_date: u32,
    /// Date of last modification.
    pub modify_date: u32,
    /// Date of last backup.
    pub backup_date: u32,
    /// Date of last check.
    pub checked_date: u32,
    /// Number of files on the volume.
    pub file_count: u32,
    /// Number of folders on the volume.
    pub folder_count: u32,
    /// Size of an allocation block in bytes.
    pub block_size: u32,
    /// Total number of allocation blocks.
    pub total_blocks: u32,
    /// Number of free allocation blocks.
    pub free_blocks: u32,
    /// First extent of the catalog file.
    pub catalog_file_extent: HfsPlusExtent,
}

/// Finder information of a volume.
#[derive(Debug, Clone)]
pub struct HfsPlusFinderInfo {
    /// Volume name.
    pub volume_name: String,
}

/// The name that stands in for a volume whose name cannot be found.
pub open spec fn placeholder_name() -> Seq<char> {
    "HFS+ Volume"@
}

/// The name in record `i` of a leaf, if that record is the thread record of
/// the root folder and holds a usable name: a key for parent 2 with an empty
/// name, a payload of type 3, and 1 to 255 UTF-16 units that decode and are
/// not blank.
pub open spec fn thread_name(data: Seq<u8>, node_size: int, i: int) -> Option<Seq<char>> {
    match record_start(data, node_size, i) {
        None => None,
        Some(at) => {
            if at + 10 > data.len() {
                None
            } else if be16(data, at) < 6 || be32(data, at + 2) != 2 || be16(data, at + 6) != 0 {
                None
            } else {
                let payload = at + 2 + be16(data, at);
                if payload + 10 > data.len() || be16(data, payload) != 3 {
                    None
                } else {
                    let count = be16(data, payload + 8);
                    if count == 0 || count > 255 || payload + 10 + 2 * count > data.len() {
                        None
                    } else {
                        match utf16_text(be16_units(data, payload + 10, count)) {
                            None => None,
                            Some(name) => if trim(name).len() == 0 {
                                None
                            } else {
                                Some(trim(name))
                            },
                        }
                    }
                }
            }
        },
    }
}

/// The first usable name among the records `from..count` of a leaf.
pub open spec fn first_thread_name(data: Seq<u8>, node_size: int, from: int, count: int) -> Option<
    Seq<char>,
>
    decreases count - from,
{
    if from >= count {
        None
    } else {
        match thread_name(data, node_size, from) {
            Some(name) => Some(name),
            None => first_thread_name(data, node_size, from + 1, count),
        }
    }
}

/// The volume name found by following the leaf list from `node`, visiting at
/// most `budget` nodes. A node that cannot be read ends the search.
pub open spec fn scan_for_name(
    image: Seq<u8>,
    catalog_offset: int,
    node_size: int,
    node: int,
    budget: nat,
) -> Option<Seq<char>>
    decreases budget,
{
    if node == 0 || budget == 0 {
        None
    } else {
        match node_bytes(image, catalog_offset, node_size, node) {
            None => None,
            Some(data) => {
                if !is_leaf(data) {
                    scan_for_name(image, catalog_offset, node_size, next_node(data), (budget - 1) as nat)
                } else {
                    match first_thread_name(data, node_size, 0, record_count(data)) {
                        Some(name) => Some(name),
                        None => scan_for_name(
                            image,
                            catalog_offset,
                            node_size,
                            next_node(data),
                            (budget - 1) as nat,
                        ),
                    }
                }
            },
        }
    }
}

/// The volume name that the catalog gives: the catalog must begin with a
/// header node (its kind byte is 1) whose header record names a node size of 1 to 32768
/// and the first leaf.
pub open spec fn catalog_volume_name(
    image: Seq<u8>,
    header: HfsPlusVolumeHeader,
    volume_start: int,
) -> Option<Seq<char>> {
    let at = volume_start + header.catalog_file_extent.start_block * header.block_size;
    if header.catalog_file_extent.start_block == 0 {
        None
    } else if !in_range(image.len(), at, 14) || image[at + 8] != 1 {
        None
    } else if !in_range(image.len(), at + 14, 106) {
        None
    } else {
        let node_size = be16(image, at + 32);
        if node_size == 0 || node_size > 32768 {
            None
        } else {
            scan_for_name(image, at, node_size, be32(image, at + 24), MAX_NAME_NODES as nat)
        }
    }
}

/// Where the volume begins, given where its header lies.
pub open spec fn volume_start_of(position: int) -> int {
    if position >= 1024 {
        position - 1024
    } else {
        0
    }
}

impl HfsPlusVolumeHeader {
    /// Whether the bytes begin with one of the two signatures.
    pub open spec fn signature_ok(block: Seq<u8>) -> bool {
        be16(block, 0) == 0x482B || be16(block, 0) == 0x4858
    }

    /// The header that 512 bytes hold.
    pub open spec fn of_bytes(block: Seq<u8>) -> HfsPlusVolumeHeader {
        HfsPlusVolumeHeader {
            signature: be16(block, 0) as u16,
            version: be16(block, 2) as u16,
            attributes: be32(block, 4) as u32,
            last_mounted_version: be32(block, 8) as u32,
            journal_info_block: be32(block, 12) as u32,
            create_date: be32(block, 16) as u32,
            modify_date: be32(block, 20) as u32,
            backup_date: be32(block, 24) as u32,
            checked_date: be32(block, 28) as u32,
            file_count: be32(block, 32) as u32,
            folder_count: be32(block, 36) as u32,
            block_size: be32(block, 40) as u32,
            total_blocks: be32(block, 44) as u32,
            free_blocks: be32(block, 48) as u32,
            catalog_file_extent: HfsPlusExtent {
                start_block: be32(block, 128) as u32,
                block_count: be32(block, 132) as u32,
            },
        }
    }

    /// The name of the volume whose header lies at `position`: the name from
    /// the catalog, or the placeholder.
    pub open spec fn name_of(image: Seq<u8>, header: HfsPlusVolumeHeader, position: int) -> Seq<char> {
        match catalog_volume_name(image, header, volume_start_of(position)) {
            Some(name) => name,
            None => placeholder_name(),
        }
    }

    /// The fields of a header, from its 512 bytes.
    pub fn parse_header(block: &[u8]) -> (r: Result<Self, String>)
        ensures
            r is Ok <==> block@.len() >= 512 && Self::signature_ok(block@),
            r matches Ok(h) ==> h == Self::of_bytes(block@),
    {
        if block.len() < HFSPLUS_HEADER_SIZE {
            return Err("HFS+ header too short".to_owned());
        }
        let signature: u16 = read_be16(block, 0);
        if signature != 0x482B && signature != 0x4858 {
            return Err(message_with_hex("Invalid HFS+ signature: ", signature));
        }
        Ok(
            HfsPlusVolumeHeader {
                signature,
                version: read_be16(block, 2),
                attributes: read_be32(block, 4),
                last_mounted_version: read_be32(block, 8),
                journal_info_block: read_be32(block, 12),
                create_date: read_be32(block, 16),
                modify_date: read_be32(block, 20),
                backup_date: read_be32(block, 24),
                checked_date: read_be32(block, 28),
                file_count: read_be32(block, 32),
                folder_count: read_be32(block, 36),
                block_size: read_be32(block, 40),
                total_blocks: read_be32(block, 44),
                free_blocks: read_be32(block, 48),
                catalog_file_extent: HfsPlusExtent {
                    start_block: read_be32(block, 128),
                    block_count: read_be32(block, 132),
                },
            },
        )
    }

    /// Parses the header at byte 1024 of the image and looks up the volume
    /// name.
    pub fn parse<R: SectorReader>(reader: &mut R) -> (r: Result<(Self, String), String>)
        requires
            old(reader).wf(),
        ensures
            final(reader).wf(),
            final(reader).image() == old(reader).image(),
            r is Ok <==> in_range(old(reader).image().len(), 1024, 512) && Self::signature_ok(
                old(reader).image().subrange(1024, 1536),
            ),
            r matches Ok((h, name)) ==> h == Self::of_bytes(old(reader).image().subrange(1024, 1536))
                && name@ == Self::name_of(old(reader).image(), h, 1024),
    {
        Self::parse_from_current_position(reader, 1024)
    }

    /// Parses the header at `position` and looks up the volume name in the
    /// catalog of the volume that begins 1024 bytes earlier. A name that
    /// cannot be found becomes the placeholder; the header is returned all
    /// the same.
    pub fn parse_from_current_position<R: SectorReader>(reader: &mut R, position: u64) -> (r: Result<
        (Self, String),
        String,
    >)
        requires
            old(reader).wf(),
        ensures
            final(reader).wf(),
            final(reader).image() == old(reader).image(),
            r is Ok <==> in_range(old(reader).image().len(), position as int, 512)
                && Self::signature_ok(old(reader).image().subrange(position as int, position + 512)),
            r matches Ok((h, name)) ==> h == Self::of_bytes(
                old(reader).image().subrange(position as int, position + 512),
            ) && name@ == Self::name_of(old(reader).image(), h, position as int),
    {
        let block = match reader.read_bytes(position, HFSPLUS_HEADER_SIZE) {
            Ok(v) => v,
            Err(_) => {
                return Err("Failed to read HFS+ header".to_owned());
            },
        };
        let header = match Self::parse_header(block.as_slice()) {
            Ok(h) => h,
            Err(e) => {
                return Err(e);
            },
        };
        let volume_start: u64 = if position >= 1024 {
            position - 1024
        } else {
            0
        };
        let name = match Self::extract_volume_name_from_catalog(reader, &header, volume_start) {
            Some(name) => name,
            None => "HFS+ Volume".to_owned(),
        };
        Ok((header, name))
    }

    /// Looks up the volume name in the catalog: the name of the thread
    /// record of the root folder.
    pub fn extract_volume_name_from_catalog<R: SectorReader>(
        reader: &mut R,
        header: &HfsPlusVolumeHeader,
        volume_start: u64,
    ) -> (r: Option<String>)
        requires
            old(reader).wf(),
        ensures
            final(reader).wf(),
            final(reader).image() == old(reader).image(),
            r is Some <==> catalog_volume_name(old(reader).image(), *header, volume_start as int)
                is Some,
            r matches Some(name) ==> Some(name@) == catalog_volume_name(
                old(reader).image(),
                *header,
                volume_start as int,
            ),
    {
        let ghost image = reader.image();
        proof {
            reader.image_fits();
        }
        if header.catalog_file_extent.start_block == 0 {
            return None;
        }
        assert(header.catalog_file_extent.start_block * header.block_size <= 0xffff_ffff
            * 0xffff_ffff) by (nonlinear_arith)
            requires
                header.catalog_file_extent.start_block <= 0xffff_ffff,
                header.block_size <= 0xffff_ffff,
        ;
        let span: u64 = header.catalog_file_extent.start_block as u64 * header.block_size as u64;
        let catalog_offset: u64 = match volume_start.checked_add(span) {
            Some(v) => v,
            None => {
                return None;
            },
        };
        let descriptor = match reader.read_bytes(catalog_offset, 14) {
            Ok(v) => v,
            Err(_) => {
                return None;
            },
        };
        if descriptor[8] != 1 {
            return None;
        }
        let record_offset: u64 = match catalog_offset.checked_add(14) {
            Some(v) => v,
            None => {
                return None;
            },
        };
        let record = match reader.read_bytes(record_offset, 106) {
            Ok(v) => v,
            Err(_) => {
                return None;
            },
        };
        let first_leaf: u32 = read_be32(record.as_slice(), 10);
        let node_size: u16 = read_be16(record.as_slice(), 18);
        if node_size == 0 || node_size > 32768 {
            return None;
        }
        let mut current: u32 = first_leaf;
        let mut attempts: u32 = 0;
        while current != 0 && attempts < MAX_NAME_NODES
            invariant
                attempts <= MAX_NAME_NODES,
                reader.wf(),
                reader.image() == image,
                image == old(reader).image(),
                catalog_volume_name(image, *header, volume_start as int) == scan_for_name(
                    image,
                    catalog_offset as int,
                    node_size as int,
                    current as int,
                    (MAX_NAME_NODES - attempts) as nat,
                ),
            decreases MAX_NAME_NODES - attempts,
        {
            attempts = attempts + 1;
            let node = match read_node(reader, catalog_offset, node_size, current) {
                Ok(v) => v,
                Err(_) => {
                    return None;
                },
            };
            let next: u32 = node_link(node.as_slice());
            if node_is_leaf(node.as_slice()) {
                let count: u16 = node_record_count(node.as_slice());
                match Self::search_node_for_volume_name(node.as_slice(), count, node_size) {
                    Some(name) => {
                        return Some(name);
                    },
                    None => {},
                }
            }
            current = next;
        }
        None
    }

    /// Searches the records of a leaf for the thread record of the root
    /// folder and returns its name.
    pub fn search_node_for_volume_name(node_data: &[u8], num_records: u16, node_size: u16) -> (r:
        Option<String>)
        ensures
            r is Some <==> first_thread_name(node_data@, node_size as int, 0, num_records as int)
                is Some,
            r matches Some(name) ==> Some(name@) == first_thread_name(
                node_data@,
                node_size as int,
                0,
                num_records as int,
            ),
    {
        let mut i: u16 = 0;
        while i < num_records
            invariant
                i <= num_records,
                first_thread_name(node_data@, node_size as int, 0, num_records as int)
                    == first_thread_name(node_data@, node_size as int, i as int, num_records as int),
            decreases num_records - i,
        {
            match Self::thread_name_at(node_data, node_size, i) {
                Some(name) => {
                    return Some(name);
                },
                None => {},
            }
            i = i + 1;
        }
        None
    }

    /// The name in record `i` of a leaf, if it is the root folder's.
    pub fn thread_name_at(node_data: &[u8], node_size: u16, i: u16) -> (r: Option<String>)
        ensures
            r is Some <==> thread_name(node_data@, node_size as int, i as int) is Some,
            r matches Some(name) ==> Some(name@) == thread_name(
                node_data@,
                node_size as int,
                i as int,
            ),
    {
        let len: usize = node_data.len();
        let at: usize = match record_start_at(node_data, node_size, i) {
            Some(v) => v,
            None => {
                return None;
            },
        };
        if at + 10 > len {
            return None;
        }
        let key_length: usize = read_be16(node_data, at) as usize;
        if key_length < 6 {
            return None;
        }
        if read_be32(node_data, at + 2) != HFSPLUS_ROOT_FOLDER_ID {
            return None;
        }
        if read_be16(node_data, at + 6) != 0 {
            return None;
        }
        let payload: usize = at + 2 + key_length;
        if payload + 10 > len {
            return None;
        }
        if read_be16(node_data, payload) != HFSPLUS_FOLDER_THREAD_RECORD {
            return None;
        }
        let count: usize = read_be16(node_data, payload + 8) as usize;
        if count == 0 || count > 255 {
            return None;
        }
        if payload + 10 + 2 * count > len {
            return None;
        }
        let units = read_units(node_data, payload + 10, count);
        match decode_utf16(units.as_slice()) {
            Some(name) => {
                let chars = chars_of(name.as_str());
                let trimmed = trim_chars(chars.as_slice());
                if trimmed.len() == 0 {
                    None
                } else {
                    Some(string_of(trimmed.as_slice()))
                }
            },
            None => None,
        }
    }

    /// Whether this looks like a valid volume header.
    pub fn is_valid(&self) -> (r: bool)
        ensures
            r == ((self.signature == 0x482B || self.signature == 0x4858) && self.block_size > 0
                && self.total_blocks > 0),
    {
        (self.signature == 0x482B || self.signature == 0x4858) && self.block_size > 0
            && self.total_blocks > 0
    }
}

} // verus!
