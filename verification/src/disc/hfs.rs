//! The master directory block of the classic hierarchical filesystem.
//!
//! The block lies at byte 1024 of the volume and holds, among other fields,
//! the volume name as a Pascal string: a length byte and up to 27 bytes.

use vstd::prelude::*;
use crate::bytes::{be16, be32, read_be16, read_be32};
use crate::disc::browse::reader::{in_range, SectorReader};
use crate::text::trim::{trim, trim_chars, trim_end, trim_start, CharClass};
use crate::text::{
    all_ascii, chars_of, decode_utf8_lossy, is_space, latin1_text, lemma_lossy_text_ascii,
    lossy_text, message_with_hex, message_with_number, string_of,
};
use vstd::slice::slice_subrange;

verus! {

/// Signature of the classic filesystem: "BD".
pub const HFS_SIGNATURE: u16 = 0x4244;

/// Size of the master directory block in bytes.
pub const MDB_SIZE: usize = 162;

/// The master directory block.
#[derive(Debug, Clone)]
pub struct MasterDirectoryBlock {
    /// Volume signature (0x4244).
    pub signature: u16,
    /// Date and time of volume creation.
    pub create_date: u32,
    /// Date and time of last modification.
    pub modify_date: u32,
    /// Volume attributes.
    pub attributes: u16,
    /// Number of files in the root directory.
    pub root_file_count: u16,
    /// Number of directories in the root directory.
    pub root_dir_count: u16,
    /// Number of allocation blocks.
    pub alloc_blocks: u16,
    /// Size of an allocation block in bytes.
    pub alloc_block_size: u32,
    /// Volume name, 1 to 27 characters.
    pub volume_name: String,
}

impl MasterDirectoryBlock {
    /// The block can be parsed: it is long enough, has the signature, and
    /// its name is at most 27 bytes long.
    pub open spec fn block_ok(block: Seq<u8>) -> bool {
        block.len() >= 162 && be16(block, 0) == 0x4244 && block[36] <= 27
    }

    /// The volume name that a block holds: its Pascal string, decoded and
    /// without surrounding whitespace.
    pub open spec fn name_of(block: Seq<u8>) -> Seq<char> {
        trim(lossy_text(block.subrange(37, 37 + block[36])))
    }

    /// The block holds exactly these fields.
    pub open spec fn holds(&self, block: Seq<u8>) -> bool {
        &&& self.signature == be16(block, 0)
        &&& self.create_date == be32(block, 2)
        &&& self.modify_date == be32(block, 6)
        &&& self.attributes == be16(block, 10)
        &&& self.root_file_count == be16(block, 12)
        &&& self.root_dir_count == be16(block, 16)
        &&& self.alloc_blocks == be16(block, 18)
        &&& self.alloc_block_size == be32(block, 20)
        &&& self.volume_name@ == Self::name_of(block)
    }

    /// Whether this is a block of a valid classic volume.
    pub open spec fn valid(&self) -> bool {
        self.signature == 0x4244 && self.volume_name@.len() > 0
    }

    /// The fields of a master directory block, from its bytes.
    pub fn parse_block(block: &[u8]) -> (r: Result<Self, String>)
        ensures
            r is Ok <==> Self::block_ok(block@),
            r matches Ok(mdb) ==> mdb.holds(block@),
    {
        if block.len() < MDB_SIZE {
            return Err("Failed to read MDB".to_owned());
        }
        let signature: u16 = read_be16(block, 0);
        if signature != HFS_SIGNATURE {
            return Err(message_with_hex("Invalid HFS signature: ", signature));
        }
        let name_length: usize = block[36] as usize;
        if name_length > 27 {
            return Err(message_with_number("Invalid volume name length: ", name_length as u64));
        }
        let decoded = decode_utf8_lossy(slice_subrange(block, 37, 37 + name_length));
        let chars = chars_of(decoded.as_str());
        let trimmed = trim_chars(chars.as_slice());
        Ok(
            MasterDirectoryBlock {
                signature,
                create_date: read_be32(block, 2),
                modify_date: read_be32(block, 6),
                attributes: read_be16(block, 10),
                root_file_count: read_be16(block, 12),
                root_dir_count: read_be16(block, 16),
                alloc_blocks: read_be16(block, 18),
                alloc_block_size: read_be32(block, 20),
                volume_name: string_of(trimmed.as_slice()),
            },
        )
    }

    /// Parses the block at byte 1024 of the image.
    pub fn parse<R: SectorReader>(reader: &mut R) -> (r: Result<Self, String>)
        requires
            old(reader).wf(),
        ensures
            final(reader).wf(),
            final(reader).image() == old(reader).image(),
            r is Ok <==> in_range(old(reader).image().len(), 1024, 162) && Self::block_ok(
                old(reader).image().subrange(1024, 1186),
            ),
            r matches Ok(mdb) ==> mdb.holds(old(reader).image().subrange(1024, 1186)),
    {
        Self::parse_from_current_position(reader, 1024)
    }

    /// Parses the block that begins at `position`.
    pub fn parse_from_current_position<R: SectorReader>(reader: &mut R, position: u64) -> (r: Result<
        Self,
        String,
    >)
        requires
            old(reader).wf(),
        ensures
            final(reader).wf(),
            final(reader).image() == old(reader).image(),
            r is Ok <==> in_range(old(reader).image().len(), position as int, 162) && Self::block_ok(
                old(reader).image().subrange(position as int, position + 162),
            ),
            r matches Ok(mdb) ==> mdb.holds(
                old(reader).image().subrange(position as int, position + 162),
            ),
    {
        match reader.read_bytes(position, MDB_SIZE) {
            Ok(block) => Self::parse_block(block.as_slice()),
            Err(_) => Err("Failed to read MDB".to_owned()),
        }
    }

    /// Whether this looks like a valid block: the signature matches and the
    /// volume has a name.
    pub fn is_valid(&self) -> (r: bool)
        ensures
            r == self.valid(),
    {
        self.signature == HFS_SIGNATURE && !self.volume_name.as_str().is_empty()
    }
}

/// A volume name of ASCII characters that neither begins nor ends with
/// white space is parsed as it stands: its characters are those of the
/// Pascal string, as many as its length byte says.
pub proof fn lemma_plain_name(block: Seq<u8>)
    requires
        block.len() >= 162,
        0 < block[36] <= 27,
        forall|i: int| 37 <= i < 37 + block[36] ==> #[trigger] block[i] < 128,
        !is_space(block[37] as char),
        !is_space(block[37 + block[36] - 1] as char),
    ensures
        MasterDirectoryBlock::name_of(block) == latin1_text(block.subrange(37, 37 + block[36])),
        MasterDirectoryBlock::name_of(block).len() == block[36],
{
    let bytes = block.subrange(37, 37 + block[36]);
    let text = latin1_text(bytes);
    assert(all_ascii(bytes)) by {
        assert forall|i: int| 0 <= i < bytes.len() implies #[trigger] bytes[i] < 128 by {
            assert(bytes[i] == block[37 + i]);
        }
    }
    lemma_lossy_text_ascii(bytes);
    assert(text.last() == block[37 + block[36] - 1] as char);
    assert(text.first() == block[37] as char);
    assert(trim_end(text, CharClass::Space) == text);
    assert(trim_start(text, CharClass::Space) == text);
}

} // verus!
