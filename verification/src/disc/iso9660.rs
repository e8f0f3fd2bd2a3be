//! The primary volume descriptor of ISO 9660.
//!
//! The descriptor is the logical sector 16 of the volume. It identifies the
//! volume by five fixed-width text fields, padded with spaces or NULs.

use vstd::prelude::*;
use crate::disc::browse::reader::{in_range, SectorReader};
use crate::text::trim::{trim_end, trim_end_chars, CharClass};
use crate::text::{chars_of, decode_utf8_lossy, latin1_text, lemma_lossy_text_ascii, lossy_text, string_of, all_ascii};
use vstd::slice::slice_subrange;

verus! {

/// ISO 9660 sector size in bytes.
pub const SECTOR_SIZE: u64 = 2048;

/// Sector that holds the primary volume descriptor.
pub const PVD_SECTOR: u64 = 16;

/// Byte offset of the primary volume descriptor.
pub const PVD_OFFSET: u64 = PVD_SECTOR * SECTOR_SIZE;

/// Descriptor type of a primary volume descriptor.
pub const PVD_TYPE: u8 = 1;

/// The standard identifier "CD001".
pub open spec fn standard_identifier() -> Seq<u8> {
    seq![0x43u8, 0x44u8, 0x30u8, 0x30u8, 0x31u8]
}

/// The text of the field `sector[from..to]`: decoded, without trailing
/// spaces and NULs.
pub open spec fn field_text(sector: Seq<u8>, from: int, to: int) -> Seq<char> {
    trim_end(lossy_text(sector.subrange(from, to)), CharClass::Padding)
}

/// The primary volume descriptor.
#[derive(Debug, Clone)]
pub struct PrimaryVolumeDescriptor {
    /// Volume identifier (32 bytes).
    pub volume_id: String,
    /// System identifier (32 bytes).
    pub system_id: String,
    /// Volume set identifier (128 bytes).
    pub volume_set_id: String,
    /// Publisher identifier (128 bytes).
    pub publisher_id: String,
    /// Application identifier (128 bytes).
    pub application_id: String,
}

impl PrimaryVolumeDescriptor {
    /// The sector is a primary volume descriptor: type 1, identifier
    /// "CD001", version 1.
    pub open spec fn sector_ok(sector: Seq<u8>) -> bool {
        &&& sector.len() >= 2048
        &&& sector[0] == 1
        &&& sector.subrange(1, 6) == standard_identifier()
        &&& sector[6] == 1
    }

    /// The sector holds exactly these fields.
    pub open spec fn holds(&self, sector: Seq<u8>) -> bool {
        &&& self.system_id@ == field_text(sector, 8, 40)
        &&& self.volume_id@ == field_text(sector, 40, 72)
        &&& self.volume_set_id@ == field_text(sector, 190, 318)
        &&& self.publisher_id@ == field_text(sector, 318, 446)
        &&& self.application_id@ == field_text(sector, 574, 702)
    }

    /// Reads sector 16 of the image and parses it.
    pub fn read_from<R: SectorReader>(reader: &mut R) -> (r: Result<Self, String>)
        requires
            old(reader).wf(),
        ensures
            final(reader).wf(),
            final(reader).image() == old(reader).image(),
            r is Ok <==> in_range(old(reader).image().len(), 32768, 2048) && Self::sector_ok(
                old(reader).image().subrange(32768, 34816),
            ),
            r matches Ok(pvd) ==> pvd.holds(old(reader).image().subrange(32768, 34816)),
    {
        match reader.read_bytes(PVD_OFFSET, 2048) {
            Ok(sector) => Self::parse(sector.as_slice()),
            Err(_) => Err("Failed to read PVD sector".to_owned()),
        }
    }

    /// Parses a primary volume descriptor from the bytes of its sector.
    pub fn parse(sector: &[u8]) -> (r: Result<Self, String>)
        ensures
            r is Ok <==> Self::sector_ok(sector@),
            r matches Ok(pvd) ==> pvd.holds(sector@),
    {
        if sector.len() < 2048 {
            return Err("Sector too small".to_owned());
        }
        if sector[0] != PVD_TYPE {
            return Err("Not a Primary Volume Descriptor".to_owned());
        }
        if !(sector[1] == 0x43 && sector[2] == 0x44 && sector[3] == 0x30 && sector[4] == 0x30
            && sector[5] == 0x31) {
            proof {
                let id = sector@.subrange(1, 6);
                assert(id[0] == sector@[1] && id[1] == sector@[2] && id[2] == sector@[3] && id[3]
                    == sector@[4] && id[4] == sector@[5]);
            }
            return Err("Invalid ISO 9660 identifier (expected 'CD001')".to_owned());
        }
        proof {
            assert(sector@.subrange(1, 6) =~= standard_identifier());
        }
        if sector[6] != 1 {
            return Err("Unsupported PVD version".to_owned());
        }
        let system_id = Self::extract_string(slice_subrange(sector, 8, 40));
        let volume_id = Self::extract_string(slice_subrange(sector, 40, 72));
        let volume_set_id = Self::extract_string(slice_subrange(sector, 190, 318));
        let publisher_id = Self::extract_string(slice_subrange(sector, 318, 446));
        let application_id = Self::extract_string(slice_subrange(sector, 574, 702));
        Ok(
            PrimaryVolumeDescriptor {
                volume_id,
                system_id,
                volume_set_id,
                publisher_id,
                application_id,
            },
        )
    }

    /// The text of a field: decoded, without trailing spaces and NULs.
    pub fn extract_string(bytes: &[u8]) -> (r: String)
        ensures
            r@ == trim_end(lossy_text(bytes@), CharClass::Padding),
    {
        let decoded = decode_utf8_lossy(bytes);
        let chars = chars_of(decoded.as_str());
        let trimmed = trim_end_chars(chars.as_slice(), CharClass::Padding);
        string_of(trimmed.as_slice())
    }
}

/// An image that holds a valid descriptor at sector 16 shows the bytes 1,
/// `C`, `D`, `0`, `0`, `1` at bytes 32768 to 32773: this is what a read of
/// that range from a cooked image returns.
pub proof fn lemma_descriptor_signature(image: Seq<u8>)
    requires
        in_range(image.len(), 32768, 2048),
        PrimaryVolumeDescriptor::sector_ok(image.subrange(32768, 34816)),
    ensures
        image.subrange(32768, 32774) == seq![1u8, 0x43u8, 0x44u8, 0x30u8, 0x30u8, 0x31u8],
{
    let sector = image.subrange(32768, 34816);
    let id = sector.subrange(1, 6);
    assert(id[0] == 0x43 && id[1] == 0x44 && id[2] == 0x30 && id[3] == 0x30 && id[4] == 0x31);
    assert(sector[0] == image[32768]);
    assert(id[0] == image[32769] && id[1] == image[32770] && id[2] == image[32771] && id[3]
        == image[32772] && id[4] == image[32773]);
    assert(image.subrange(32768, 32774) =~= seq![1u8, 0x43u8, 0x44u8, 0x30u8, 0x30u8, 0x31u8]);
}

/// Text that consists of padding alone trims to nothing.
pub proof fn lemma_trim_end_all_padding(s: Seq<char>)
    requires
        forall|i: int| 0 <= i < s.len() ==> #[trigger] s[i] == ' ' || s[i] == '\0',
    ensures
        trim_end(s, CharClass::Padding) == Seq::<char>::empty(),
    decreases s.len(),
{
    if s.len() > 0 {
        assert(s.last() == s[s.len() - 1]);
        lemma_trim_end_all_padding(s.drop_last());
    } else {
        assert(s =~= Seq::<char>::empty());
    }
}

/// Text that does not end in padding is left as it is.
pub proof fn lemma_trim_end_stops(s: Seq<char>, tail: Seq<char>)
    requires
        s.len() == 0 || (s.last() != ' ' && s.last() != '\0'),
        forall|i: int| 0 <= i < tail.len() ==> #[trigger] tail[i] == ' ' || tail[i] == '\0',
    ensures
        trim_end(s + tail, CharClass::Padding) == s,
    decreases tail.len(),
{
    if tail.len() == 0 {
        assert(s + tail =~= s);
    } else {
        assert((s + tail).last() == tail[tail.len() - 1]);
        assert((s + tail).drop_last() =~= s + tail.drop_last());
        lemma_trim_end_stops(s, tail.drop_last());
    }
}

/// A field of spaces and NULs alone is an empty text.
pub proof fn lemma_blank_field(sector: Seq<u8>, from: int, to: int)
    requires
        0 <= from <= to <= sector.len(),
        forall|i: int| from <= i < to ==> #[trigger] sector[i] == 0x20 || sector[i] == 0,
    ensures
        field_text(sector, from, to) == Seq::<char>::empty(),
{
    let field = sector.subrange(from, to);
    assert(all_ascii(field)) by {
        assert forall|i: int| 0 <= i < field.len() implies #[trigger] field[i] < 128 by {
            assert(field[i] == sector[from + i]);
        }
    }
    lemma_lossy_text_ascii(field);
    assert forall|i: int| 0 <= i < field.len() implies #[trigger] latin1_text(field)[i] == ' '
        || latin1_text(field)[i] == '\0' by {
        assert(field[i] == sector[from + i]);
    }
    lemma_trim_end_all_padding(latin1_text(field));
}

/// An ASCII field is its text up to the last byte that is no padding: the
/// bytes after it, all spaces or NULs, are stripped and nothing else is.
pub proof fn lemma_ascii_field(sector: Seq<u8>, from: int, to: int, end: int)
    requires
        0 <= from <= end <= to <= sector.len(),
        forall|i: int| from <= i < to ==> #[trigger] sector[i] < 128,
        forall|i: int| end <= i < to ==> #[trigger] sector[i] == 0x20 || sector[i] == 0,
        end == from || (sector[end - 1] != 0x20 && sector[end - 1] != 0),
    ensures
        field_text(sector, from, to) == latin1_text(sector.subrange(from, end)),
{
    let field = sector.subrange(from, to);
    assert(all_ascii(field)) by {
        assert forall|i: int| 0 <= i < field.len() implies #[trigger] field[i] < 128 by {
            assert(field[i] == sector[from + i]);
        }
    }
    lemma_lossy_text_ascii(field);
    let head = latin1_text(sector.subrange(from, end));
    let tail = latin1_text(sector.subrange(end, to));
    assert(latin1_text(field) =~= head + tail);
    assert forall|i: int| 0 <= i < tail.len() implies #[trigger] tail[i] == ' ' || tail[i]
        == '\0' by {
        assert(sector.subrange(end, to)[i] == sector[end + i]);
    }
    if end > from {
        assert(head.last() == sector[end - 1] as char);
    }
    lemma_trim_end_stops(head, tail);
}

} // verus!
