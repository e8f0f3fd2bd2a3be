//! What a probe of an image finds: the filesystem, its label and its
//! volume descriptor.

use vstd::prelude::*;
use crate::disc::browse::reader::{in_range, IsoSectorReader, SectorReader};
use crate::disc::formats::FilesystemType;
use crate::disc::hfs::MasterDirectoryBlock;
use crate::disc::hfsplus::HfsPlusVolumeHeader;
use crate::disc::iso9660::PrimaryVolumeDescriptor;
use crate::text::copy_bytes;

verus! {

/// The filesystem found on an image, with its label and descriptor.
#[derive(Debug, Clone)]
pub struct Detection {
    /// The kind of filesystem.
    pub filesystem: FilesystemType,
    /// The volume label, if the volume has one.
    pub volume_label: Option<String>,
    /// The primary volume descriptor, on ISO 9660.
    pub pvd: Option<PrimaryVolumeDescriptor>,
    /// The master directory block, on the classic filesystem.
    pub hfs_mdb: Option<MasterDirectoryBlock>,
    /// The volume header, on the extended filesystem.
    pub hfsplus_header: Option<HfsPlusVolumeHeader>,
}

/// The view of an optional label.
pub open spec fn label_text(label: Option<String>) -> Option<Seq<char>> {
    match label {
        Some(s) => Some(s@),
        None => None,
    }
}

/// A text as a label: none if it is empty.
pub open spec fn label_from(text: Seq<char>) -> Option<Seq<char>> {
    if text.len() == 0 {
        None
    } else {
        Some(text)
    }
}

/// Whether a header of the extended filesystem is valid.
pub open spec fn header_valid(h: HfsPlusVolumeHeader) -> bool {
    (h.signature == 0x482B || h.signature == 0x4858) && h.block_size > 0 && h.total_blocks > 0
}

/// The kind of hierarchical filesystem whose header the block at
/// `position` of an image is: the extended one if the block begins with
/// its signature and is a valid header; else the classic one if the block
/// parses as a master directory block with a name.
pub open spec fn hfs_kind_at(image: Seq<u8>, position: int) -> FilesystemType {
    if in_range(image.len(), position, 512) && HfsPlusVolumeHeader::signature_ok(
        image.subrange(position, position + 512),
    ) && header_valid(HfsPlusVolumeHeader::of_bytes(image.subrange(position, position + 512))) {
        FilesystemType::HfsPlus
    } else if in_range(image.len(), position, 162) && MasterDirectoryBlock::block_ok(
        image.subrange(position, position + 162),
    ) && MasterDirectoryBlock::name_of(image.subrange(position, position + 162)).len() > 0 {
        FilesystemType::Hfs
    } else {
        FilesystemType::Unknown
    }
}

impl Detection {
    /// This is the detection that finds nothing.
    pub open spec fn is_unknown(&self) -> bool {
        &&& self.filesystem == FilesystemType::Unknown
        &&& self.volume_label is None
        &&& self.pvd is None
        &&& self.hfs_mdb is None
        &&& self.hfsplus_header is None
    }

    /// This is the detection of the ISO 9660 volume whose descriptor is
    /// `sector`.
    pub open spec fn is_iso(&self, sector: Seq<u8>) -> bool {
        &&& self.filesystem == FilesystemType::Iso9660
        &&& self.pvd matches Some(pvd) && pvd.holds(sector) && label_text(self.volume_label)
            == label_from(pvd.volume_id@)
        &&& self.hfs_mdb is None
        &&& self.hfsplus_header is None
    }

    /// This is the detection of the classic volume whose master directory
    /// block is `block`.
    pub open spec fn is_hfs(&self, block: Seq<u8>) -> bool {
        &&& self.filesystem == FilesystemType::Hfs
        &&& self.hfs_mdb matches Some(mdb) && mdb.holds(block) && label_text(self.volume_label)
            == Some(mdb.volume_name@)
        &&& self.pvd is None
        &&& self.hfsplus_header is None
    }

    /// This is the detection of the extended volume whose header lies at
    /// `position` of `image`.
    pub open spec fn is_hfsplus(&self, image: Seq<u8>, position: int) -> bool {
        &&& self.filesystem == FilesystemType::HfsPlus
        &&& self.hfsplus_header == Some(
            HfsPlusVolumeHeader::of_bytes(image.subrange(position, position + 512)),
        )
        &&& label_text(self.volume_label) == Some(
            HfsPlusVolumeHeader::name_of(
                image,
                HfsPlusVolumeHeader::of_bytes(image.subrange(position, position + 512)),
                position,
            ),
        )
        &&& self.pvd is None
        &&& self.hfs_mdb is None
    }

    /// This is the detection of the hierarchical filesystem whose header
    /// lies at `position` of `image`, if there is one.
    pub open spec fn is_hfs_probe(&self, image: Seq<u8>, position: int) -> bool {
        match hfs_kind_at(image, position) {
            FilesystemType::HfsPlus => self.is_hfsplus(image, position),
            FilesystemType::Hfs => self.is_hfs(image.subrange(position, position + 162)),
            _ => self.is_unknown(),
        }
    }

    /// Nothing was found.
    pub fn unknown() -> (r: Self)
        ensures
            r.is_unknown(),
    {
        Detection {
            filesystem: FilesystemType::Unknown,
            volume_label: None,
            pvd: None,
            hfs_mdb: None,
            hfsplus_header: None,
        }
    }

    /// An ISO 9660 volume; its label is the volume identifier unless that
    /// is empty.
    pub fn iso(pvd: PrimaryVolumeDescriptor) -> (r: Self)
        ensures
            r.filesystem == FilesystemType::Iso9660,
            r.pvd == Some(pvd),
            label_text(r.volume_label) == label_from(pvd.volume_id@),
            r.hfs_mdb is None,
            r.hfsplus_header is None,
    {
        let volume_label: Option<String> = if pvd.volume_id.as_str().is_empty() {
            None
        } else {
            Some(pvd.volume_id.clone())
        };
        Detection {
            filesystem: FilesystemType::Iso9660,
            volume_label,
            pvd: Some(pvd),
            hfs_mdb: None,
            hfsplus_header: None,
        }
    }

    /// A classic volume; its label is the volume name.
    pub fn hfs(mdb: MasterDirectoryBlock) -> (r: Self)
        ensures
            r.filesystem == FilesystemType::Hfs,
            r.hfs_mdb == Some(mdb),
            label_text(r.volume_label) == Some(mdb.volume_name@),
            r.pvd is None,
            r.hfsplus_header is None,
    {
        let name = mdb.volume_name.clone();
        Detection {
            filesystem: FilesystemType::Hfs,
            volume_label: Some(name),
            pvd: None,
            hfs_mdb: Some(mdb),
            hfsplus_header: None,
        }
    }

    /// An extended volume with the given name.
    pub fn hfsplus(header: HfsPlusVolumeHeader, name: String) -> (r: Self)
        ensures
            r.filesystem == FilesystemType::HfsPlus,
            r.hfsplus_header == Some(header),
            label_text(r.volume_label) == Some(name@),
            r.pvd is None,
            r.hfs_mdb is None,
    {
        Detection {
            filesystem: FilesystemType::HfsPlus,
            volume_label: Some(name),
            pvd: None,
            hfs_mdb: None,
            hfsplus_header: Some(header),
        }
    }
}

/// Reads 2048 bytes at `offset` and parses them as a primary volume
/// descriptor.
pub fn probe_pvd<R: SectorReader>(reader: &mut R, offset: u64) -> (r: Option<PrimaryVolumeDescriptor>)
    requires
        old(reader).wf(),
    ensures
        final(reader).wf(),
        final(reader).image() == old(reader).image(),
        r is Some <==> pvd_at(old(reader).image(), offset as int),
        r matches Some(pvd) ==> pvd.holds(
            old(reader).image().subrange(offset as int, offset + 2048),
        ),
{
    match reader.read_bytes(offset, 2048) {
        Ok(sector) => match PrimaryVolumeDescriptor::parse(sector.as_slice()) {
            Ok(pvd) => Some(pvd),
            Err(_) => None,
        },
        Err(_) => None,
    }
}

/// A primary volume descriptor lies at `offset` of the image.
pub open spec fn pvd_at(image: Seq<u8>, offset: int) -> bool {
    in_range(image.len(), offset, 2048) && PrimaryVolumeDescriptor::sector_ok(
        image.subrange(offset, offset + 2048),
    )
}

/// Probes the header of a hierarchical filesystem at `position`: first the
/// extended one, whose name is looked up in the catalog of the image, then
/// the classic one.
pub fn probe_hfs_at<R: SectorReader>(reader: &mut R, position: u64) -> (r: Detection)
    requires
        old(reader).wf(),
    ensures
        final(reader).wf(),
        final(reader).image() == old(reader).image(),
        r.is_hfs_probe(old(reader).image(), position as int),
{
    match HfsPlusVolumeHeader::parse_from_current_position(reader, position) {
        Ok((header, name)) => {
            if header.is_valid() {
                return Detection::hfsplus(header, name);
            }
        },
        Err(_) => {},
    }
    match MasterDirectoryBlock::parse_from_current_position(reader, position) {
        Ok(mdb) => {
            if mdb.is_valid() {
                return Detection::hfs(mdb);
            }
        },
        Err(_) => {},
    }
    Detection::unknown()
}

/// Probes 512 bytes that were read from where a header should lie: the
/// block is looked at by itself, as an image of its own.
pub fn probe_hfs_block(block: &[u8]) -> (r: Detection)
    ensures
        r.is_hfs_probe(block@, 0),
{
    let copy = copy_bytes(block, 0, block.len());
    proof {
        assert(copy@ =~= block@);
    }
    let mut reader = IsoSectorReader::new(copy);
    probe_hfs_at(&mut reader, 0)
}

} // verus!
