//! The disc-info record and the orchestrator that builds it.

use vstd::prelude::*;
use crate::disc::apm::{find_hfs_partition_offset, hfs_partition_offset};
use crate::disc::bincue::{BinCueError, BinCueInfo};
use crate::disc::browse::reader::SectorReader;
use crate::disc::chd::{ChdError, ChdInfo};
use crate::disc::detect::{hfs_kind_at, label_text, probe_hfs_at, probe_pvd, pvd_at, Detection};
use crate::disc::formats::{DiscFormat, FilesystemType};
use crate::disc::identifier::{normalize_volume_label, normalized_label, parse_filename, stem_of};
use crate::disc::iso9660::standard_identifier;
use crate::paths::{extension_of, path_extension};
use crate::text::chars_of;
use crate::text::search::{contains_in, contains_sub};
use crate::text::number::all_digits;
use crate::disc::hfs::MasterDirectoryBlock;
use crate::disc::hfsplus::HfsPlusVolumeHeader;
use crate::disc::identifier::{ConfidenceLevel, ParsedFilename};
use crate::disc::iso9660::PrimaryVolumeDescriptor;
use crate::disc::toc::DiscTOC;
use crate::paths::{no_separator, path_with_extension, with_extension};

verus! {

/// Errors of reading a disc image.
#[derive(Debug)]
pub enum DiscError {
    /// The file does not exist.
    FileNotFound(String),
    /// The extension names no supported format.
    UnsupportedFormat(String),
    /// A read failed.
    IoError(String),
    /// A structure could not be parsed.
    ParseError(String),
    /// A compressed-hunk image could not be read.
    ChdError(String),
}

impl DiscError {
    /// The text of the message: what went wrong, then the detail.
    pub open spec fn message_text(self) -> Seq<char> {
        match self {
            DiscError::FileNotFound(s) => "File not found: "@ + s@,
            DiscError::UnsupportedFormat(s) => "Unsupported format: "@ + s@,
            DiscError::IoError(s) => "IO error: "@ + s@,
            DiscError::ParseError(s) => "Parse error: "@ + s@,
            DiscError::ChdError(s) => "CHD error: "@ + s@,
        }
    }

    /// The message of the error, as it is shown to a user.
    pub fn message(&self) -> (r: String)
        ensures
            r@ == self.message_text(),
    {
        match self {
            DiscError::FileNotFound(s) => crate::text::concat2("File not found: ", s.as_str()),
            DiscError::UnsupportedFormat(s) => crate::text::concat2(
                "Unsupported format: ",
                s.as_str(),
            ),
            DiscError::IoError(s) => crate::text::concat2("IO error: ", s.as_str()),
            DiscError::ParseError(s) => crate::text::concat2("Parse error: ", s.as_str()),
            DiscError::ChdError(s) => crate::text::concat2("CHD error: ", s.as_str()),
        }
    }
}

/// What is known about a disc image.
#[derive(Debug, Clone)]
pub struct DiscInfo {
    /// Path of the image file.
    pub path: String,
    /// Format of the image.
    pub format: DiscFormat,
    /// Filesystem found on the image.
    pub filesystem: FilesystemType,
    /// Volume label, if one was found.
    pub volume_label: Option<String>,
    /// What the file name says.
    pub parsed_filename: ParsedFilename,
    /// Best guess at the title.
    pub title: String,
    /// How sure the identification is.
    pub confidence: ConfidenceLevel,
    /// Primary volume descriptor, on ISO 9660.
    pub pvd: Option<PrimaryVolumeDescriptor>,
    /// Table of contents, on discs with audio tracks.
    pub toc: Option<DiscTOC>,
    /// Master directory block, on the classic filesystem.
    pub hfs_mdb: Option<MasterDirectoryBlock>,
    /// Volume header, on the extended filesystem.
    pub hfsplus_header: Option<HfsPlusVolumeHeader>,
}

impl DiscInfo {
    /// The path of the cover art: the path of the image with the extension
    /// `jpg`.
    pub fn cover_art_path(&self) -> (r: String)
        ensures
            r@ == path_with_extension(self.path@, "jpg"@),
    {
        proof {
            reveal_strlit("jpg");
            assert(no_separator("jpg"@));
        }
        with_extension(self.path.as_str(), "jpg")
    }
}

/// The structure that the first bytes of an image show.
#[derive(Debug, Clone, Copy, PartialEq, Eq, Structural)]
pub enum DiscStructure {
    /// An ISO 9660 volume.
    Iso9660,
    /// An Apple partition map.
    ApplePartitionMap,
    /// A hierarchical filesystem without a partition map.
    HfsDirectly,
    /// Nothing that is known.
    Unknown,
}

/// What of a disc image the caller has read for the orchestrator.
pub enum DiscSource<R: SectorReader> {
    /// The file does not exist.
    Missing,
    /// A reader of a single-file image.
    Image(R),
    /// What the track sheet of a track-sheet image gave; none if no sheet
    /// was found beside the binary file.
    TrackSheet(Option<Result<BinCueInfo, BinCueError>>),
    /// What a compressed-hunk image gave.
    Hunks(Result<ChdInfo, ChdError>),
    /// The file exists and nothing of it was read.
    Unread,
}

/// Reader of disc images.
pub struct DiscReader;

/// Whether a path names a track sheet: its extension, in lower case, is
/// `cue`.
pub open spec fn names_sheet(path: Seq<char>) -> bool {
    match crate::paths::path_extension(path) {
        Some(e) => crate::text::lowercase_text(e) == "cue"@,
        None => false,
    }
}

/// The places of the track sheet of an image: the path itself if it names
/// a sheet, else the path with the extension `cue` and then `CUE`.
pub open spec fn cue_candidates(path: Seq<char>) -> Seq<Seq<char>> {
    if names_sheet(path) {
        seq![path]
    } else {
        seq![path_with_extension(path, "cue"@), path_with_extension(path, "CUE"@)]
    }
}

/// The structure of an image, by the signatures in its first 64 KiB, in
/// this order: a partition map at byte 0, a classic or extended
/// hierarchical filesystem at byte 1024, an ISO 9660 volume descriptor at
/// byte 32768. An image shorter than one sector has no structure.
pub open spec fn structure_of(image: Seq<u8>) -> DiscStructure {
    if image.len() < 2048 {
        DiscStructure::Unknown
    } else if image[0] == 0x45 && image[1] == 0x52 {
        DiscStructure::ApplePartitionMap
    } else if image[1024] == 0x42 && image[1025] == 0x44 {
        DiscStructure::HfsDirectly
    } else if image[1024] == 0x48 && (image[1025] == 0x2B || image[1025] == 0x58) {
        DiscStructure::HfsDirectly
    } else if image.len() >= 32774 && image[32768] == 1 && image.subrange(32769, 32774)
        == standard_identifier() {
        DiscStructure::Iso9660
    } else {
        DiscStructure::Unknown
    }
}

/// Whether a volume label can serve as a title: it is longer than two
/// bytes and does not consist of digits alone.
pub open spec fn label_usable(label: Seq<char>) -> bool {
    vstd::utf8::encode_utf8(label).len() > 2 && !all_digits(label)
}

/// The title and the confidence of an identification: a usable label
/// gives the title with high confidence; the metadata of the container,
/// where there is no label, give it with medium confidence; else the file
/// name gives it with low confidence.
pub open spec fn identified(
    label: Option<Seq<char>>,
    metadata: Option<Seq<char>>,
    parsed_title: Seq<char>,
) -> (Seq<char>, ConfidenceLevel) {
    match label {
        Some(text) => if label_usable(text) {
            (normalized_label(text), ConfidenceLevel::High)
        } else {
            (parsed_title, ConfidenceLevel::Low)
        },
        None => match metadata {
            Some(meta) => (meta, ConfidenceLevel::Medium),
            None => (parsed_title, ConfidenceLevel::Low),
        },
    }
}

/// The offset at which the header of a hierarchical filesystem is probed:
/// 1024 bytes into the partition that the map names, or into the image.
pub open spec fn hfs_header_offset(image: Seq<u8>) -> int {
    match hfs_partition_offset(image) {
        Some(offset) => offset + 1024,
        None => 1024,
    }
}

/// This detection is what a single-file image holds, going by its
/// structure. A structure that does not parse gives nothing.
pub open spec fn iso_detected(d: Detection, image: Seq<u8>) -> bool {
    match structure_of(image) {
        DiscStructure::Iso9660 => if pvd_at(image, 32768) {
            d.is_iso(image.subrange(32768, 34816))
        } else {
            d.is_unknown()
        },
        DiscStructure::ApplePartitionMap => if hfs_header_offset(image) <= u64::MAX {
            d.is_hfs_probe(image, hfs_header_offset(image))
        } else {
            d.is_unknown()
        },
        DiscStructure::HfsDirectly => d.is_hfs_probe(image, 1024),
        DiscStructure::Unknown => d.is_unknown(),
    }
}

/// Whether the message of an error speaks of the structure of a disc: it
/// holds "Primary Volume Descriptor", "HFS" or "Parse error".
pub open spec fn structure_error(message: Seq<char>) -> bool {
    contains_sub(message, "Primary Volume Descriptor"@) || contains_sub(message, "HFS"@)
        || contains_sub(message, "Parse error"@)
}

impl DiscInfo {
    /// The invariant of a record: the confidence is high only if a usable
    /// label was found, and medium only if no label was found.
    pub open spec fn consistent(&self) -> bool {
        &&& self.confidence == ConfidenceLevel::High ==> (self.volume_label matches Some(l)
            && label_usable(l@))
        &&& self.confidence == ConfidenceLevel::Medium ==> self.volume_label is None
    }

    /// This record carries what the detection found.
    pub open spec fn carries(&self, d: Detection) -> bool {
        &&& self.filesystem == d.filesystem
        &&& self.volume_label == d.volume_label
        &&& self.pvd == d.pvd
        &&& self.hfs_mdb == d.hfs_mdb
        &&& self.hfsplus_header == d.hfsplus_header
    }

    /// This record holds what a single-file image with the given bytes
    /// shows: what the detection on the image finds, no table of contents,
    /// and the title and confidence that follow from the label found.
    pub open spec fn holds_image(&self, image: Seq<u8>) -> bool {
        &&& self.toc is None
        &&& exists|d: Detection|
            iso_detected(d, image) && self.carries(d) && (self.title@, self.confidence)
                == identified(label_text(d.volume_label), None, self.parsed_filename.title@)
    }

    /// This record holds what was found out about a compressed-hunk
    /// image; where the image could not be read, no more than the file
    /// name says.
    pub open spec fn holds_hunks(&self, path: Seq<char>, found: Result<ChdInfo, ChdError>) -> bool {
        match found {
            Ok(info) => self.filesystem == info.filesystem && self.volume_label
                == info.volume_label && self.pvd == info.pvd && self.toc == info.toc
                && self.hfs_mdb == info.hfs_mdb && self.hfsplus_header == info.hfsplus_header && (
            self.title@,
            self.confidence,
            ) == identified(
                label_text(info.volume_label),
                label_text(info.metadata),
                self.parsed_filename.title@,
            ),
            Err(_) => self.from_name_alone(path, DiscFormat::Chd),
        }
    }

    /// This record holds what was found out about a track-sheet image;
    /// where no sheet was found or the image could not be read, no more
    /// than the file name says.
    pub open spec fn holds_sheet(
        &self,
        path: Seq<char>,
        found: Option<Result<BinCueInfo, BinCueError>>,
    ) -> bool {
        match found {
            Some(Ok(info)) => self.filesystem == info.filesystem && self.volume_label
                == info.volume_label && self.pvd == info.pvd && self.toc == info.toc
                && self.hfs_mdb == info.hfs_mdb && self.hfsplus_header == info.hfsplus_header && (
            self.title@,
            self.confidence,
            ) == identified(label_text(info.volume_label), None, self.parsed_filename.title@),
            _ => self.from_name_alone(path, DiscFormat::BinCue),
        }
    }

    /// This record says no more than the file name does.
    pub open spec fn from_name_alone(&self, path: Seq<char>, format: DiscFormat) -> bool {
        &&& self.path@ == path
        &&& self.format == format
        &&& self.filesystem == FilesystemType::Unknown
        &&& self.volume_label is None
        &&& self.parsed_filename.describes(stem_of(path))
        &&& self.title@ == self.parsed_filename.title@
        &&& self.confidence == ConfidenceLevel::Low
        &&& self.pvd is None
        &&& self.toc is None
        &&& self.hfs_mdb is None
        &&& self.hfsplus_header is None
    }
}

impl DiscReader {
    /// Decides whether a label can serve as a title.
    pub fn label_is_usable(label: &str) -> (r: bool)
        ensures
            r == label_usable(label@),
    {
        let bytes = label.as_bytes();
        if bytes.len() <= 2 {
            return false;
        }
        let chars = chars_of(label);
        let mut i: usize = 0;
        while i < chars.len()
            invariant
                i <= chars@.len(),
                chars@ == label@,
                vstd::utf8::encode_utf8(label@).len() > 2,
                forall|k: int| 0 <= k < i ==> crate::text::number::is_digit(#[trigger] chars@[k]),
            decreases chars@.len() - i,
        {
            let c: char = chars[i];
            if !('0' <= c && c <= '9') {
                proof {
                    assert(!crate::text::number::is_digit(chars@[i as int]));
                }
                return true;
            }
            i = i + 1;
        }
        false
    }

    /// The title and the confidence of an identification.
    pub fn identify(label: &Option<String>, metadata: &Option<String>, parsed_title: &str) -> (r: (
        String,
        ConfidenceLevel,
    ))
        ensures
            (r.0@, r.1) == identified(label_text(*label), label_text(*metadata), parsed_title@),
    {
        match label {
            Some(text) => {
                if Self::label_is_usable(text.as_str()) {
                    (normalize_volume_label(text.as_str()), ConfidenceLevel::High)
                } else {
                    (parsed_title.to_owned(), ConfidenceLevel::Low)
                }
            },
            None => match metadata {
                Some(meta) => (meta.clone(), ConfidenceLevel::Medium),
                None => (parsed_title.to_owned(), ConfidenceLevel::Low),
            },
        }
    }

    /// The record of a disc about which nothing but its file name is known.
    pub fn from_filename(path: &str, format: DiscFormat, parsed_filename: ParsedFilename) -> (r:
        DiscInfo)
        requires
            parsed_filename.describes(stem_of(path@)),
        ensures
            r.from_name_alone(path@, format),
            r.parsed_filename == parsed_filename,
            r.consistent(),
    {
        let title = parsed_filename.title.clone();
        DiscInfo {
            path: path.to_owned(),
            format,
            filesystem: FilesystemType::Unknown,
            volume_label: None,
            parsed_filename,
            title,
            confidence: ConfidenceLevel::Low,
            pvd: None,
            toc: None,
            hfs_mdb: None,
            hfsplus_header: None,
        }
    }

    /// The record that stands in for a disc whose structure could not be
    /// read: what the file name says, where the message of the error
    /// speaks of the structure; an image whose extension names no format
    /// counts as a single-file image. Other errors give none.
    pub fn recover(path: &str, error: &DiscError) -> (r: Option<DiscInfo>)
        ensures
            r is Some <==> structure_error(error.message_text()),
            r matches Some(info) ==> info.consistent() && info.from_name_alone(
                path@,
                match DiscFormat::of_path(path@) {
                    Some(format) => format,
                    None => DiscFormat::Iso,
                },
            ),
    {
        let message = chars_of(error.message().as_str());
        let structural: bool = contains_in(
            message.as_slice(),
            chars_of("Primary Volume Descriptor").as_slice(),
        ) || contains_in(message.as_slice(), chars_of("HFS").as_slice()) || contains_in(
            message.as_slice(),
            chars_of("Parse error").as_slice(),
        );
        if !structural {
            return None;
        }
        let format = match DiscFormat::from_path(path) {
            Some(format) => format,
            None => DiscFormat::Iso,
        };
        Some(Self::from_filename(path, format, parse_filename(path)))
    }

    /// The record of a disc on which the given filesystem was found.
    pub fn from_detection(
        path: &str,
        format: DiscFormat,
        parsed_filename: ParsedFilename,
        detection: Detection,
        metadata: &Option<String>,
        toc: Option<DiscTOC>,
    ) -> (r: DiscInfo)
        ensures
            r.path@ == path@,
            r.format == format,
            r.parsed_filename == parsed_filename,
            r.carries(detection),
            r.toc == toc,
            (r.title@, r.confidence) == identified(
                label_text(detection.volume_label),
                label_text(*metadata),
                parsed_filename.title@,
            ),
            r.consistent(),
    {
        let (title, confidence) = Self::identify(
            &detection.volume_label,
            metadata,
            parsed_filename.title.as_str(),
        );
        DiscInfo {
            path: path.to_owned(),
            format,
            filesystem: detection.filesystem,
            volume_label: detection.volume_label,
            parsed_filename,
            title,
            confidence,
            pvd: detection.pvd,
            toc,
            hfs_mdb: detection.hfs_mdb,
            hfsplus_header: detection.hfsplus_header,
        }
    }

    /// Reads what is known about the disc image at `path`. A file that
    /// does not exist and an extension that names no format are errors;
    /// everything else gives a record, at worst one from the file name
    /// alone.
    pub fn read<R: SectorReader>(path: &str, source: DiscSource<R>) -> (r: Result<DiscInfo, DiscError>)
        requires
            source is Image ==> source->Image_0.wf(),
        ensures
            source is Missing ==> (r matches Err(DiscError::FileNotFound(p)) && p@ == path@),
            !(source is Missing) && DiscFormat::of_path(path@) is None ==> r matches Err(
                DiscError::UnsupportedFormat(_),
            ),
            !(source is Missing) && DiscFormat::of_path(path@) is Some ==> (r is Err <==> (
            DiscFormat::of_path(path@) == Some(DiscFormat::Iso) && !(source is Image))),
            !(source is Missing) && DiscFormat::of_path(path@) is Some ==> match r {
                Ok(info) => {
                    &&& info.format == DiscFormat::of_path(path@)->0
                    &&& info.path@ == path@
                    &&& info.parsed_filename.describes(stem_of(path@))
                    &&& info.consistent()
                    &&& match info.format {
                        DiscFormat::Iso => source is Image && info.holds_image(
                            source->Image_0.image(),
                        ),
                        DiscFormat::Chd => match source {
                            DiscSource::Hunks(found) => info.holds_hunks(path@, found),
                            _ => info.from_name_alone(path@, DiscFormat::Chd),
                        },
                        DiscFormat::BinCue => match source {
                            DiscSource::TrackSheet(found) => info.holds_sheet(path@, found),
                            _ => info.from_name_alone(path@, DiscFormat::BinCue),
                        },
                        DiscFormat::MdsMdf => info.from_name_alone(path@, DiscFormat::MdsMdf),
                    }
                },
                Err(e) => e is IoError,
            },
    {
        match source {
            DiscSource::Missing => {
                return Err(DiscError::FileNotFound(path.to_owned()));
            },
            _ => {},
        }
        let format = match DiscFormat::from_path(path) {
            Some(f) => f,
            None => {
                let extension: String = match extension_of(path) {
                    Some(e) => e,
                    None => "unknown".to_owned(),
                };
                return Err(DiscError::UnsupportedFormat(extension));
            },
        };
        let parsed_filename = parse_filename(path);
        match format {
            DiscFormat::Iso => match source {
                DiscSource::Image(reader) => {
                    let mut reader = reader;
                    Ok(Self::read_iso(path, parsed_filename, &mut reader))
                },
                _ => Err(DiscError::IoError("the image could not be opened".to_owned())),
            },
            DiscFormat::Chd => match source {
                DiscSource::Hunks(found) => Ok(Self::read_chd(path, parsed_filename, found)),
                _ => Ok(Self::from_filename(path, DiscFormat::Chd, parsed_filename)),
            },
            DiscFormat::BinCue => match source {
                DiscSource::TrackSheet(found) => Ok(Self::read_bin_cue(path, parsed_filename, found)),
                _ => Ok(Self::from_filename(path, DiscFormat::BinCue, parsed_filename)),
            },
            DiscFormat::MdsMdf => Ok(Self::read_mds_mdf(path, parsed_filename)),
        }
    }

    /// Reads a single-file image: the structure is found from the
    /// signatures, and the filesystem that it names is parsed.
    pub fn read_iso<R: SectorReader>(path: &str, parsed_filename: ParsedFilename, reader: &mut R) -> (r:
        DiscInfo)
        requires
            old(reader).wf(),
        ensures
            final(reader).wf(),
            final(reader).image() == old(reader).image(),
            r.path@ == path@,
            r.format == DiscFormat::Iso,
            r.parsed_filename == parsed_filename,
            r.consistent(),
            r.holds_image(old(reader).image()),
    {
        let structure = Self::detect_disc_structure(reader);
        let detection: Detection = match structure {
            DiscStructure::Iso9660 => match probe_pvd(reader, 32768) {
                Some(pvd) => Detection::iso(pvd),
                None => Detection::unknown(),
            },
            DiscStructure::ApplePartitionMap => match Self::try_hfs_detection(reader) {
                Ok(found) => found,
                Err(_) => Detection::unknown(),
            },
            DiscStructure::HfsDirectly => probe_hfs_at(reader, 1024),
            DiscStructure::Unknown => Detection::unknown(),
        };
        let ghost found = detection;
        let none: Option<String> = None;
        let info = Self::from_detection(path, DiscFormat::Iso, parsed_filename, detection, &none, None);
        proof {
            assert(iso_detected(found, old(reader).image()) && info.carries(found));
        }
        info
    }

    /// Finds the structure of an image from the signatures in its first
    /// 64 KiB.
    pub fn detect_disc_structure<R: SectorReader>(reader: &mut R) -> (r: DiscStructure)
        requires
            old(reader).wf(),
        ensures
            final(reader).wf(),
            final(reader).image() == old(reader).image(),
            r == structure_of(old(reader).image()),
    {
        let ghost image = reader.image();
        let head = match reader.read_bytes(0, 2048) {
            Ok(v) => v,
            Err(_) => {
                return DiscStructure::Unknown;
            },
        };
        if head[0] == 0x45 && head[1] == 0x52 {
            return DiscStructure::ApplePartitionMap;
        }
        if head[1024] == 0x42 && head[1025] == 0x44 {
            return DiscStructure::HfsDirectly;
        }
        if head[1024] == 0x48 && (head[1025] == 0x2B || head[1025] == 0x58) {
            return DiscStructure::HfsDirectly;
        }
        match reader.read_bytes(32768, 6) {
            Ok(sign) => {
                if sign[0] == 1 && sign[1] == 0x43 && sign[2] == 0x44 && sign[3] == 0x30 && sign[4]
                    == 0x30 && sign[5] == 0x31 {
                    proof {
                        assert(image.subrange(32769, 32774) =~= standard_identifier());
                    }
                    DiscStructure::Iso9660
                } else {
                    proof {
                        let id = image.subrange(32769, 32774);
                        assert(id[0] == sign@[1] && id[1] == sign@[2] && id[2] == sign@[3] && id[3]
                            == sign@[4] && id[4] == sign@[5]);
                    }
                    DiscStructure::Unknown
                }
            },
            Err(_) => DiscStructure::Unknown,
        }
    }

    /// Looks for a hierarchical filesystem: in the partition that the
    /// partition map names, or at the start of the image if there is no
    /// map.
    pub fn try_hfs_detection<R: SectorReader>(reader: &mut R) -> (r: Result<Detection, String>)
        requires
            old(reader).wf(),
        ensures
            final(reader).wf(),
            final(reader).image() == old(reader).image(),
            match r {
                Ok(d) => hfs_header_offset(old(reader).image()) <= u64::MAX && d.is_hfs_probe(
                    old(reader).image(),
                    hfs_header_offset(old(reader).image()),
                ) && d.filesystem != FilesystemType::Unknown,
                Err(_) => hfs_header_offset(old(reader).image()) > u64::MAX || hfs_kind_at(
                    old(reader).image(),
                    hfs_header_offset(old(reader).image()),
                ) == FilesystemType::Unknown,
            },
    {
        let partition: u64 = match find_hfs_partition_offset(reader) {
            Ok(v) => v,
            Err(_) => 0,
        };
        let header: u64 = match partition.checked_add(1024) {
            Some(v) => v,
            None => {
                return Err("No HFS/HFS+ filesystem detected".to_owned());
            },
        };
        let found = probe_hfs_at(reader, header);
        match found.filesystem {
            FilesystemType::Unknown => Err("No HFS/HFS+ filesystem detected".to_owned()),
            _ => Ok(found),
        }
    }

    /// The record of a compressed-hunk image: what the image gave, or the
    /// file name alone if it could not be read.
    pub fn read_chd(path: &str, parsed_filename: ParsedFilename, found: Result<ChdInfo, ChdError>) -> (r:
        DiscInfo)
        requires
            parsed_filename.describes(stem_of(path@)),
        ensures
            r.path@ == path@,
            r.format == DiscFormat::Chd,
            r.parsed_filename == parsed_filename,
            r.consistent(),
            r.holds_hunks(path@, found),
    {
        match found {
            Ok(info) => {
                let detection = Detection {
                    filesystem: info.filesystem,
                    volume_label: info.volume_label,
                    pvd: info.pvd,
                    hfs_mdb: info.hfs_mdb,
                    hfsplus_header: info.hfsplus_header,
                };
                Self::from_detection(
                    path,
                    DiscFormat::Chd,
                    parsed_filename,
                    detection,
                    &info.metadata,
                    info.toc,
                )
            },
            Err(_) => Self::from_filename(path, DiscFormat::Chd, parsed_filename),
        }
    }

    /// The record of a track-sheet image: what the sheet and the binary
    /// file gave, or the file name alone if no sheet was found or the
    /// image could not be read.
    pub fn read_bin_cue(
        path: &str,
        parsed_filename: ParsedFilename,
        found: Option<Result<BinCueInfo, BinCueError>>,
    ) -> (r: DiscInfo)
        requires
            parsed_filename.describes(stem_of(path@)),
        ensures
            r.path@ == path@,
            r.format == DiscFormat::BinCue,
            r.parsed_filename == parsed_filename,
            r.consistent(),
            r.holds_sheet(path@, found),
    {
        match found {
            Some(Ok(info)) => {
                let detection = Detection {
                    filesystem: info.filesystem,
                    volume_label: info.volume_label,
                    pvd: info.pvd,
                    hfs_mdb: info.hfs_mdb,
                    hfsplus_header: info.hfsplus_header,
                };
                let none: Option<String> = None;
                Self::from_detection(
                    path,
                    DiscFormat::BinCue,
                    parsed_filename,
                    detection,
                    &none,
                    info.toc,
                )
            },
            _ => Self::from_filename(path, DiscFormat::BinCue, parsed_filename),
        }
    }

    /// The record of a media-descriptor image: such images are not read,
    /// and the file name alone identifies them.
    pub fn read_mds_mdf(path: &str, parsed_filename: ParsedFilename) -> (r: DiscInfo)
        requires
            parsed_filename.describes(stem_of(path@)),
        ensures
            r.from_name_alone(path@, DiscFormat::MdsMdf),
            r.parsed_filename == parsed_filename,
            r.consistent(),
    {
        Self::from_filename(path, DiscFormat::MdsMdf, parsed_filename)
    }

    /// The paths at which the track sheet of a binary file is looked for:
    /// the path itself if it is a sheet, else the path with the extension
    /// `cue` and then `CUE`.
    pub fn cue_path_candidates(path: &str) -> (r: Vec<String>)
        ensures
            crate::text::string_views(r@) == cue_candidates(path@),
    {
        let mut out: Vec<String> = Vec::new();
        let is_cue: bool = match extension_of(path) {
            Some(e) => {
                let lower = crate::text::to_lowercase(e.as_str());
                crate::text::str_eq(lower.as_str(), "cue")
            },
            None => false,
        };
        if is_cue {
            out.push(path.to_owned());
        } else {
            proof {
                reveal_strlit("cue");
                reveal_strlit("CUE");
                assert(no_separator("cue"@));
                assert(no_separator("CUE"@));
            }
            out.push(with_extension(path, "cue"));
            out.push(with_extension(path, "CUE"));
        }
        assert(crate::text::string_views(out@) =~= cue_candidates(path@));
        out
    }
}

} // verus!
