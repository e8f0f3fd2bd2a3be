//! Browsing of the filesystem that a disc image carries.
//!
//! A filesystem is opened on a reader of the image; which reader that is
//! depends on the container and is the caller's choice. What is decided
//! here is which filesystem to open, and at which offset.

pub mod entry;
pub mod filesystem;
pub mod hfs_fs;
pub mod hfsplus_fs;
pub mod iso9660_fs;
pub mod order;
pub mod reader;

use vstd::prelude::*;
use crate::bytes::{be16, be32, read_be16, read_be32};
use crate::disc::apm::{is_hfs_type, label_text as partition_label, PartitionEntry};
use crate::disc::bincue::{bin_candidates, first_existing, fix_format_keywords, fix_keywords};
use crate::disc::browse::entry::{EntryModel, EntryType, FileEntry};
use crate::disc::browse::filesystem::{ErrorKind, Filesystem, FilesystemError};
use crate::disc::browse::hfs_fs::{hfs_open, hfs_volume_name, HfsFilesystem};
use crate::disc::browse::hfsplus_fs::{plus_open, plus_volume_name, HfsPlusFilesystem};
use crate::disc::browse::iso9660_fs::{iso_open, Iso9660Filesystem, IsoRoot};
use crate::disc::iso9660::field_text;
use crate::disc::browse::reader::{in_range, ReadError, SectorReader, TrackInfo};
use crate::disc::formats::{DiscFormat, FilesystemType};
use crate::disc::reader::DiscInfo;
use crate::disc::cue::{
    command_models, cue_commands, get_track_params, parse_cue_commands, track_params, CueCommand,
    CueCommandModel, CueTrackType,
};
use crate::text::number::{parse_u64_chars, parse_u64_text};
use crate::text::search::{
    contains_in, contains_sub, find_in, find_sub, lines_of, split_lines, starts_with,
    starts_with_chars,
};
use crate::text::trim::{split_words, trim, trim_chars, words};
use crate::text::{chars_of, copy_range, message_with_hex, optional_view, string_of, string_views, views};
use vstd::slice::slice_subrange;

verus! {

/// One of the filesystems that can be browsed.
pub enum DiscFilesystem<R: SectorReader> {
    /// ISO 9660.
    Iso9660(Iso9660Filesystem<R>),
    /// The classic hierarchical filesystem.
    Hfs(HfsFilesystem<R>),
    /// The extended hierarchical filesystem.
    HfsPlus(HfsPlusFilesystem<R>),
}

impl<R: SectorReader> DiscFilesystem<R> {
    /// The kind of the filesystem.
    pub open spec fn kind_of(&self) -> FilesystemType {
        match *self {
            DiscFilesystem::Iso9660(_) => FilesystemType::Iso9660,
            DiscFilesystem::Hfs(_) => FilesystemType::Hfs,
            DiscFilesystem::HfsPlus(_) => FilesystemType::HfsPlus,
        }
    }

    /// The kind of the filesystem.
    pub fn kind(&self) -> (r: FilesystemType)
        ensures
            r == self.kind_of(),
    {
        match self {
            DiscFilesystem::Iso9660(_) => FilesystemType::Iso9660,
            DiscFilesystem::Hfs(_) => FilesystemType::Hfs,
            DiscFilesystem::HfsPlus(_) => FilesystemType::HfsPlus,
        }
    }

    /// The bytes of the image that the filesystem reads.
    pub open spec fn image(&self) -> Seq<u8> {
        match *self {
            DiscFilesystem::Iso9660(fs) => fs.image(),
            DiscFilesystem::Hfs(fs) => fs.image(),
            DiscFilesystem::HfsPlus(fs) => fs.image(),
        }
    }

    /// The root directory: on ISO 9660 it lies where the volume
    /// descriptor says; on the hierarchical filesystems it is the folder
    /// with the identifier 2.
    pub open spec fn root_model(&self) -> EntryModel {
        match *self {
            DiscFilesystem::Iso9660(fs) => EntryModel {
                name: Seq::empty(),
                path: "/"@,
                entry_type: EntryType::Directory,
                size: fs.root_extent().size as u64,
                location: fs.root_extent().location as u64,
            },
            _ => EntryModel {
                name: Seq::empty(),
                path: "/"@,
                entry_type: EntryType::Directory,
                size: 0,
                location: 2,
            },
        }
    }

    /// This filesystem is the one before a call but for the state of its
    /// reader: the same kind on the same image, with the same layout and
    /// the same name.
    pub open spec fn same_volume(&self, before: &Self) -> bool {
        match (*self, *before) {
            (DiscFilesystem::Iso9660(a), DiscFilesystem::Iso9660(b)) => a.same_volume(&b),
            (DiscFilesystem::Hfs(a), DiscFilesystem::Hfs(b)) => a.image() == b.image() && a.layout()
                == b.layout() && a.partition() == b.partition() && a.name() == b.name(),
            (DiscFilesystem::HfsPlus(a), DiscFilesystem::HfsPlus(b)) => a.image() == b.image()
                && a.layout() == b.layout() && a.partition() == b.partition() && a.name()
                == b.name(),
            _ => false,
        }
    }

    /// This filesystem is what opening the filesystem that a record names
    /// gives on an image: it reads that image; ISO 9660 has the root and
    /// the name of the volume descriptor; a hierarchical filesystem lies
    /// at the offset of its volume and has the layout found there.
    pub open spec fn opened_on(&self, image: Seq<u8>, disc_info: &DiscInfo) -> bool {
        &&& self.image() == image
        &&& self.kind_of() == disc_info.filesystem
        &&& match *self {
            DiscFilesystem::Iso9660(fs) => iso_open(image) == Ok::<IsoRoot, ErrorKind>(
                fs.root_extent(),
            ) && fs.name() == field_text(image.subrange(32768, 34816), 40, 72),
            DiscFilesystem::Hfs(fs) => fs.partition() == open_offset(image) && hfs_open(
                image,
                open_offset(image),
            ) == Ok::<crate::disc::browse::hfs_fs::HfsLayout, ErrorKind>(fs.layout()) && fs.name()
                == hfs_volume_name(image, open_offset(image), disc_info),
            DiscFilesystem::HfsPlus(fs) => fs.partition() == open_offset(image) && plus_open(
                image,
                open_offset(image),
            ) == Ok::<crate::disc::browse::hfsplus_fs::PlusLayout, ErrorKind>(fs.layout())
                && fs.name() == plus_volume_name(disc_info),
        }
    }

    /// What is listed and read does not depend on the state of the
    /// reader: two filesystems on the same volume have the same root, the
    /// same name, and the same listing and content for every entry.
    pub proof fn lemma_same_volume(&self, before: &Self)
        requires
            self.same_volume(before),
        ensures
            self.kind_of() == before.kind_of(),
            self.image() == before.image(),
            self.name() == before.name(),
            self.root_model() == before.root_model(),
            forall|e: EntryModel| #[trigger] self.listing(e) == before.listing(e),
            forall|e: EntryModel| #[trigger] self.content(e) == before.content(e),
            forall|e: EntryModel, offset: int, length: int| #[trigger]
                self.content_range(e, offset, length) == before.content_range(e, offset, length),
    {
    }

    /// The listing of a directory.
    pub open spec fn listing(&self, entry: EntryModel) -> Result<Seq<EntryModel>, ErrorKind> {
        match *self {
            DiscFilesystem::Iso9660(fs) => fs.listing(entry),
            DiscFilesystem::Hfs(fs) => fs.listing(entry),
            DiscFilesystem::HfsPlus(fs) => fs.listing(entry),
        }
    }

    /// The whole content of a file.
    pub open spec fn content(&self, entry: EntryModel) -> Result<Seq<u8>, ErrorKind> {
        match *self {
            DiscFilesystem::Iso9660(fs) => fs.content(entry),
            DiscFilesystem::Hfs(fs) => Err(ErrorKind::Unsupported),
            DiscFilesystem::HfsPlus(fs) => fs.content(entry),
        }
    }

    /// Part of the content of a file.
    pub open spec fn content_range(&self, entry: EntryModel, offset: int, length: int) -> Result<
        Seq<u8>,
        ErrorKind,
    > {
        match *self {
            DiscFilesystem::Iso9660(fs) => fs.content_range(entry, offset, length),
            DiscFilesystem::Hfs(fs) => Err(ErrorKind::Unsupported),
            DiscFilesystem::HfsPlus(fs) => fs.content_range(entry, offset, length),
        }
    }

    /// The volume name.
    pub open spec fn name(&self) -> Seq<char> {
        match *self {
            DiscFilesystem::Iso9660(fs) => fs.name(),
            DiscFilesystem::Hfs(fs) => fs.name(),
            DiscFilesystem::HfsPlus(fs) => fs.name(),
        }
    }
}

impl<R: SectorReader> Filesystem for DiscFilesystem<R> {
    open spec fn wf(&self) -> bool {
        match *self {
            DiscFilesystem::Iso9660(fs) => fs.inv(),
            DiscFilesystem::Hfs(fs) => fs.inv(),
            DiscFilesystem::HfsPlus(fs) => fs.inv(),
        }
    }

    fn root(&mut self) -> (r: Result<FileEntry, FilesystemError>)
        ensures
            final(self).same_volume(old(self)),
            r matches Ok(e) && e@ == old(self).root_model(),
    {
        match self {
            DiscFilesystem::Iso9660(fs) => fs.root(),
            DiscFilesystem::Hfs(fs) => fs.root(),
            DiscFilesystem::HfsPlus(fs) => fs.root(),
        }
    }

    fn list_directory(&mut self, entry: &FileEntry) -> (r: Result<Vec<FileEntry>, FilesystemError>)
        ensures
            final(self).same_volume(old(self)),
            match r {
                Ok(v) => old(self).listing(entry@) == Ok::<Seq<EntryModel>, ErrorKind>(
                    crate::disc::browse::entry::models(v@),
                ),
                Err(e) => old(self).listing(entry@) == Err::<Seq<EntryModel>, ErrorKind>(e.kind_of()),
            },
    {
        match self {
            DiscFilesystem::Iso9660(fs) => fs.list_directory(entry),
            DiscFilesystem::Hfs(fs) => fs.list_directory(entry),
            DiscFilesystem::HfsPlus(fs) => fs.list_directory(entry),
        }
    }

    fn read_file(&mut self, entry: &FileEntry) -> (r: Result<Vec<u8>, FilesystemError>)
        ensures
            final(self).same_volume(old(self)),
            match r {
                Ok(v) => old(self).content(entry@) == Ok::<Seq<u8>, ErrorKind>(v@),
                Err(e) => old(self).content(entry@) == Err::<Seq<u8>, ErrorKind>(e.kind_of()),
            },
    {
        match self {
            DiscFilesystem::Iso9660(fs) => fs.read_file(entry),
            DiscFilesystem::Hfs(fs) => fs.read_file(entry),
            DiscFilesystem::HfsPlus(fs) => fs.read_file(entry),
        }
    }

    fn read_file_range(&mut self, entry: &FileEntry, offset: u64, length: usize) -> (r: Result<
        Vec<u8>,
        FilesystemError,
    >)
        ensures
            final(self).same_volume(old(self)),
            match r {
                Ok(v) => old(self).content_range(entry@, offset as int, length as int) == Ok::<
                    Seq<u8>,
                    ErrorKind,
                >(v@),
                Err(e) => old(self).content_range(entry@, offset as int, length as int) == Err::<
                    Seq<u8>,
                    ErrorKind,
                >(e.kind_of()),
            },
    {
        match self {
            DiscFilesystem::Iso9660(fs) => fs.read_file_range(entry, offset, length),
            DiscFilesystem::Hfs(fs) => fs.read_file_range(entry, offset, length),
            DiscFilesystem::HfsPlus(fs) => fs.read_file_range(entry, offset, length),
        }
    }

    fn volume_name(&self) -> (r: Option<&str>)
        ensures
            match r {
                Some(s) => s@ == self.name(),
                None => self.name().len() == 0,
            },
    {
        match self {
            DiscFilesystem::Iso9660(fs) => fs.volume_name(),
            DiscFilesystem::Hfs(fs) => fs.volume_name(),
            DiscFilesystem::HfsPlus(fs) => fs.volume_name(),
        }
    }
}

/// The offset of the first partition, among the entries `index..=count`
/// of a partition map, that holds a hierarchical filesystem. A block that
/// is no entry is passed over; a block that cannot be read fails the
/// search.
pub open spec fn partition_scan(image: Seq<u8>, index: int, count: int) -> Result<int, ErrorKind>
    decreases count + 1 - index,
{
    if index > count {
        Err(ErrorKind::Parse)
    } else if !in_range(image.len(), index * 512, 512) {
        Err(ErrorKind::Io)
    } else {
        let block = image.subrange(index * 512, index * 512 + 512);
        if be16(block, 0) == 0x504D && is_hfs_type(partition_label(block.subrange(48, 80))) {
            Ok(be32(block, 8) * 512)
        } else {
            partition_scan(image, index + 1, count)
        }
    }
}

/// The offset of the volume with a hierarchical filesystem on an image: 0
/// if the image has no partition map but carries the signature of such a
/// filesystem at byte 1024; else the offset of the first partition of the
/// map that holds one.
pub open spec fn volume_offset(image: Seq<u8>) -> Result<int, ErrorKind> {
    if !in_range(image.len(), 0, 512) {
        Err(ErrorKind::Io)
    } else if be16(image, 0) != 0x4552 {
        if !in_range(image.len(), 1024, 4) {
            Err(ErrorKind::Io)
        } else if be16(image, 1024) == 0x4244 || be16(image, 1024) == 0x482B || be16(image, 1024)
            == 0x4858 {
            Ok(0)
        } else {
            Err(ErrorKind::Parse)
        }
    } else if !in_range(image.len(), 512, 512) {
        Err(ErrorKind::Io)
    } else if be16(image, 512) != 0x504D {
        Err(ErrorKind::Parse)
    } else {
        partition_scan(image, 1, be32(image, 516))
    }
}

/// The offset at which a hierarchical filesystem is opened: the offset of
/// its volume, or 0 if none can be found.
pub open spec fn open_offset(image: Seq<u8>) -> int {
    match volume_offset(image) {
        Ok(offset) => offset,
        Err(_) => 0,
    }
}

/// Finds the offset of the volume with a hierarchical filesystem.
pub fn find_hfs_partition_offset_from_reader<R: SectorReader>(reader: &mut R) -> (r: Result<
    u64,
    FilesystemError,
>)
    requires
        old(reader).wf(),
    ensures
        final(reader).wf(),
        final(reader).image() == old(reader).image(),
        match r {
            Ok(offset) => volume_offset(old(reader).image()) == Ok::<int, ErrorKind>(offset as int),
            Err(e) => volume_offset(old(reader).image()) == Err::<int, ErrorKind>(e.kind_of()),
        },
{
    let ghost image = reader.image();
    let descriptor = match reader.read_bytes(0, 512) {
        Ok(v) => v,
        Err(e) => {
            return Err(FilesystemError::Io(e));
        },
    };
    let signature: u16 = read_be16(descriptor.as_slice(), 0);
    if signature != 0x4552 {
        let header = match reader.read_bytes(1024, 4) {
            Ok(v) => v,
            Err(e) => {
                return Err(FilesystemError::Io(e));
            },
        };
        let sig: u16 = read_be16(header.as_slice(), 0);
        if sig == 0x4244 || sig == 0x482B || sig == 0x4858 {
            return Ok(0);
        }
        return Err(
            FilesystemError::Parse(
                message_with_hex("No Apple Partition Map and no direct HFS; DDM signature: ", signature),
            ),
        );
    }
    let first = match reader.read_bytes(512, 512) {
        Ok(v) => v,
        Err(e) => {
            return Err(FilesystemError::Io(e));
        },
    };
    let pm: u16 = read_be16(first.as_slice(), 0);
    if pm != 0x504D {
        return Err(FilesystemError::Parse(message_with_hex("Invalid partition map signature: ", pm)));
    }
    let count: u32 = read_be32(first.as_slice(), 4);
    let mut index: u64 = 1;
    while index <= count as u64
        invariant
            1 <= index <= count + 1,
            reader.wf(),
            reader.image() == image,
            image == old(reader).image(),
            volume_offset(image) == partition_scan(image, index as int, count as int),
        decreases count + 1 - index,
    {
        let block = match reader.read_bytes(index * 512, 512) {
            Ok(v) => v,
            Err(e) => {
                return Err(FilesystemError::Io(e));
            },
        };
        if read_be16(block.as_slice(), 0) == 0x504D {
            let start: u32 = read_be32(block.as_slice(), 8);
            let kind = PartitionEntry::label(slice_subrange(block.as_slice(), 48, 80));
            let chars = chars_of(kind.as_str());
            if starts_with_chars(chars.as_slice(), chars_of("Apple_HFS").as_slice()) {
                return Ok(start as u64 * 512);
            }
        }
        index = index + 1;
    }
    Err(FilesystemError::Parse("No HFS/HFS+ partition found in APM".to_owned()))
}

/// What opening the filesystem of the given kind on an image gives: its
/// kind if it opens, else the kind of the error.
pub open spec fn open_result(image: Seq<u8>, kind: FilesystemType) -> Result<FilesystemType, ErrorKind> {
    match kind {
        FilesystemType::Iso9660 => match iso_open(image) {
            Ok(_) => Ok(FilesystemType::Iso9660),
            Err(e) => Err(e),
        },
        FilesystemType::Hfs => match hfs_open(image, open_offset(image)) {
            Ok(_) => Ok(FilesystemType::Hfs),
            Err(e) => Err(e),
        },
        FilesystemType::HfsPlus => match plus_open(image, open_offset(image)) {
            Ok(_) => Ok(FilesystemType::HfsPlus),
            Err(e) => Err(e),
        },
        _ => Err(ErrorKind::Unsupported),
    }
}

/// Opens the filesystem that a disc-info record names, on a reader of the
/// image. A hierarchical filesystem is opened at the offset of its volume.
pub fn create_filesystem<R: SectorReader>(reader: R, disc_info: &DiscInfo) -> (r: Result<
    DiscFilesystem<R>,
    FilesystemError,
>)
    requires
        reader.wf(),
    ensures
        match r {
            Ok(fs) => fs.wf() && fs.opened_on(reader.image(), disc_info) && open_result(
                reader.image(),
                disc_info.filesystem,
            ) == Ok::<FilesystemType, ErrorKind>(fs.kind_of()),
            Err(e) => open_result(reader.image(), disc_info.filesystem) == Err::<
                FilesystemType,
                ErrorKind,
            >(e.kind_of()),
        },
{
    let mut reader = reader;
    match disc_info.filesystem {
        FilesystemType::Iso9660 => match Iso9660Filesystem::new(reader) {
            Ok(fs) => Ok(DiscFilesystem::Iso9660(fs)),
            Err(e) => Err(e),
        },
        FilesystemType::Hfs => {
            let offset: u64 = match find_hfs_partition_offset_from_reader(&mut reader) {
                Ok(v) => v,
                Err(_) => 0,
            };
            match HfsFilesystem::new(reader, offset, disc_info) {
                Ok(fs) => Ok(DiscFilesystem::Hfs(fs)),
                Err(e) => Err(e),
            }
        },
        FilesystemType::HfsPlus => {
            let offset: u64 = match find_hfs_partition_offset_from_reader(&mut reader) {
                Ok(v) => v,
                Err(_) => 0,
            };
            match HfsPlusFilesystem::new(reader, offset, disc_info) {
                Ok(fs) => Ok(DiscFilesystem::HfsPlus(fs)),
                Err(e) => Err(e),
            }
        },
        _ => Err(FilesystemError::Unsupported),
    }
}

/// Whether images of a format can be browsed.
pub open spec fn browsable(format: DiscFormat) -> bool {
    format == DiscFormat::Iso || format == DiscFormat::BinCue || format == DiscFormat::Chd
}

/// Opens the filesystem of a disc on a reader of its image. Images of a
/// format that cannot be browsed are refused.
pub fn open_filesystem<R: SectorReader>(reader: R, disc_info: &DiscInfo) -> (r: Result<
    DiscFilesystem<R>,
    FilesystemError,
>)
    requires
        reader.wf(),
    ensures
        match r {
            Ok(fs) => fs.wf() && browsable(disc_info.format) && fs.opened_on(
                reader.image(),
                disc_info,
            ) && open_result(reader.image(), disc_info.filesystem) == Ok::<
                FilesystemType,
                ErrorKind,
            >(fs.kind_of()),
            Err(e) => if browsable(disc_info.format) {
                open_result(reader.image(), disc_info.filesystem) == Err::<
                    FilesystemType,
                    ErrorKind,
                >(e.kind_of())
            } else {
                e.kind_of() == ErrorKind::Unsupported
            },
        },
{
    match disc_info.format {
        DiscFormat::Iso => create_filesystem(reader, disc_info),
        DiscFormat::BinCue => create_filesystem(reader, disc_info),
        DiscFormat::Chd => create_filesystem(reader, disc_info),
        _ => Err(FilesystemError::Unsupported),
    }
}

/// What a line of a sheet becomes: nothing if it begins, after leading
/// whitespace, with `CATALOG`; a `FILE` line with a quoted name loses the
/// quotes; any other line stays. What is kept ends in a line feed.
pub open spec fn sheet_line(line: Seq<char>) -> Seq<char> {
    let trimmed = trim(line);
    let rest = trim(trimmed.skip(5));
    if starts_with(trimmed, "CATALOG"@) {
        Seq::empty()
    } else if starts_with(trimmed, "FILE "@) && rest.len() > 0 && rest[0] == '"' && find_sub(
        rest.skip(1),
        seq!['"'],
    ) is Some {
        "FILE "@ + rest.subrange(1, 1 + find_sub(rest.skip(1), seq!['"'])->0) + seq![' '] + trim(
            rest.skip(2 + find_sub(rest.skip(1), seq!['"'])->0),
        ) + seq!['\n']
    } else {
        line + seq!['\n']
    }
}

/// The lines of a sheet, each as it is kept.
pub open spec fn sheet_lines(lines: Seq<Seq<char>>) -> Seq<char>
    decreases lines.len(),
{
    if lines.len() == 0 {
        Seq::empty()
    } else {
        sheet_lines(lines.drop_last()) + sheet_line(lines.last())
    }
}

/// A sheet made fit for the parser.
pub open spec fn normalized_sheet(content: Seq<char>) -> Seq<char> {
    fix_keywords(sheet_lines(lines_of(content)))
}

/// What a line of a sheet becomes.
pub fn normalize_line(line: &[char]) -> (r: Vec<char>)
    ensures
        r@ == sheet_line(line@),
{
    let trimmed = trim_chars(line);
    if starts_with_chars(trimmed.as_slice(), chars_of("CATALOG").as_slice()) {
        return Vec::new();
    }
    let file = chars_of("FILE ");
    proof {
        reveal_strlit("FILE ");
        assert(file@.len() == 5);
    }
    if starts_with_chars(trimmed.as_slice(), file.as_slice()) {
        let tail = copy_range(trimmed.as_slice(), 5, trimmed.len());
        proof {
            assert(tail@ =~= trimmed@.skip(5));
        }
        let rest = trim_chars(tail.as_slice());
        let size: usize = rest.len();
        if size > 0 && rest[0] == '"' {
            let after = copy_range(rest.as_slice(), 1, size);
            let quote: Vec<char> = vec!['"'];
            proof {
                assert(after@ =~= rest@.skip(1));
                assert(quote@ =~= seq!['"']);
            }
            match find_in(after.as_slice(), quote.as_slice()) {
                Some(end) => {
                    let name = copy_range(rest.as_slice(), 1, 1 + end);
                    let format_raw = copy_range(rest.as_slice(), 2 + end, size);
                    proof {
                        assert(format_raw@ =~= rest@.skip(2 + end));
                    }
                    let format = trim_chars(format_raw.as_slice());
                    let mut out: Vec<char> = Vec::new();
                    out.extend_from_slice(file.as_slice());
                    out.extend_from_slice(name.as_slice());
                    out.push(' ');
                    out.extend_from_slice(format.as_slice());
                    out.push('\n');
                    proof {
                        assert(out@ =~= "FILE "@ + name@ + seq![' '] + format@ + seq!['\n']);
                    }
                    return out;
                },
                None => {},
            }
        }
    }
    let mut out: Vec<char> = copy_range(line, 0, line.len());
    proof {
        assert(line@.subrange(0, line@.len() as int) =~= line@);
    }
    out.push('\n');
    out
}

/// Normalizes a sheet for the parser: lines that begin with `CATALOG` are
/// dropped, quoted file names lose their quotes, and the keywords of file
/// formats are spelled as the parser knows them.
pub fn normalize_cue_keywords(content: &str) -> (r: String)
    ensures
        r@ == normalized_sheet(content@),
{
    let chars = chars_of(content);
    let lines = split_lines(chars.as_slice());
    let mut result: Vec<char> = Vec::new();
    let mut i: usize = 0;
    proof {
        assert(views(lines@).take(0) =~= Seq::<Seq<char>>::empty());
    }
    while i < lines.len()
        invariant
            i <= lines@.len(),
            result@ == sheet_lines(views(lines@).take(i as int)),
        decreases lines@.len() - i,
    {
        let kept = normalize_line(lines[i].as_slice());
        proof {
            let now = views(lines@).take(i + 1);
            assert(now.drop_last() =~= views(lines@).take(i as int));
            assert(now.last() == lines@[i as int]@);
        }
        result.extend_from_slice(kept.as_slice());
        i = i + 1;
    }
    proof {
        assert(views(lines@).take(i as int) =~= views(lines@));
    }
    let fixed = fix_format_keywords(result.as_slice());
    string_of(fixed.as_slice())
}

/// A track of a sheet, as far as browsing needs it.
pub struct SheetTrack {
    /// Track number.
    pub track_no: u32,
    /// Track type.
    pub track_type: CueTrackType,
    /// The binary file that holds the track.
    pub bin_filename: Seq<char>,
}

/// What a sheet has named so far: the tracks that have an index 01, the
/// current file and the current track.
pub struct SheetState {
    /// Tracks with an index 01.
    pub tracks: Seq<SheetTrack>,
    /// The file that the current commands apply to.
    pub file: Option<Seq<char>>,
    /// The track that the current commands apply to.
    pub track: Option<(u32, CueTrackType)>,
}

/// The state after one more command: a track is taken when its index 01 is
/// seen, with the file and the track that are current then.
pub open spec fn sheet_after(state: SheetState, command: CueCommandModel) -> SheetState {
    match command {
        CueCommandModel::File(name) => SheetState { file: Some(name), ..state },
        CueCommandModel::Track(number, kind) => SheetState { track: Some((number, kind)), ..state },
        CueCommandModel::Index(number, _, _, _) => {
            if number == 1 && state.file is Some && state.track is Some {
                SheetState {
                    tracks: state.tracks.push(
                        SheetTrack {
                            track_no: (state.track->0).0,
                            track_type: (state.track->0).1,
                            bin_filename: state.file->0,
                        },
                    ),
                    ..state
                }
            } else {
                state
            }
        },
        CueCommandModel::Other => state,
    }
}

/// The state after a sequence of commands.
pub open spec fn sheet_state(commands: Seq<CueCommandModel>) -> SheetState
    decreases commands.len(),
{
    if commands.len() == 0 {
        SheetState { tracks: Seq::empty(), file: None, track: None }
    } else {
        sheet_after(sheet_state(commands.drop_last()), commands.last())
    }
}

/// The first data track at or after `from`.
pub open spec fn first_sheet_data(tracks: Seq<SheetTrack>, from: int) -> Option<int>
    decreases tracks.len() - from,
{
    if from < 0 || from >= tracks.len() {
        None
    } else if track_params(tracks[from].track_type).2 {
        Some(from)
    } else {
        first_sheet_data(tracks, from + 1)
    }
}

/// The first data track of a sheet: the binary file that holds it and its
/// geometry.
pub open spec fn sheet_data_track(content: Seq<char>) -> Option<SheetTrack> {
    match cue_commands(normalized_sheet(content)) {
        None => None,
        Some(commands) => match first_sheet_data(sheet_state(commands).tracks, 0) {
            Some(k) => Some(sheet_state(commands).tracks[k]),
            None => None,
        },
    }
}

/// The first data track among the tracks that the commands of a sheet
/// name: its binary file and its geometry, the number of sectors left 0.
pub fn data_track_of_commands(commands: &Vec<CueCommand>) -> (r: Option<(String, TrackInfo)>)
    ensures
        match r {
            Some((name, info)) => first_sheet_data(
                sheet_state(command_models(commands@)).tracks,
                0,
            ) matches Some(k) && ({
                let t = sheet_state(command_models(commands@)).tracks[k];
                name@ == t.bin_filename && info.number == t.track_no && info.file_offset == 0
                    && info.sector_size == track_params(t.track_type).0 && info.data_offset
                    == track_params(t.track_type).1 && info.sector_count == 0 && info.is_data
            }),
            None => first_sheet_data(sheet_state(command_models(commands@)).tracks, 0) is None,
        },
{
    let mut file: Option<String> = None;
    let mut track: Option<(u32, CueTrackType)> = None;
    let ghost mut seen: Seq<SheetTrack> = Seq::empty();
    let mut i: usize = 0;
    proof {
        assert(command_models(commands@).take(0) =~= Seq::<CueCommandModel>::empty());
    }
    while i < commands.len()
        invariant
            i <= commands@.len(),
            sheet_state(command_models(commands@).take(i as int)) == (SheetState {
                tracks: seen,
                file: optional_view(file),
                track,
            }),
            first_sheet_data(seen, 0) is None,
        decreases commands@.len() - i,
    {
        proof {
            let now = command_models(commands@).take(i + 1);
            assert(now.drop_last() =~= command_models(commands@).take(i as int));
            assert(now.last() == commands@[i as int]@);
        }
        match &commands[i] {
            CueCommand::File(name) => {
                file = Some(name.clone());
            },
            CueCommand::Track(number, kind) => {
                track = Some((*number, *kind));
            },
            CueCommand::Index(number, _, _, _) => {
                if *number == 1 {
                    match (&file, track) {
                        (Some(name), Some((track_no, kind))) => {
                            let (sector_size, data_offset, is_data) = get_track_params(&kind);
                            let ghost taken = SheetTrack {
                                track_no,
                                track_type: kind,
                                bin_filename: name@,
                            };
                            proof {
                                lemma_first_sheet_data_push(seen, taken, 0);
                            }
                            if is_data {
                                proof {
                                    lemma_first_sheet_data_prefix(
                                        command_models(commands@),
                                        i + 1,
                                        seen.len() as int,
                                    );
                                }
                                return Some(
                                    (
                                        name.clone(),
                                        TrackInfo {
                                            number: track_no,
                                            file_offset: 0,
                                            sector_size,
                                            data_offset,
                                            sector_count: 0,
                                            is_data: true,
                                        },
                                    ),
                                );
                            }
                            proof {
                                seen = seen.push(taken);
                            }
                        },
                        _ => {},
                    }
                }
            },
            CueCommand::Other => {},
        }
        i = i + 1;
    }
    proof {
        assert(command_models(commands@).take(i as int) =~= command_models(commands@));
    }
    None
}

/// Adding a track at the end changes the first data track only if there
/// was none.
pub proof fn lemma_first_sheet_data_push(tracks: Seq<SheetTrack>, track: SheetTrack, from: int)
    requires
        0 <= from <= tracks.len(),
    ensures
        first_sheet_data(tracks.push(track), from) == match first_sheet_data(tracks, from) {
            Some(k) => Some(k),
            None => if track_params(track.track_type).2 {
                Some(tracks.len() as int)
            } else {
                None
            },
        },
    decreases tracks.len() - from,
{
    if from < tracks.len() {
        assert(tracks.push(track)[from] == tracks[from]);
        if !track_params(tracks[from].track_type).2 {
            lemma_first_sheet_data_push(tracks, track, from + 1);
        }
    } else {
        assert(tracks.push(track)[from] == track);
        assert(first_sheet_data(tracks.push(track), from + 1) is None);
    }
}

/// The tracks of a part of a sheet stay the first tracks of the whole, so
/// that its first data track stays the first.
pub proof fn lemma_first_sheet_data_prefix(commands: Seq<CueCommandModel>, count: int, k: int)
    requires
        0 <= count <= commands.len(),
        first_sheet_data(sheet_state(commands.take(count)).tracks, 0) == Some(k),
    ensures
        first_sheet_data(sheet_state(commands).tracks, 0) == Some(k),
        sheet_state(commands).tracks[k] == sheet_state(commands.take(count)).tracks[k],
    decreases commands.len() - count,
{
    if count == commands.len() {
        assert(commands.take(count) =~= commands);
    } else {
        let now = commands.take(count + 1);
        assert(now.drop_last() =~= commands.take(count));
        let before = sheet_state(commands.take(count));
        let after = sheet_state(now);
        lemma_first_in_range(before.tracks, 0, k);
        if after.tracks != before.tracks {
            let added = after.tracks.last();
            assert(after.tracks =~= before.tracks.push(added));
            lemma_first_sheet_data_push(before.tracks, added, 0);
        }
        lemma_first_sheet_data_prefix(commands, count + 1, k);
    }
}

/// What is found lies within the tracks.
pub proof fn lemma_first_in_range(tracks: Seq<SheetTrack>, from: int, k: int)
    requires
        0 <= from,
        first_sheet_data(tracks, from) == Some(k),
    ensures
        from <= k < tracks.len(),
    decreases tracks.len() - from,
{
    if from < tracks.len() && !track_params(tracks[from].track_type).2 {
        lemma_first_in_range(tracks, from + 1, k);
    }
}

/// Finds the first data track of a sheet: the binary file that holds it
/// and its geometry. The number of sectors is left 0; it follows from the
/// size of the file.
pub fn parse_cue_for_data_track(cue_content: &str) -> (r: Result<(String, TrackInfo), FilesystemError>)
    ensures
        match r {
            Ok((name, info)) => sheet_data_track(cue_content@) matches Some(t) && name@
                == t.bin_filename && info.number == t.track_no && info.file_offset == 0
                && info.sector_size == track_params(t.track_type).0 && info.data_offset
                == track_params(t.track_type).1 && info.sector_count == 0 && info.is_data,
            Err(e) => e.kind_of() == ErrorKind::Parse && sheet_data_track(cue_content@) is None,
        },
{
    let normalized = normalize_cue_keywords(cue_content);
    let commands = match parse_cue_commands(normalized.as_str()) {
        Ok(v) => v,
        Err(e) => {
            return Err(FilesystemError::Parse(e));
        },
    };
    match data_track_of_commands(&commands) {
        Some(found) => Ok(found),
        None => Err(FilesystemError::Parse("No data track found in CUE".to_owned())),
    }
}

/// The geometry of a track in a file of the given size: the number of
/// sectors is the size in whole sectors.
pub fn with_sector_count(track: TrackInfo, file_size: u64) -> (r: TrackInfo)
    ensures
        r.sector_count == if track.sector_size == 0 {
            0
        } else {
            file_size / track.sector_size
        },
        r == (TrackInfo { sector_count: r.sector_count, ..track }),
{
    let sector_count: u64 = if track.sector_size == 0 {
        0
    } else {
        file_size / track.sector_size
    };
    TrackInfo {
        number: track.number,
        file_offset: track.file_offset,
        sector_size: track.sector_size,
        data_offset: track.data_offset,
        sector_count,
        is_data: track.is_data,
    }
}

/// Picks the binary file of a sheet: the first of the candidate places
/// that exists. `exists[i]` says whether candidate `i` does; candidates
/// beyond the flags count as missing.
pub fn resolve_bin_path(cue_dir: &str, bin_filename: &str, cue_path: Option<&str>, exists: &Vec<bool>) -> (r:
    Result<String, FilesystemError>)
    ensures
        ({
            let candidates = bin_candidates(
                cue_dir@,
                bin_filename@,
                match cue_path {
                    Some(p) => Some(p@),
                    None => None,
                },
            );
            let flags = exists@.take(
                if exists@.len() <= candidates.len() {
                    exists@.len() as int
                } else {
                    candidates.len() as int
                },
            );
            match r {
                Ok(path) => (first_existing(flags, 0) matches Some(k) && path@ == candidates[k]),
                Err(e) => first_existing(flags, 0) is None && e.kind_of() == ErrorKind::Io,
            }
        }),
{
    match crate::disc::bincue::resolve_bin_path_with_cue_fallback(
        cue_dir,
        bin_filename,
        cue_path,
        exists,
    ) {
        Ok(path) => Ok(path),
        Err(_) => Err(FilesystemError::Io(ReadError::NotFound)),
    }
}

/// Size of a frame of a compressed-hunk image.
pub const CD_FRAME_SIZE: u32 = 2448;

/// The bytes that the frames named in a line of audio metadata take: the
/// number after `FRAMES:` in the first word that begins so, times the size
/// of a frame, cut to 64 bits; 0 if there is no such number.
pub open spec fn audio_bytes(line: Seq<char>, from: int) -> u64
    decreases words(line).len() - from,
{
    if from < 0 || from >= words(line).len() {
        0
    } else if starts_with(words(line)[from], "FRAMES:"@) {
        match parse_u64_text(words(line)[from].skip(7)) {
            Some(frames) => ((frames * 2448) % 0x1_0000_0000_0000_0000) as u64,
            None => 0,
        }
    } else {
        audio_bytes(line, from + 1)
    }
}

/// What the lines from `from` on say about the data track, given the
/// bytes of the audio tracks before them: the first line of a mode 1
/// track ends the search; a line of an audio track adds its bytes.
pub open spec fn data_track_in_lines(lines: Seq<Seq<char>>, from: int, offset: u64) -> (
    Option<(u64, u32, usize)>,
    u64,
)
    decreases lines.len() - from,
{
    if from < 0 || from >= lines.len() {
        (None, offset)
    } else if contains_sub(lines[from], "TYPE:MODE1"@) {
        (
            Some(
                (
                    offset,
                    2448u32,
                    if contains_sub(lines[from], "TYPE:MODE1_RAW"@) {
                        16usize
                    } else {
                        0usize
                    },
                ),
            ),
            offset,
        )
    } else if contains_sub(lines[from], "TYPE:AUDIO"@) {
        data_track_in_lines(
            lines,
            from + 1,
            ((offset + audio_bytes(lines[from], 0)) % 0x1_0000_0000_0000_0000) as u64,
        )
    } else {
        data_track_in_lines(lines, from + 1, offset)
    }
}

/// What the entries from `from` on say about the data track.
pub open spec fn data_track_in_entries(entries: Seq<Seq<char>>, from: int, offset: u64) -> Option<
    (u64, u32, usize),
>
    decreases entries.len() - from,
{
    if from < 0 || from >= entries.len() {
        None
    } else {
        let found = data_track_in_lines(lines_of(entries[from]), 0, offset);
        match found.0 {
            Some(t) => Some(t),
            None => data_track_in_entries(entries, from + 1, found.1),
        }
    }
}

/// The bytes that the frames named in a line of audio metadata take.
pub fn audio_track_bytes(line: &[char]) -> (r: u64)
    ensures
        r == audio_bytes(line@, 0),
{
    let parts = split_words(line);
    let tag = chars_of("FRAMES:");
    proof {
        reveal_strlit("FRAMES:");
        assert(tag@.len() == 7);
    }
    let mut k: usize = 0;
    while k < parts.len()
        invariant
            k <= parts@.len(),
            views(parts@) == words(line@),
            tag@ == "FRAMES:"@,
            tag@.len() == 7,
            audio_bytes(line@, 0) == audio_bytes(line@, k as int),
        decreases parts@.len() - k,
    {
        let part = &parts[k];
        proof {
            assert(views(parts@)[k as int] == part@);
        }
        if starts_with_chars(part.as_slice(), tag.as_slice()) {
            let digits = copy_range(part.as_slice(), 7, part.len());
            proof {
                assert(digits@ =~= part@.skip(7));
            }
            return match parse_u64_chars(digits.as_slice()) {
                Some(frames) => frames.wrapping_mul(2448),
                None => 0,
            };
        }
        k = k + 1;
    }
    0
}

/// Finds the first data track in the entries of the track metadata of a
/// compressed-hunk image: where it begins in the decoded stream, the size
/// of a frame, and the offset of the user data in a frame. An image
/// without a mode 1 track is taken to begin with a raw data track.
pub fn parse_chd_for_data_track(entries: &Vec<String>) -> (r: (u64, u32, usize))
    ensures
        r == match data_track_in_entries(string_views(entries@), 0, 0) {
            Some(t) => t,
            None => (0u64, 2448u32, 16usize),
        },
{
    let mode1 = chars_of("TYPE:MODE1");
    let raw = chars_of("TYPE:MODE1_RAW");
    let audio = chars_of("TYPE:AUDIO");
    let mut offset: u64 = 0;
    let mut e: usize = 0;
    while e < entries.len()
        invariant
            e <= entries@.len(),
            mode1@ == "TYPE:MODE1"@,
            raw@ == "TYPE:MODE1_RAW"@,
            audio@ == "TYPE:AUDIO"@,
            data_track_in_entries(string_views(entries@), 0, 0) == data_track_in_entries(
                string_views(entries@),
                e as int,
                offset,
            ),
        decreases entries@.len() - e,
    {
        let chars = chars_of(entries[e].as_str());
        let lines = split_lines(chars.as_slice());
        let ghost start = offset;
        proof {
            assert(string_views(entries@)[e as int] == entries@[e as int]@);
        }
        let mut l: usize = 0;
        while l < lines.len()
            invariant
                l <= lines@.len(),
                mode1@ == "TYPE:MODE1"@,
                raw@ == "TYPE:MODE1_RAW"@,
                audio@ == "TYPE:AUDIO"@,
                views(lines@) == lines_of(entries@[e as int]@),
                e < entries@.len(),
                data_track_in_lines(views(lines@), 0, start) == data_track_in_lines(
                    views(lines@),
                    l as int,
                    offset,
                ),
                data_track_in_entries(string_views(entries@), 0, 0) == data_track_in_entries(
                    string_views(entries@),
                    e as int,
                    start,
                ),
            decreases lines@.len() - l,
        {
            let line = &lines[l];
            proof {
                assert(views(lines@)[l as int] == line@);
                assert(string_views(entries@)[e as int] == entries@[e as int]@);
            }
            if contains_in(line.as_slice(), mode1.as_slice()) {
                let data_offset: usize = if contains_in(line.as_slice(), raw.as_slice()) {
                    16
                } else {
                    0
                };
                return (offset, CD_FRAME_SIZE, data_offset);
            } else if contains_in(line.as_slice(), audio.as_slice()) {
                offset = offset.wrapping_add(audio_track_bytes(line.as_slice()));
            }
            l = l + 1;
        }
        proof {
            assert(string_views(entries@)[e as int] == entries@[e as int]@);
        }
        e = e + 1;
    }
    (0, CD_FRAME_SIZE, 16)
}

} // verus!
