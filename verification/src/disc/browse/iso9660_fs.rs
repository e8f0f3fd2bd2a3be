//! The ISO 9660 filesystem: directory listing and file reading.
//!
//! A directory is an extent of directory records. Records never span
//! sectors: a record length of 0 means that the rest of the sector is
//! unused. The entries "." and ".." are left out of a listing, and names
//! lose their version suffix (";1") and, for directories, trailing dots.

use vstd::prelude::*;
use crate::bytes::{le32, read_le32};
use crate::disc::browse::entry::{models, unexpanded, EntryModel, EntryType, FileEntry};
use crate::disc::browse::filesystem::{ErrorKind, Filesystem, FilesystemError};
use crate::disc::browse::hfsplus_fs::child_path;
use crate::disc::browse::order::{sort_entries, sort_listing};
use crate::disc::browse::reader::{in_range, ReadError, SectorReader};
use crate::disc::iso9660::{field_text, standard_identifier, PrimaryVolumeDescriptor};
use crate::text::search::{rfind_char, rfind_char_in};
use crate::text::trim::{trim_end, trim_end_chars, CharClass};
use crate::text::{
    chars_of, concat2, concat3, copy_bytes, copy_range, decode_utf8_lossy, lossy_text,
    message_with_number, str_eq, string_of,
};
use vstd::slice::slice_subrange;

verus! {

/// Size of the directory that is read when a directory does not begin with
/// a record of itself.
pub const FALLBACK_DIRECTORY_SIZE: u32 = 65536;

/// A directory record.
#[derive(Debug, Clone)]
pub struct DirectoryRecord {
    /// Length of the record.
    pub length: u8,
    /// Logical block address of the extent.
    pub extent_location: u32,
    /// Length of the extent in bytes.
    pub data_length: u32,
    /// File flags; bit 1 marks a directory.
    pub file_flags: u8,
    /// File identifier.
    pub file_identifier: String,
}

/// What a directory record says, as mathematical values.
pub struct RecordModel {
    /// Length of the record.
    pub length: u8,
    /// Logical block address of the extent.
    pub extent_location: u32,
    /// Length of the extent in bytes.
    pub data_length: u32,
    /// File flags.
    pub file_flags: u8,
    /// File identifier.
    pub file_identifier: Seq<char>,
}

impl View for DirectoryRecord {
    type V = RecordModel;

    open spec fn view(&self) -> RecordModel {
        RecordModel {
            length: self.length,
            extent_location: self.extent_location,
            data_length: self.data_length,
            file_flags: self.file_flags,
            file_identifier: self.file_identifier@,
        }
    }
}

/// The record that the bytes hold: at least 33 bytes with a length that is
/// not 0 and an identifier that lies within them.
pub open spec fn iso_record(data: Seq<u8>) -> Option<RecordModel> {
    if data.len() < 33 || data[0] == 0 || data.len() < 33 + data[32] {
        None
    } else {
        Some(
            RecordModel {
                length: data[0],
                extent_location: le32(data, 2) as u32,
                data_length: le32(data, 10) as u32,
                file_flags: data[25],
                file_identifier: lossy_text(data.subrange(33, 33 + data[32])),
            },
        )
    }
}

/// Whether a record with these flags is a directory.
pub open spec fn flags_directory(flags: u8) -> bool {
    flags & 0x02 != 0
}

/// Whether an identifier stands for the directory itself.
pub open spec fn identifier_self(identifier: Seq<char>) -> bool {
    identifier == seq!['\0'] || identifier.len() == 0
}

/// Whether an identifier stands for the parent directory.
pub open spec fn identifier_parent(identifier: Seq<char>) -> bool {
    identifier == seq!['\x01']
}

/// The name for an identifier: without the version suffix that begins at
/// the last `;`, and for a directory without trailing dots.
pub open spec fn clean_identifier(identifier: Seq<char>, directory: bool) -> Seq<char> {
    let base = match rfind_char(identifier, ';') {
        Some(i) => identifier.take(i),
        None => identifier,
    };
    if directory {
        trim_end(base, CharClass::Dot)
    } else {
        base
    }
}

/// The name that a record shows.
pub open spec fn record_name(record: RecordModel) -> Seq<char> {
    if identifier_self(record.file_identifier) {
        "."@
    } else if identifier_parent(record.file_identifier) {
        ".."@
    } else {
        clean_identifier(record.file_identifier, flags_directory(record.file_flags))
    }
}

/// The entry that a record gives in the directory `parent_path`; none for
/// the records of the directory itself and of its parent.
pub open spec fn record_entry(record: RecordModel, parent_path: Seq<char>) -> Option<EntryModel> {
    if identifier_self(record.file_identifier) || identifier_parent(record.file_identifier) {
        None
    } else {
        let name = record_name(record);
        if flags_directory(record.file_flags) {
            Some(
                EntryModel {
                    name,
                    path: child_path(parent_path, name),
                    entry_type: EntryType::Directory,
                    size: 0,
                    location: record.extent_location as u64,
                },
            )
        } else {
            Some(
                EntryModel {
                    name,
                    path: child_path(parent_path, name),
                    entry_type: EntryType::File,
                    size: record.data_length as u64,
                    location: record.extent_location as u64,
                },
            )
        }
    }
}

/// The entries of the directory data from `offset` on, in the order of
/// their records.
pub open spec fn iso_entries(data: Seq<u8>, offset: int, parent_path: Seq<char>) -> Seq<EntryModel>
    decreases data.len() - offset,
{
    if offset < 0 || offset >= data.len() {
        Seq::empty()
    } else if data[offset] == 0 {
        let next = (offset / 2048 + 1) * 2048;
        if next >= data.len() {
            Seq::empty()
        } else {
            iso_entries(data, next, parent_path)
        }
    } else if offset + data[offset] > data.len() {
        Seq::empty()
    } else {
        let rest = iso_entries(data, offset + data[offset], parent_path);
        match iso_record(data.subrange(offset, offset + data[offset])) {
            None => rest,
            Some(record) => match record_entry(record, parent_path) {
                None => rest,
                Some(e) => seq![e] + rest,
            },
        }
    }
}

/// The number of sectors that hold `size` bytes.
pub open spec fn sectors_for(size: int) -> int {
    (size + 2047) / 2048
}

/// The first `size` bytes of the extent at sector `location`.
pub open spec fn extent_bytes(image: Seq<u8>, location: int, size: int) -> Result<Seq<u8>, ErrorKind> {
    if size == 0 {
        Ok(Seq::empty())
    } else if in_range(image.len(), location * 2048, sectors_for(size) * 2048) {
        Ok(image.subrange(location * 2048, location * 2048 + size))
    } else {
        Err(ErrorKind::Io)
    }
}

/// Where the root directory of a volume lies.
#[derive(Debug, Clone, Copy, PartialEq, Eq, Structural)]
pub struct IsoRoot {
    /// Logical block address of the root directory.
    pub location: u32,
    /// Size of the root directory in bytes.
    pub size: u32,
}

/// The root directory of the volume on an image: sector 16 must be a
/// volume descriptor of type 1 with the identifier "CD001"; the root
/// directory record lies at byte 156 of it.
pub open spec fn iso_open(image: Seq<u8>) -> Result<IsoRoot, ErrorKind> {
    if !in_range(image.len(), 32768, 2048) {
        Err(ErrorKind::Io)
    } else if image[32768] != 1 || image.subrange(32769, 32774) != standard_identifier() {
        Err(ErrorKind::Parse)
    } else {
        Ok(IsoRoot { location: le32(image, 32926) as u32, size: le32(image, 32934) as u32 })
    }
}

/// The ISO 9660 filesystem on an image.
pub struct Iso9660Filesystem<R: SectorReader> {
    reader: R,
    root_location: u32,
    root_size: u32,
    volume_id: String,
}

impl DirectoryRecord {
    /// Whether this is a directory.
    pub fn is_directory(&self) -> (r: bool)
        ensures
            r == flags_directory(self.file_flags),
    {
        (self.file_flags & 0x02) != 0
    }

    /// Whether this is the entry of the directory itself.
    pub fn is_self(&self) -> (r: bool)
        ensures
            r == identifier_self(self.file_identifier@),
    {
        let chars = chars_of(self.file_identifier.as_str());
        let r = chars.len() == 0 || (chars.len() == 1 && chars[0] == '\0');
        proof {
            if chars@.len() == 1 && chars@[0] == '\0' {
                assert(chars@ =~= seq!['\0']);
            }
            if chars@ == seq!['\0'] {
                assert(chars@.len() == 1 && chars@[0] == '\0');
            }
        }
        r
    }

    /// Whether this is the entry of the parent directory.
    pub fn is_parent(&self) -> (r: bool)
        ensures
            r == identifier_parent(self.file_identifier@),
    {
        let chars = chars_of(self.file_identifier.as_str());
        let r = chars.len() == 1 && chars[0] == '\x01';
        proof {
            if chars@.len() == 1 && chars@[0] == '\x01' {
                assert(chars@ =~= seq!['\x01']);
            }
            if chars@ == seq!['\x01'] {
                assert(chars@.len() == 1 && chars@[0] == '\x01');
            }
        }
        r
    }

    /// The name without the version suffix and, for a directory, without
    /// trailing dots.
    pub fn clean_name(&self) -> (r: String)
        ensures
            r@ == record_name(self@),
    {
        if self.is_self() {
            return ".".to_owned();
        }
        if self.is_parent() {
            return "..".to_owned();
        }
        let chars = chars_of(self.file_identifier.as_str());
        let base: Vec<char> = match rfind_char_in(chars.as_slice(), ';') {
            Some(i) => {
                proof {
                    assert(chars@.take(i as int) =~= chars@.subrange(0, i as int));
                }
                copy_range(chars.as_slice(), 0, i)
            },
            None => chars,
        };
        if self.is_directory() {
            let trimmed = trim_end_chars(base.as_slice(), CharClass::Dot);
            string_of(trimmed.as_slice())
        } else {
            string_of(base.as_slice())
        }
    }
}

impl<R: SectorReader> Iso9660Filesystem<R> {
    /// The image that is read.
    pub closed spec fn image(&self) -> Seq<u8> {
        self.reader.image()
    }

    /// Where the root directory lies.
    pub closed spec fn root_extent(&self) -> IsoRoot {
        IsoRoot { location: self.root_location, size: self.root_size }
    }

    /// The volume identifier.
    pub closed spec fn name(&self) -> Seq<char> {
        self.volume_id@
    }

    /// The invariant: the reader is well-formed.
    pub closed spec fn inv(&self) -> bool {
        self.reader.wf()
    }

    /// Nothing but the reader's own state has changed.
    pub open spec fn same_volume(&self, before: &Self) -> bool {
        &&& self.image() == before.image()
        &&& self.root_extent() == before.root_extent()
        &&& self.name() == before.name()
    }

    /// Where a directory lies and how long it is: the root as the volume
    /// descriptor says, any other as the first record of its first sector
    /// says, or 64 KiB if there is no such record.
    pub open spec fn directory_extent(&self, entry: EntryModel) -> Result<IsoRoot, ErrorKind> {
        if entry.path == "/"@ {
            Ok(self.root_extent())
        } else if !in_range(self.image().len(), entry.location * 2048, 2048) {
            Err(ErrorKind::Io)
        } else {
            match iso_record(
                self.image().subrange(entry.location * 2048, entry.location * 2048 + 2048),
            ) {
                Some(record) => Ok(
                    IsoRoot { location: entry.location as u32, size: record.data_length },
                ),
                None => Ok(IsoRoot { location: entry.location as u32, size: 65536 }),
            }
        }
    }

    /// The listing of a directory.
    pub open spec fn listing(&self, entry: EntryModel) -> Result<Seq<EntryModel>, ErrorKind> {
        if entry.entry_type != EntryType::Directory {
            Err(ErrorKind::NotADirectory)
        } else {
            match self.directory_extent(entry) {
                Err(e) => Err(e),
                Ok(extent) => match extent_bytes(
                    self.image(),
                    extent.location as int,
                    extent.size as int,
                ) {
                    Err(e) => Err(e),
                    Ok(data) => Ok(sort_entries(iso_entries(data, 0, entry.path))),
                },
            }
        }
    }

    /// The whole content of a file.
    pub open spec fn content(&self, entry: EntryModel) -> Result<Seq<u8>, ErrorKind> {
        if entry.entry_type != EntryType::File {
            Err(ErrorKind::NotADirectory)
        } else if entry.size > usize::MAX {
            Err(ErrorKind::Io)
        } else {
            extent_bytes(self.image(), entry.location as int, entry.size as int)
        }
    }

    /// The bytes `[offset, offset + length)` of a file, cut at its size. The
    /// sectors that hold them must lie within the image.
    pub open spec fn content_range(&self, entry: EntryModel, offset: int, length: int) -> Result<
        Seq<u8>,
        ErrorKind,
    > {
        let rest = if entry.size >= offset {
            entry.size - offset
        } else {
            0
        };
        let actual = if length <= rest {
            length
        } else {
            rest
        };
        let first = offset / 2048;
        let end = (offset + actual + 2047) / 2048;
        if entry.entry_type != EntryType::File {
            Err(ErrorKind::NotADirectory)
        } else if actual == 0 {
            Ok(Seq::empty())
        } else if in_range(
            self.image().len(),
            (entry.location + first) * 2048,
            (end - first) * 2048,
        ) {
            Ok(
                self.image().subrange(
                    entry.location * 2048 + offset,
                    entry.location * 2048 + offset + actual,
                ),
            )
        } else {
            Err(ErrorKind::Io)
        }
    }

    /// Opens the filesystem on an image.
    pub fn new(reader: R) -> (r: Result<Self, FilesystemError>)
        requires
            reader.wf(),
        ensures
            match r {
                Ok(fs) => fs.inv() && fs.image() == reader.image() && iso_open(reader.image()) == Ok::<
                    IsoRoot,
                    ErrorKind,
                >(fs.root_extent()) && fs.name() == field_text(
                    reader.image().subrange(32768, 34816),
                    40,
                    72,
                ),
                Err(e) => iso_open(reader.image()) == Err::<IsoRoot, ErrorKind>(e.kind_of()),
            },
    {
        let mut reader = reader;
        let ghost image = reader.image();
        let sector = match reader.read_sector(16) {
            Ok(v) => v,
            Err(e) => {
                return Err(FilesystemError::Io(e));
            },
        };
        if sector[0] != 1 {
            return Err(
                FilesystemError::Parse(
                    message_with_number("Not a Primary Volume Descriptor (type ", sector[0] as u64),
                ),
            );
        }
        if !(sector[1] == 0x43 && sector[2] == 0x44 && sector[3] == 0x30 && sector[4] == 0x30
            && sector[5] == 0x31) {
            proof {
                let id = image.subrange(32769, 32774);
                assert(id[0] == sector@[1] && id[1] == sector@[2] && id[2] == sector@[3] && id[3]
                    == sector@[4] && id[4] == sector@[5]);
            }
            return Err(FilesystemError::Parse("Invalid ISO 9660 identifier".to_owned()));
        }
        proof {
            assert(image.subrange(32769, 32774) =~= standard_identifier());
        }
        let volume_id = PrimaryVolumeDescriptor::extract_string(
            slice_subrange(sector.as_slice(), 40, 72),
        );
        let root_location: u32 = read_le32(sector.as_slice(), 158);
        let root_size: u32 = read_le32(sector.as_slice(), 166);
        Ok(Iso9660Filesystem { reader, root_location, root_size, volume_id })
    }

    /// The entries of directory data, in listing order.
    pub fn parse_directory(data: &[u8], parent_path: &str) -> (r: Vec<FileEntry>)
        ensures
            models(r@) == sort_entries(iso_entries(data@, 0, parent_path@)),
            unexpanded(r@),
    {
        let len: usize = data.len();
        let mut entries: Vec<FileEntry> = Vec::new();
        let mut offset: usize = 0;
        proof {
            assert(models(entries@) + iso_entries(data@, 0, parent_path@) =~= iso_entries(
                data@,
                0,
                parent_path@,
            ));
        }
        while offset < len
            invariant
                len == data@.len(),
                unexpanded(entries@),
                iso_entries(data@, 0, parent_path@) == models(entries@) + iso_entries(
                    data@,
                    offset as int,
                    parent_path@,
                ),
            decreases len - offset,
        {
            let record_length: usize = data[offset] as usize;
            if record_length == 0 {
                let next: usize = match (offset / 2048 + 1).checked_mul(2048) {
                    Some(v) => v,
                    None => len,
                };
                if next >= len {
                    proof {
                        assert(models(entries@) + Seq::<EntryModel>::empty() =~= models(entries@));
                    }
                    return sort_listing(entries);
                }
                offset = next;
                continue ;
            }
            if record_length > len - offset {
                proof {
                    assert(models(entries@) + Seq::<EntryModel>::empty() =~= models(entries@));
                }
                return sort_listing(entries);
            }
            let ghost rest = iso_entries(data@, offset + record_length, parent_path@);
            match Self::parse_directory_record(
                slice_subrange(data, offset, offset + record_length),
            ) {
                Some(record) => {
                    if !record.is_self() && !record.is_parent() {
                        let name = record.clean_name();
                        let path: String = if str_eq(parent_path, "/") {
                            concat2("/", name.as_str())
                        } else {
                            concat3(parent_path, "/", name.as_str())
                        };
                        let entry = if record.is_directory() {
                            FileEntry::new_directory(name, path, record.extent_location as u64)
                        } else {
                            FileEntry::new_file(
                                name,
                                path,
                                record.data_length as u64,
                                record.extent_location as u64,
                            )
                        };
                        proof {
                            assert(models(entries@.push(entry)) =~= models(entries@).push(entry@));
                            assert(models(entries@).push(entry@) + rest =~= models(entries@) + (
                            seq![entry@] + rest));
                        }
                        entries.push(entry);
                    }
                },
                None => {},
            }
            offset = offset + record_length;
        }
        proof {
            let tail = iso_entries(data@, offset as int, parent_path@);
            assert(tail =~= Seq::<EntryModel>::empty());
            assert(models(entries@) + tail =~= models(entries@));
        }
        sort_listing(entries)
    }

    /// Parses one directory record.
    pub fn parse_directory_record(data: &[u8]) -> (r: Option<DirectoryRecord>)
        ensures
            match r {
                Some(record) => iso_record(data@) == Some(record@),
                None => iso_record(data@) is None,
            },
    {
        if data.len() < 33 {
            return None;
        }
        let length: u8 = data[0];
        if length == 0 {
            return None;
        }
        let extent_location: u32 = read_le32(data, 2);
        let data_length: u32 = read_le32(data, 10);
        let file_flags: u8 = data[25];
        let identifier_length: usize = data[32] as usize;
        if data.len() < 33 + identifier_length {
            return None;
        }
        let file_identifier = decode_utf8_lossy(slice_subrange(data, 33, 33 + identifier_length));
        Some(DirectoryRecord { length, extent_location, data_length, file_flags, file_identifier })
    }

    /// Reads the first `size` bytes of the extent at sector `location`.
    pub fn read_directory_data(&mut self, location: u32, size: u32) -> (r: Result<
        Vec<u8>,
        FilesystemError,
    >)
        requires
            old(self).inv(),
        ensures
            final(self).inv(),
            final(self).same_volume(old(self)),
            match r {
                Ok(v) => extent_bytes(old(self).image(), location as int, size as int) == Ok::<
                    Seq<u8>,
                    ErrorKind,
                >(v@),
                Err(e) => e.kind_of() == ErrorKind::Io && extent_bytes(
                    old(self).image(),
                    location as int,
                    size as int,
                ) is Err,
            },
    {
        self.read_extent(location as u64, size as u64)
    }

    /// Reads the first `size` bytes of the extent at sector `location`.
    fn read_extent(&mut self, location: u64, size: u64) -> (r: Result<Vec<u8>, FilesystemError>)
        requires
            old(self).inv(),
            size <= usize::MAX,
        ensures
            final(self).inv(),
            final(self).same_volume(old(self)),
            match r {
                Ok(v) => extent_bytes(old(self).image(), location as int, size as int) == Ok::<
                    Seq<u8>,
                    ErrorKind,
                >(v@),
                Err(e) => e.kind_of() == ErrorKind::Io && extent_bytes(
                    old(self).image(),
                    location as int,
                    size as int,
                ) is Err,
            },
    {
        if size == 0 {
            return Ok(Vec::new());
        }
        proof {
            self.reader.image_fits();
        }
        let padded: u64 = match size.checked_add(2047) {
            Some(v) => v,
            None => {
                return Err(FilesystemError::Io(ReadError::UnexpectedEof));
            },
        };
        let count: u64 = padded / 2048;
        match self.reader.read_sectors(location, count) {
            Ok(data) => {
                let out = copy_bytes(data.as_slice(), 0, size as usize);
                proof {
                    assert(out@ =~= old(self).image().subrange(
                        location * 2048,
                        location * 2048 + size,
                    ));
                }
                Ok(out)
            },
            Err(e) => Err(FilesystemError::Io(e)),
        }
    }
}

impl<R: SectorReader> Filesystem for Iso9660Filesystem<R> {
    open spec fn wf(&self) -> bool {
        self.inv()
    }

    fn root(&mut self) -> (r: Result<FileEntry, FilesystemError>)
        ensures
            final(self).same_volume(old(self)),
            r matches Ok(e) && e@ == (EntryModel {
                name: Seq::empty(),
                path: "/"@,
                entry_type: EntryType::Directory,
                size: old(self).root_extent().size as u64,
                location: old(self).root_extent().location as u64,
            }),
    {
        let mut root = FileEntry::root(self.root_location as u64);
        root.size = self.root_size as u64;
        Ok(root)
    }

    fn list_directory(&mut self, entry: &FileEntry) -> (r: Result<Vec<FileEntry>, FilesystemError>)
        ensures
            final(self).same_volume(old(self)),
            match r {
                Ok(v) => old(self).listing(entry@) == Ok::<Seq<EntryModel>, ErrorKind>(models(v@))
                    && unexpanded(v@),
                Err(e) => old(self).listing(entry@) == Err::<Seq<EntryModel>, ErrorKind>(e.kind_of()),
            },
    {
        if entry.entry_type != EntryType::Directory {
            return Err(FilesystemError::NotADirectory(entry.path.clone()));
        }
        let location: u32;
        let size: u32;
        if str_eq(entry.path.as_str(), "/") {
            location = self.root_location;
            size = self.root_size;
        } else {
            let sector = match self.reader.read_sector(entry.location) {
                Ok(v) => v,
                Err(e) => {
                    return Err(FilesystemError::Io(e));
                },
            };
            location = #[verifier::truncate]
            (entry.location as u32);
            size = match Self::parse_directory_record(sector.as_slice()) {
                Some(record) => record.data_length,
                None => FALLBACK_DIRECTORY_SIZE,
            };
        }
        let data = match self.read_directory_data(location, size) {
            Ok(v) => v,
            Err(e) => {
                return Err(e);
            },
        };
        Ok(Self::parse_directory(data.as_slice(), entry.path.as_str()))
    }

    fn read_file(&mut self, entry: &FileEntry) -> (r: Result<Vec<u8>, FilesystemError>)
        ensures
            final(self).same_volume(old(self)),
            match r {
                Ok(v) => old(self).content(entry@) == Ok::<Seq<u8>, ErrorKind>(v@),
                Err(e) => old(self).content(entry@) == Err::<Seq<u8>, ErrorKind>(e.kind_of()),
            },
    {
        if entry.entry_type != EntryType::File {
            return Err(
                FilesystemError::NotADirectory(concat2(entry.path.as_str(), " is not a file")),
            );
        }
        if entry.size > usize::MAX as u64 {
            return Err(FilesystemError::Io(ReadError::UnexpectedEof));
        }
        self.read_extent(entry.location, entry.size)
    }

    fn read_file_range(&mut self, entry: &FileEntry, offset: u64, length: usize) -> (r: Result<
        Vec<u8>,
        FilesystemError,
    >)
        ensures
            final(self).same_volume(old(self)),
            match r {
                Ok(v) => old(self).content_range(entry@, offset as int, length as int) == Ok::<
                    Seq<u8>,
                    ErrorKind,
                >(v@),
                Err(e) => old(self).content_range(entry@, offset as int, length as int) == Err::<
                    Seq<u8>,
                    ErrorKind,
                >(e.kind_of()),
            },
    {
        if entry.entry_type != EntryType::File {
            return Err(
                FilesystemError::NotADirectory(concat2(entry.path.as_str(), " is not a file")),
            );
        }
        proof {
            self.reader.image_fits();
        }
        let rest: u64 = if entry.size >= offset {
            entry.size - offset
        } else {
            0
        };
        let actual: usize = if length as u64 <= rest {
            length
        } else {
            rest as usize
        };
        if actual == 0 {
            return Ok(Vec::new());
        }
        let eof = FilesystemError::Io(ReadError::UnexpectedEof);
        let first: u64 = offset / 2048;
        let end: u64 = ((offset as u128 + actual as u128 + 2047) / 2048) as u64;
        let start_lba: u64 = match entry.location.checked_add(first) {
            Some(v) => v,
            None => {
                return Err(eof);
            },
        };
        match self.reader.read_sectors(start_lba, end - first) {
            Ok(data) => {
                let inner: usize = (offset % 2048) as usize;
                let total: usize = data.len();
                assert(inner + actual <= total);
                let out = copy_bytes(data.as_slice(), inner, inner + actual);
                proof {
                    assert(out@ =~= old(self).image().subrange(
                        entry.location * 2048 + offset,
                        entry.location * 2048 + offset + actual,
                    ));
                }
                Ok(out)
            },
            Err(e) => Err(FilesystemError::Io(e)),
        }
    }

    fn volume_name(&self) -> (r: Option<&str>)
        ensures
            match r {
                Some(s) => s@ == self.name() && self.name().len() > 0,
                None => self.name().len() == 0,
            },
    {
        if self.volume_id.as_str().is_empty() {
            None
        } else {
            Some(self.volume_id.as_str())
        }
    }
}

} // verus!
