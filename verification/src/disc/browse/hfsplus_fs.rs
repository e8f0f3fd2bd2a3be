//! The extended hierarchical filesystem: directory listing and file reading.
//!
//! A directory is listed by walking the leaves of the catalog from the first
//! leaf on and keeping the records whose key names the directory as parent.
//! The walk visits at most 10,000 nodes. A file is read from its first
//! extent alone.

use vstd::prelude::*;
use crate::bytes::{be16, be32, be64, read_be16, read_be32, read_be64};
use crate::disc::browse::entry::{models, unexpanded, EntryModel, EntryType, FileEntry};
use crate::disc::browse::filesystem::{ErrorKind, Filesystem, FilesystemError};
use crate::disc::browse::order::{sort_entries, sort_listing};
use crate::disc::browse::reader::{in_range, SectorReader};
use crate::disc::btree::{
    be16_units, is_leaf, next_node, node_bytes, node_is_leaf, node_link, node_record_count,
    read_node, read_units, record_count, record_start, record_start_at, repeated,
    MAX_CATALOG_NODES,
};
use crate::disc::reader::DiscInfo;
use crate::text::{concat2, concat3, decode_utf16, message_with_hex, message_with_number, str_eq, utf16_text};

verus! {

/// Record type of a folder record.
pub const HFSPLUS_FOLDER_RECORD: u16 = 1;

/// Record type of a file record.
pub const HFSPLUS_FILE_RECORD: u16 = 2;

/// Record type of a folder thread record.
pub const HFSPLUS_FOLDER_THREAD_RECORD: u16 = 3;

/// Record type of a file thread record.
pub const HFSPLUS_FILE_THREAD_RECORD: u16 = 4;

/// Catalog node id of the root folder.
pub const HFSPLUS_ROOT_FOLDER_ID: u32 = 2;

/// An extent: a run of allocation blocks.
#[derive(Debug, Clone, Copy, PartialEq, Eq, Structural)]
pub struct HfsPlusExtent {
    /// First allocation block.
    pub start_block: u32,
    /// Number of allocation blocks.
    pub block_count: u32,
}

/// The data fork of a file: its logical size and its first extent.
#[derive(Debug, Clone, Copy, PartialEq, Eq, Structural)]
pub struct HfsPlusForkData {
    /// Size of the fork in bytes.
    pub logical_size: u64,
    /// First extent of the fork.
    pub extent: HfsPlusExtent,
}

/// Where the catalog of a volume lies and how it is laid out.
#[derive(Debug, Clone, Copy, PartialEq, Eq, Structural)]
pub struct PlusLayout {
    /// Size of an allocation block in bytes.
    pub block_size: u32,
    /// First allocation block of the catalog file.
    pub catalog_start_block: u32,
    /// Number of allocation blocks of the catalog file.
    pub catalog_block_count: u32,
    /// Size of a catalog node in bytes.
    pub node_size: u16,
    /// Index of the first leaf node.
    pub first_leaf_node: u32,
}

/// The path of an entry named `name` in the directory `parent_path`.
pub open spec fn child_path(parent_path: Seq<char>, name: Seq<char>) -> Seq<char> {
    if parent_path == "/"@ {
        "/"@ + name
    } else {
        parent_path + "/"@ + name
    }
}

/// The name stored as `count` UTF-16 units from `at` on; empty where the
/// units do not decode.
pub open spec fn unit_name(data: Seq<u8>, at: int, count: int) -> Seq<char> {
    match utf16_text(be16_units(data, at, count)) {
        Some(name) => name,
        None => Seq::empty(),
    }
}

/// The entry that record `i` of a leaf gives for the directory `parent`:
/// the key must name `parent` and a non-empty name, and the payload must be
/// a folder record (type 1, id at offset 8) or a file record (type 2, id at
/// offset 8, logical size of the data fork at offset 88) that lies within
/// the node.
pub open spec fn plus_record_entry(
    data: Seq<u8>,
    node_size: int,
    i: int,
    parent: u32,
    parent_path: Seq<char>,
) -> Option<EntryModel> {
    match record_start(data, node_size, i) {
        None => None,
        Some(at) => {
            if at + 10 > data.len() || be16(data, at) < 6 || be32(data, at + 2) != parent {
                None
            } else {
                let count = be16(data, at + 6);
                let payload = at + 2 + be16(data, at);
                if count == 0 || at + 8 + 2 * count > data.len() {
                    None
                } else if unit_name(data, at + 8, count).len() == 0 || payload + 4 > data.len() {
                    None
                } else {
                    let name = unit_name(data, at + 8, count);
                    if be16(data, payload) == 1 && payload + 12 <= data.len() {
                        Some(
                            EntryModel {
                                name,
                                path: child_path(parent_path, name),
                                entry_type: EntryType::Directory,
                                size: 0,
                                location: be32(data, payload + 8) as u64,
                            },
                        )
                    } else if be16(data, payload) == 2 && payload + 96 <= data.len() {
                        Some(
                            EntryModel {
                                name,
                                path: child_path(parent_path, name),
                                entry_type: EntryType::File,
                                size: be64(data, payload + 88) as u64,
                                location: be32(data, payload + 8) as u64,
                            },
                        )
                    } else {
                        None
                    }
                }
            }
        },
    }
}

/// The entries that the first `count` records of a leaf give.
pub open spec fn plus_node_entries(
    data: Seq<u8>,
    node_size: int,
    count: int,
    parent: u32,
    parent_path: Seq<char>,
) -> Seq<EntryModel>
    decreases count,
{
    if count <= 0 {
        Seq::empty()
    } else {
        let before = plus_node_entries(data, node_size, count - 1, parent, parent_path);
        match plus_record_entry(data, node_size, count - 1, parent, parent_path) {
            Some(e) => before.push(e),
            None => before,
        }
    }
}

/// The entries found by walking the leaf list from `node`, visiting at most
/// `budget` nodes. A node that cannot be read fails the walk.
pub open spec fn plus_scan(
    image: Seq<u8>,
    catalog_offset: int,
    node_size: int,
    node: int,
    budget: nat,
    parent: u32,
    parent_path: Seq<char>,
) -> Result<Seq<EntryModel>, ErrorKind>
    decreases budget,
{
    if node == 0 || budget == 0 {
        Ok(Seq::empty())
    } else if node_size < 12 {
        Err(ErrorKind::InvalidData)
    } else {
        match node_bytes(image, catalog_offset, node_size, node) {
            None => Err(ErrorKind::Io),
            Some(data) => {
                match plus_scan(
                    image,
                    catalog_offset,
                    node_size,
                    next_node(data),
                    (budget - 1) as nat,
                    parent,
                    parent_path,
                ) {
                    Err(e) => Err(e),
                    Ok(rest) => {
                        if is_leaf(data) {
                            Ok(
                                plus_node_entries(
                                    data,
                                    node_size,
                                    record_count(data),
                                    parent,
                                    parent_path,
                                ) + rest,
                            )
                        } else {
                            Ok(rest)
                        }
                    },
                }
            },
        }
    }
}

/// A node whose link points back at itself does not hang the walk: the
/// walk ends when its budget is spent and returns what it collected, the
/// records of that node once for every visit.
pub proof fn lemma_plus_self_cycle(
    image: Seq<u8>,
    catalog_offset: int,
    node_size: int,
    node: int,
    budget: nat,
    parent: u32,
    parent_path: Seq<char>,
)
    requires
        node != 0,
        node_bytes(image, catalog_offset, node_size, node) is Some,
        next_node(node_bytes(image, catalog_offset, node_size, node)->0) == node,
    ensures
        plus_scan(image, catalog_offset, node_size, node, budget, parent, parent_path) == Ok::<
            Seq<EntryModel>,
            ErrorKind,
        >(
            repeated(
                if is_leaf(node_bytes(image, catalog_offset, node_size, node)->0) {
                    plus_node_entries(
                        node_bytes(image, catalog_offset, node_size, node)->0,
                        node_size,
                        record_count(node_bytes(image, catalog_offset, node_size, node)->0),
                        parent,
                        parent_path,
                    )
                } else {
                    Seq::empty()
                },
                budget,
            ),
        ),
    decreases budget,
{
    if budget > 0 {
        lemma_plus_self_cycle(
            image,
            catalog_offset,
            node_size,
            node,
            (budget - 1) as nat,
            parent,
            parent_path,
        );
        let data = node_bytes(image, catalog_offset, node_size, node)->0;
        if !is_leaf(data) {
            assert(Seq::<EntryModel>::empty() + repeated(
                Seq::<EntryModel>::empty(),
                (budget - 1) as nat,
            ) =~= repeated(Seq::<EntryModel>::empty(), (budget - 1) as nat));
        }
    }
}

/// The data fork that record `i` of a leaf gives for the file `target`:
/// the payload must be a file record with that id, and its fork data, up to
/// the first extent, must lie within the node.
pub open spec fn plus_record_fork(data: Seq<u8>, node_size: int, i: int, target: u32) -> Option<
    HfsPlusForkData,
> {
    match record_start(data, node_size, i) {
        None => None,
        Some(at) => {
            let payload = at + 2 + be16(data, at);
            if at + 10 > data.len() || be16(data, at) < 6 || payload + 112 > data.len() {
                None
            } else if be16(data, payload) != 2 || be32(data, payload + 8) != target {
                None
            } else {
                Some(
                    HfsPlusForkData {
                        logical_size: be64(data, payload + 88) as u64,
                        extent: HfsPlusExtent {
                            start_block: be32(data, payload + 104) as u32,
                            block_count: be32(data, payload + 108) as u32,
                        },
                    },
                )
            }
        },
    }
}

/// The first fork that the records `from..count` of a leaf give for `target`.
pub open spec fn plus_first_fork(data: Seq<u8>, node_size: int, from: int, count: int, target: u32) -> Option<
    HfsPlusForkData,
>
    decreases count - from,
{
    if from >= count {
        None
    } else {
        match plus_record_fork(data, node_size, from, target) {
            Some(fork) => Some(fork),
            None => plus_first_fork(data, node_size, from + 1, count, target),
        }
    }
}

/// The data fork of the file `target`, found by walking the leaf list from
/// `node` and visiting at most `budget` nodes.
pub open spec fn plus_fork_scan(
    image: Seq<u8>,
    catalog_offset: int,
    node_size: int,
    node: int,
    budget: nat,
    target: u32,
) -> Result<HfsPlusForkData, ErrorKind>
    decreases budget,
{
    if node == 0 || budget == 0 {
        Err(ErrorKind::NotFound)
    } else if node_size < 12 {
        Err(ErrorKind::InvalidData)
    } else {
        match node_bytes(image, catalog_offset, node_size, node) {
            None => Err(ErrorKind::Io),
            Some(data) => {
                if is_leaf(data) && plus_first_fork(data, node_size, 0, record_count(data), target)
                    is Some {
                    Ok(plus_first_fork(data, node_size, 0, record_count(data), target)->0)
                } else {
                    plus_fork_scan(
                        image,
                        catalog_offset,
                        node_size,
                        next_node(data),
                        (budget - 1) as nat,
                        target,
                    )
                }
            },
        }
    }
}

/// The layout of the volume at `partition_offset`: the volume header at
/// byte 1024 must carry one of the two signatures, and the catalog must
/// begin with a header node (its kind byte is 1).
pub open spec fn plus_open(image: Seq<u8>, partition_offset: int) -> Result<PlusLayout, ErrorKind> {
    let at = partition_offset + 1024;
    if !in_range(image.len(), at, 512) {
        Err(ErrorKind::Io)
    } else if be16(image, at) != 0x482B && be16(image, at) != 0x4858 {
        Err(ErrorKind::Parse)
    } else {
        let catalog = partition_offset + be32(image, at + 128) * be32(image, at + 40);
        if !in_range(image.len(), catalog, 256) {
            Err(ErrorKind::Io)
        } else if image[catalog + 8] != 1 {
            Err(ErrorKind::Parse)
        } else {
            Ok(
                PlusLayout {
                    block_size: be32(image, at + 40) as u32,
                    catalog_start_block: be32(image, at + 128) as u32,
                    catalog_block_count: be32(image, at + 132) as u32,
                    node_size: be16(image, catalog + 32) as u16,
                    first_leaf_node: be32(image, catalog + 24) as u32,
                },
            )
        }
    }
}

/// The volume name that a disc-info record gives to an extended volume.
pub open spec fn plus_volume_name(info: &DiscInfo) -> Seq<char> {
    match (info.hfsplus_header, info.volume_label) {
        (Some(_), Some(label)) => label@,
        _ => "HFS+ Volume"@,
    }
}

/// The extended hierarchical filesystem on an image.
pub struct HfsPlusFilesystem<R: SectorReader> {
    reader: R,
    partition_offset: u64,
    block_size: u32,
    catalog_start_block: u32,
    catalog_block_count: u32,
    node_size: u16,
    first_leaf_node: u32,
    volume_name: String,
}

impl<R: SectorReader> HfsPlusFilesystem<R> {
    /// The image that is read.
    pub closed spec fn image(&self) -> Seq<u8> {
        self.reader.image()
    }

    /// The offset of the partition.
    pub closed spec fn partition(&self) -> int {
        self.partition_offset as int
    }

    /// The layout of the catalog.
    pub closed spec fn layout(&self) -> PlusLayout {
        PlusLayout {
            block_size: self.block_size,
            catalog_start_block: self.catalog_start_block,
            catalog_block_count: self.catalog_block_count,
            node_size: self.node_size,
            first_leaf_node: self.first_leaf_node,
        }
    }

    /// The volume name.
    pub closed spec fn name(&self) -> Seq<char> {
        self.volume_name@
    }

    /// The invariant: the reader is well-formed.
    pub closed spec fn inv(&self) -> bool {
        self.reader.wf()
    }

    /// Offset of the catalog in the image.
    pub open spec fn catalog_at(&self) -> int {
        self.partition() + self.layout().catalog_start_block * self.layout().block_size
    }

    /// The raw listing of the directory `parent`, in catalog order.
    pub open spec fn raw_listing(&self, parent: u32, parent_path: Seq<char>) -> Result<
        Seq<EntryModel>,
        ErrorKind,
    > {
        plus_scan(
            self.image(),
            self.catalog_at(),
            self.layout().node_size as int,
            self.layout().first_leaf_node as int,
            MAX_CATALOG_NODES as nat,
            parent,
            parent_path,
        )
    }

    /// The id of the directory that an entry stands for: the root folder
    /// for the path "/", else the entry's location.
    pub open spec fn directory_id(entry: EntryModel) -> u32 {
        if entry.path == "/"@ {
            2
        } else {
            entry.location as u32
        }
    }

    /// The listing of a directory.
    pub open spec fn listing(&self, entry: EntryModel) -> Result<Seq<EntryModel>, ErrorKind> {
        if entry.entry_type != EntryType::Directory {
            Err(ErrorKind::NotADirectory)
        } else {
            match self.raw_listing(Self::directory_id(entry), entry.path) {
                Ok(raw) => Ok(sort_entries(raw)),
                Err(e) => Err(e),
            }
        }
    }

    /// The data fork of the file with the given id.
    pub open spec fn fork_of(&self, target: u32) -> Result<HfsPlusForkData, ErrorKind> {
        plus_fork_scan(
            self.image(),
            self.catalog_at(),
            self.layout().node_size as int,
            self.layout().first_leaf_node as int,
            MAX_CATALOG_NODES as nat,
            target,
        )
    }

    /// Where the first extent of a fork begins in the image.
    pub open spec fn extent_at(&self, fork: HfsPlusForkData) -> int {
        self.partition() + fork.extent.start_block * self.layout().block_size
    }

    /// The bytes `[offset, offset + length)` of a file, cut at its logical
    /// size and taken from its first extent.
    pub open spec fn content_range(&self, entry: EntryModel, offset: int, length: int) -> Result<
        Seq<u8>,
        ErrorKind,
    > {
        if entry.entry_type != EntryType::File {
            Err(ErrorKind::NotADirectory)
        } else {
            match self.fork_of(entry.location as u32) {
                Err(e) => Err(e),
                Ok(fork) => {
                    let rest = if fork.logical_size >= offset {
                        fork.logical_size - offset
                    } else {
                        0
                    };
                    let actual = if length <= rest {
                        length
                    } else {
                        rest
                    };
                    if fork.extent.block_count == 0 || actual == 0 {
                        Ok(Seq::empty())
                    } else if in_range(self.image().len(), self.extent_at(fork) + offset, actual) {
                        Ok(
                            self.image().subrange(
                                self.extent_at(fork) + offset,
                                self.extent_at(fork) + offset + actual,
                            ),
                        )
                    } else {
                        Err(ErrorKind::Io)
                    }
                },
            }
        }
    }

    /// The whole content of a file.
    pub open spec fn content(&self, entry: EntryModel) -> Result<Seq<u8>, ErrorKind> {
        if entry.entry_type != EntryType::File {
            Err(ErrorKind::NotADirectory)
        } else {
            match self.fork_of(entry.location as u32) {
                Err(e) => Err(e),
                Ok(fork) => self.content_range(entry, 0, fork.logical_size as int),
            }
        }
    }

    /// Opens the filesystem of the volume at `partition_offset`.
    pub fn new(reader: R, partition_offset: u64, disc_info: &DiscInfo) -> (r: Result<
        Self,
        FilesystemError,
    >)
        requires
            reader.wf(),
        ensures
            match r {
                Ok(fs) => fs.inv() && fs.image() == reader.image() && fs.partition()
                    == partition_offset && plus_open(reader.image(), partition_offset as int) == Ok::<
                    PlusLayout,
                    ErrorKind,
                >(fs.layout()) && fs.name() == plus_volume_name(disc_info),
                Err(e) => plus_open(reader.image(), partition_offset as int) == Err::<
                    PlusLayout,
                    ErrorKind,
                >(e.kind_of()),
            },
    {
        let mut reader = reader;
        let ghost image = reader.image();
        proof {
            reader.image_fits();
        }
        let header_offset: u64 = match partition_offset.checked_add(1024) {
            Some(v) => v,
            None => {
                return Err(
                    FilesystemError::Io(crate::disc::browse::reader::ReadError::UnexpectedEof),
                );
            },
        };
        let header = match reader.read_bytes(header_offset, 512) {
            Ok(v) => v,
            Err(e) => {
                return Err(FilesystemError::Io(e));
            },
        };
        let signature: u16 = read_be16(header.as_slice(), 0);
        if signature != 0x482B && signature != 0x4858 {
            return Err(FilesystemError::Parse(message_with_hex("Invalid HFS+ signature: ", signature)));
        }
        let block_size: u32 = read_be32(header.as_slice(), 40);
        let catalog_start_block: u32 = read_be32(header.as_slice(), 128);
        let catalog_block_count: u32 = read_be32(header.as_slice(), 132);
        assert(catalog_start_block * block_size <= 0xffff_ffff * 0xffff_ffff) by (nonlinear_arith)
            requires
                catalog_start_block <= 0xffff_ffff,
                block_size <= 0xffff_ffff,
        ;
        let span: u64 = catalog_start_block as u64 * block_size as u64;
        let catalog_offset: u64 = match partition_offset.checked_add(span) {
            Some(v) => v,
            None => {
                return Err(
                    FilesystemError::Io(crate::disc::browse::reader::ReadError::UnexpectedEof),
                );
            },
        };
        let tree = match reader.read_bytes(catalog_offset, 256) {
            Ok(v) => v,
            Err(e) => {
                return Err(FilesystemError::Io(e));
            },
        };
        if tree[8] != 1 {
            return Err(
                FilesystemError::Parse(
                    message_with_number("Expected B-tree header node, got kind ", tree[8] as u64),
                ),
            );
        }
        let first_leaf_node: u32 = read_be32(tree.as_slice(), 24);
        let node_size: u16 = read_be16(tree.as_slice(), 32);
        let volume_name: String = match (&disc_info.hfsplus_header, &disc_info.volume_label) {
            (Some(_), Some(label)) => label.clone(),
            _ => "HFS+ Volume".to_owned(),
        };
        Ok(
            HfsPlusFilesystem {
                reader,
                partition_offset,
                block_size,
                catalog_start_block,
                catalog_block_count,
                node_size,
                first_leaf_node,
                volume_name,
            },
        )
    }

    /// Offset of the catalog in the image, if it fits in 64 bits.
    pub fn catalog_offset(&self) -> (r: Option<u64>)
        ensures
            match r {
                Some(v) => v == self.catalog_at(),
                None => self.catalog_at() > u64::MAX,
            },
    {
        assert(self.catalog_start_block * self.block_size <= 0xffff_ffff * 0xffff_ffff)
            by (nonlinear_arith)
            requires
                self.catalog_start_block <= 0xffff_ffff,
                self.block_size <= 0xffff_ffff,
        ;
        self.partition_offset.checked_add(self.catalog_start_block as u64 * self.block_size as u64)
    }

    /// Lists the entries of the directory with the given id, in listing
    /// order.
    pub fn list_directory_by_cnid(&mut self, parent_cnid: u32, parent_path: &str) -> (r: Result<
        Vec<FileEntry>,
        FilesystemError,
    >)
        requires
            old(self).inv(),
        ensures
            final(self).inv(),
            final(self).image() == old(self).image(),
            final(self).layout() == old(self).layout(),
            final(self).partition() == old(self).partition(),
            final(self).name() == old(self).name(),
            match r {
                Ok(v) => old(self).raw_listing(parent_cnid, parent_path@) is Ok && models(v@)
                    == sort_entries(old(self).raw_listing(parent_cnid, parent_path@)->Ok_0)
                    && unexpanded(v@),
                Err(e) => old(self).raw_listing(parent_cnid, parent_path@) == Err::<
                    Seq<EntryModel>,
                    ErrorKind,
                >(e.kind_of()),
            },
    {
        let ghost image = self.image();
        let ghost whole = self.raw_listing(parent_cnid, parent_path@);
        let mut entries: Vec<FileEntry> = Vec::new();
        let mut current: u32 = self.first_leaf_node;
        let mut attempts: u32 = 0;
        proof {
            self.reader.image_fits();
            assert(models(entries@) =~= Seq::<EntryModel>::empty());
        }
        let catalog: u64 = match self.catalog_offset() {
            Some(v) => v,
            None => {
                if current == 0 {
                    return Ok(entries);
                } else if self.node_size < 12 {
                    return Err(FilesystemError::InvalidData("B-tree node too small".to_owned()));
                } else {
                    return Err(
                        FilesystemError::Io(crate::disc::browse::reader::ReadError::UnexpectedEof),
                    );
                }
            },
        };
        while current != 0 && attempts < MAX_CATALOG_NODES
            invariant
                attempts <= MAX_CATALOG_NODES,
                self.inv(),
                self.image() == image,
                self.layout() == old(self).layout(),
                self.partition() == old(self).partition(),
                self.name() == old(self).name(),
                image == old(self).image(),
                catalog == self.catalog_at(),
                whole == old(self).raw_listing(parent_cnid, parent_path@),
                unexpanded(entries@),
                whole == match plus_scan(
                    image,
                    catalog as int,
                    self.layout().node_size as int,
                    current as int,
                    (MAX_CATALOG_NODES - attempts) as nat,
                    parent_cnid,
                    parent_path@,
                ) {
                    Ok(rest) => Ok::<Seq<EntryModel>, ErrorKind>(models(entries@) + rest),
                    Err(e) => Err(e),
                },
            decreases MAX_CATALOG_NODES - attempts,
        {
            attempts = attempts + 1;
            let node = match read_node(&mut self.reader, catalog, self.node_size, current) {
                Ok(v) => v,
                Err(e) => {
                    return Err(e);
                },
            };
            let next: u32 = node_link(node.as_slice());
            let ghost before = models(entries@);
            let ghost held = entries@;
            if node_is_leaf(node.as_slice()) {
                let count: u16 = node_record_count(node.as_slice());
                Self::process_leaf_node(
                    node.as_slice(),
                    count,
                    self.node_size,
                    parent_cnid,
                    parent_path,
                    &mut entries,
                );
                proof {
                    let n = held.len() as int;
                    assert forall|k: int| 0 <= k < entries@.len() implies (
                    #[trigger] entries@[k]).children is None by {
                        if k < n {
                            assert(entries@[k] == entries@.take(n)[k]);
                        } else {
                            assert(entries@[k] == entries@.skip(n)[k - n]);
                        }
                    }
                }
            }
            proof {
                let size = self.layout().node_size as int;
                let rest = plus_scan(
                    image,
                    catalog as int,
                    size,
                    next as int,
                    (MAX_CATALOG_NODES - attempts) as nat,
                    parent_cnid,
                    parent_path@,
                );
                let own = if is_leaf(node@) {
                    plus_node_entries(node@, size, record_count(node@), parent_cnid, parent_path@)
                } else {
                    Seq::<EntryModel>::empty()
                };
                assert(models(entries@) =~= before + own);
                assert(plus_scan(
                    image,
                    catalog as int,
                    size,
                    current as int,
                    (MAX_CATALOG_NODES - attempts + 1) as nat,
                    parent_cnid,
                    parent_path@,
                ) == match rest {
                    Ok(r) => Ok::<Seq<EntryModel>, ErrorKind>(own + r),
                    Err(e) => Err(e),
                }) by {
                    if rest is Ok && !is_leaf(node@) {
                        assert(own + rest->Ok_0 =~= rest->Ok_0);
                    }
                }
                if rest is Ok {
                    assert((before + own) + rest->Ok_0 =~= before + (own + rest->Ok_0));
                }
            }
            current = next;
        }
        proof {
            assert(models(entries@) + Seq::<EntryModel>::empty() =~= models(entries@));
        }
        Ok(sort_listing(entries))
    }

    /// Appends the entries that the records of a leaf give for a directory.
    pub fn process_leaf_node(
        node_data: &[u8],
        num_records: u16,
        node_size: u16,
        parent_cnid: u32,
        parent_path: &str,
        entries: &mut Vec<FileEntry>,
    )
        ensures
            old(entries)@.len() <= final(entries)@.len(),
            final(entries)@.take(old(entries)@.len() as int) == old(entries)@,
            unexpanded(final(entries)@.skip(old(entries)@.len() as int)),
            models(final(entries)@) == models(old(entries)@) + plus_node_entries(
                node_data@,
                node_size as int,
                num_records as int,
                parent_cnid,
                parent_path@,
            ),
    {
        let ghost start = models(entries@);
        let ghost kept = entries@.len() as int;
        let mut i: u16 = 0;
        proof {
            assert(start + Seq::<EntryModel>::empty() =~= start);
            assert(entries@.take(kept) =~= entries@);
        }
        while i < num_records
            invariant
                i <= num_records,
                kept == old(entries)@.len(),
                kept <= entries@.len(),
                entries@.take(kept) == old(entries)@,
                unexpanded(entries@.skip(kept)),
                start == models(old(entries)@),
                models(entries@) == start + plus_node_entries(
                    node_data@,
                    node_size as int,
                    i as int,
                    parent_cnid,
                    parent_path@,
                ),
            decreases num_records - i,
        {
            match Self::record_entry(node_data, node_size, i, parent_cnid, parent_path) {
                Some(entry) => {
                    proof {
                        let found = plus_node_entries(
                            node_data@,
                            node_size as int,
                            i as int,
                            parent_cnid,
                            parent_path@,
                        );
                        assert(models(entries@.push(entry)) =~= models(entries@).push(entry@));
                        assert((start + found).push(entry@) =~= start + found.push(entry@));
                        assert(entries@.push(entry).take(kept) =~= entries@.take(kept));
                        assert(entries@.push(entry).skip(kept) =~= entries@.skip(kept).push(entry));
                    }
                    entries.push(entry);
                },
                None => {},
            }
            i = i + 1;
        }
    }

    /// The entry that one record of a leaf gives for a directory.
    pub fn record_entry(
        node_data: &[u8],
        node_size: u16,
        i: u16,
        parent_cnid: u32,
        parent_path: &str,
    ) -> (r: Option<FileEntry>)
        ensures
            match r {
                Some(e) => plus_record_entry(
                    node_data@,
                    node_size as int,
                    i as int,
                    parent_cnid,
                    parent_path@,
                ) == Some(e@) && e.children is None,
                None => plus_record_entry(
                    node_data@,
                    node_size as int,
                    i as int,
                    parent_cnid,
                    parent_path@,
                ) is None,
            },
    {
        let len: usize = node_data.len();
        let at: usize = match record_start_at(node_data, node_size, i) {
            Some(v) => v,
            None => {
                return None;
            },
        };
        if at + 10 > len {
            return None;
        }
        let key_length: usize = read_be16(node_data, at) as usize;
        if key_length < 6 {
            return None;
        }
        if read_be32(node_data, at + 2) != parent_cnid {
            return None;
        }
        let count: usize = read_be16(node_data, at + 6) as usize;
        if count == 0 {
            return None;
        }
        if at + 8 + 2 * count > len {
            return None;
        }
        let name: String = Self::decode_utf16_be(node_data, at + 8, count);
        if name.as_str().is_empty() {
            return None;
        }
        let payload: usize = at + 2 + key_length;
        if payload + 4 > len {
            return None;
        }
        let record_type: u16 = read_be16(node_data, payload);
        let path: String = if str_eq(parent_path, "/") {
            concat2("/", name.as_str())
        } else {
            concat3(parent_path, "/", name.as_str())
        };
        if record_type == HFSPLUS_FOLDER_RECORD {
            if payload + 12 > len {
                return None;
            }
            let cnid: u32 = read_be32(node_data, payload + 8);
            Some(FileEntry::new_directory(name, path, cnid as u64))
        } else if record_type == HFSPLUS_FILE_RECORD {
            if payload + 96 > len {
                return None;
            }
            let cnid: u32 = read_be32(node_data, payload + 8);
            let size: u64 = read_be64(node_data, payload + 88);
            Some(FileEntry::new_file(name, path, size, cnid as u64))
        } else {
            None
        }
    }

    /// Decodes a name of `count` big-endian UTF-16 units; a name that does
    /// not decode is empty.
    pub fn decode_utf16_be(data: &[u8], at: usize, count: usize) -> (r: String)
        requires
            at + 2 * count <= data@.len(),
        ensures
            r@ == unit_name(data@, at as int, count as int),
    {
        let units = read_units(data, at, count);
        match decode_utf16(units.as_slice()) {
            Some(name) => name,
            None => String::new(),
        }
    }

    /// Finds the file record with the given id and returns its data fork.
    pub fn find_file_fork(&mut self, cnid: u32) -> (r: Result<HfsPlusForkData, FilesystemError>)
        requires
            old(self).inv(),
        ensures
            final(self).inv(),
            final(self).image() == old(self).image(),
            final(self).layout() == old(self).layout(),
            final(self).partition() == old(self).partition(),
            final(self).name() == old(self).name(),
            match r {
                Ok(fork) => old(self).fork_of(cnid) == Ok::<HfsPlusForkData, ErrorKind>(fork),
                Err(e) => old(self).fork_of(cnid) == Err::<HfsPlusForkData, ErrorKind>(e.kind_of()),
            },
    {
        let ghost image = self.image();
        let mut current: u32 = self.first_leaf_node;
        let mut attempts: u32 = 0;
        proof {
            self.reader.image_fits();
        }
        let catalog: u64 = match self.catalog_offset() {
            Some(v) => v,
            None => {
                if current == 0 {
                    return Err(
                        FilesystemError::NotFound(message_with_number("File CNID ", cnid as u64)),
                    );
                } else if self.node_size < 12 {
                    return Err(FilesystemError::InvalidData("B-tree node too small".to_owned()));
                } else {
                    return Err(
                        FilesystemError::Io(crate::disc::browse::reader::ReadError::UnexpectedEof),
                    );
                }
            },
        };
        while current != 0 && attempts < MAX_CATALOG_NODES
            invariant
                attempts <= MAX_CATALOG_NODES,
                self.inv(),
                self.image() == image,
                self.layout() == old(self).layout(),
                self.partition() == old(self).partition(),
                self.name() == old(self).name(),
                image == old(self).image(),
                catalog == self.catalog_at(),
                old(self).fork_of(cnid) == plus_fork_scan(
                    image,
                    catalog as int,
                    self.layout().node_size as int,
                    current as int,
                    (MAX_CATALOG_NODES - attempts) as nat,
                    cnid,
                ),
            decreases MAX_CATALOG_NODES - attempts,
        {
            attempts = attempts + 1;
            let node = match read_node(&mut self.reader, catalog, self.node_size, current) {
                Ok(v) => v,
                Err(e) => {
                    return Err(e);
                },
            };
            let next: u32 = node_link(node.as_slice());
            if node_is_leaf(node.as_slice()) {
                let count: u16 = node_record_count(node.as_slice());
                match Self::search_node_for_file(node.as_slice(), count, self.node_size, cnid) {
                    Some(fork) => {
                        return Ok(fork);
                    },
                    None => {},
                }
            }
            current = next;
        }
        Err(FilesystemError::NotFound(message_with_number("File CNID ", cnid as u64)))
    }

    /// Searches the records of a leaf for the file record with the given id.
    pub fn search_node_for_file(node_data: &[u8], num_records: u16, node_size: u16, target_cnid: u32) -> (r:
        Option<HfsPlusForkData>)
        ensures
            r == plus_first_fork(node_data@, node_size as int, 0, num_records as int, target_cnid),
    {
        let len: usize = node_data.len();
        let mut i: u16 = 0;
        while i < num_records
            invariant
                i <= num_records,
                len == node_data@.len(),
                plus_first_fork(node_data@, node_size as int, 0, num_records as int, target_cnid)
                    == plus_first_fork(
                    node_data@,
                    node_size as int,
                    i as int,
                    num_records as int,
                    target_cnid,
                ),
            decreases num_records - i,
        {
            let found: Option<HfsPlusForkData> = match record_start_at(node_data, node_size, i) {
                None => None,
                Some(at) => {
                    if at + 10 > len {
                        None
                    } else {
                        let key_length: usize = read_be16(node_data, at) as usize;
                        let payload: usize = at + 2 + key_length;
                        if key_length < 6 || payload + 112 > len {
                            None
                        } else if read_be16(node_data, payload) != HFSPLUS_FILE_RECORD || read_be32(
                            node_data,
                            payload + 8,
                        ) != target_cnid {
                            None
                        } else {
                            Some(
                                HfsPlusForkData {
                                    logical_size: read_be64(node_data, payload + 88),
                                    extent: HfsPlusExtent {
                                        start_block: read_be32(node_data, payload + 104),
                                        block_count: read_be32(node_data, payload + 108),
                                    },
                                },
                            )
                        }
                    }
                },
            };
            match found {
                Some(fork) => {
                    return Some(fork);
                },
                None => {},
            }
            i = i + 1;
        }
        None
    }

    /// Reads `length` bytes of a fork from `offset` on, cut at the logical
    /// size, from the first extent.
    fn read_fork(&mut self, fork: HfsPlusForkData, offset: u64, length: u64) -> (r: Result<
        Vec<u8>,
        FilesystemError,
    >)
        requires
            old(self).inv(),
        ensures
            final(self).inv(),
            final(self).image() == old(self).image(),
            final(self).layout() == old(self).layout(),
            final(self).partition() == old(self).partition(),
            final(self).name() == old(self).name(),
            ({
                let rest = if fork.logical_size >= offset {
                    fork.logical_size - offset
                } else {
                    0
                };
                let actual = if length <= rest {
                    length as int
                } else {
                    rest
                };
                match r {
                    Ok(v) => if fork.extent.block_count == 0 || actual == 0 {
                        v@ == Seq::<u8>::empty()
                    } else {
                        in_range(old(self).image().len(), old(self).extent_at(fork) + offset, actual)
                            && v@ == old(self).image().subrange(
                            old(self).extent_at(fork) + offset,
                            old(self).extent_at(fork) + offset + actual,
                        )
                    },
                    Err(e) => e.kind_of() == ErrorKind::Io && fork.extent.block_count != 0 && actual
                        != 0 && !in_range(
                        old(self).image().len(),
                        old(self).extent_at(fork) + offset,
                        actual,
                    ),
                }
            }),
    {
        proof {
            self.reader.image_fits();
        }
        if fork.extent.block_count == 0 {
            return Ok(Vec::new());
        }
        let rest: u64 = if fork.logical_size >= offset {
            fork.logical_size - offset
        } else {
            0
        };
        let actual: u64 = if length <= rest {
            length
        } else {
            rest
        };
        if actual == 0 {
            return Ok(Vec::new());
        }
        assert(fork.extent.start_block * self.block_size <= 0xffff_ffff * 0xffff_ffff)
            by (nonlinear_arith)
            requires
                fork.extent.start_block <= 0xffff_ffff,
                self.block_size <= 0xffff_ffff,
        ;
        let span: u64 = fork.extent.start_block as u64 * self.block_size as u64;
        let eof = FilesystemError::Io(crate::disc::browse::reader::ReadError::UnexpectedEof);
        let base: u64 = match self.partition_offset.checked_add(span) {
            Some(v) => v,
            None => {
                return Err(eof);
            },
        };
        let from: u64 = match base.checked_add(offset) {
            Some(v) => v,
            None => {
                return Err(eof);
            },
        };
        if actual > usize::MAX as u64 {
            return Err(eof);
        }
        match self.reader.read_bytes(from, actual as usize) {
            Ok(v) => Ok(v),
            Err(e) => Err(FilesystemError::Io(e)),
        }
    }
}

impl<R: SectorReader> Filesystem for HfsPlusFilesystem<R> {
    open spec fn wf(&self) -> bool {
        self.inv()
    }

    fn root(&mut self) -> (r: Result<FileEntry, FilesystemError>)
        ensures
            final(self).image() == old(self).image(),
            final(self).layout() == old(self).layout(),
            final(self).partition() == old(self).partition(),
            final(self).name() == old(self).name(),
            r matches Ok(e) && e@ == (EntryModel {
                name: Seq::empty(),
                path: "/"@,
                entry_type: EntryType::Directory,
                size: 0,
                location: 2,
            }),
    {
        Ok(FileEntry::root(HFSPLUS_ROOT_FOLDER_ID as u64))
    }

    fn list_directory(&mut self, entry: &FileEntry) -> (r: Result<Vec<FileEntry>, FilesystemError>)
        ensures
            final(self).image() == old(self).image(),
            final(self).layout() == old(self).layout(),
            final(self).partition() == old(self).partition(),
            final(self).name() == old(self).name(),
            match r {
                Ok(v) => old(self).listing(entry@) == Ok::<Seq<EntryModel>, ErrorKind>(models(v@))
                    && unexpanded(v@),
                Err(e) => old(self).listing(entry@) == Err::<Seq<EntryModel>, ErrorKind>(e.kind_of()),
            },
    {
        if entry.entry_type != EntryType::Directory {
            return Err(FilesystemError::NotADirectory(entry.path.clone()));
        }
        let cnid: u32 = if str_eq(entry.path.as_str(), "/") {
            HFSPLUS_ROOT_FOLDER_ID
        } else {
            #[verifier::truncate]
            (entry.location as u32)
        };
        self.list_directory_by_cnid(cnid, entry.path.as_str())
    }

    fn read_file(&mut self, entry: &FileEntry) -> (r: Result<Vec<u8>, FilesystemError>)
        ensures
            final(self).image() == old(self).image(),
            final(self).layout() == old(self).layout(),
            final(self).partition() == old(self).partition(),
            final(self).name() == old(self).name(),
            match r {
                Ok(v) => old(self).content(entry@) == Ok::<Seq<u8>, ErrorKind>(v@),
                Err(e) => old(self).content(entry@) == Err::<Seq<u8>, ErrorKind>(e.kind_of()),
            },
    {
        if entry.entry_type != EntryType::File {
            return Err(
                FilesystemError::NotADirectory(concat2(entry.path.as_str(), " is not a file")),
            );
        }
        let fork = match self.find_file_fork(#[verifier::truncate] (entry.location as u32)) {
            Ok(f) => f,
            Err(e) => {
                return Err(e);
            },
        };
        self.read_fork(fork, 0, fork.logical_size)
    }

    fn read_file_range(&mut self, entry: &FileEntry, offset: u64, length: usize) -> (r: Result<
        Vec<u8>,
        FilesystemError,
    >)
        ensures
            final(self).image() == old(self).image(),
            final(self).layout() == old(self).layout(),
            final(self).partition() == old(self).partition(),
            final(self).name() == old(self).name(),
            match r {
                Ok(v) => old(self).content_range(entry@, offset as int, length as int) == Ok::<
                    Seq<u8>,
                    ErrorKind,
                >(v@),
                Err(e) => old(self).content_range(entry@, offset as int, length as int) == Err::<
                    Seq<u8>,
                    ErrorKind,
                >(e.kind_of()),
            },
    {
        if entry.entry_type != EntryType::File {
            return Err(
                FilesystemError::NotADirectory(concat2(entry.path.as_str(), " is not a file")),
            );
        }
        let fork = match self.find_file_fork(#[verifier::truncate] (entry.location as u32)) {
            Ok(f) => f,
            Err(e) => {
                return Err(e);
            },
        };
        self.read_fork(fork, offset, length as u64)
    }

    fn volume_name(&self) -> (r: Option<&str>)
        ensures
            match r {
                Some(s) => s@ == self.name() && self.name().len() > 0,
                None => self.name().len() == 0,
            },
    {
        if self.volume_name.as_str().is_empty() {
            None
        } else {
            Some(self.volume_name.as_str())
        }
    }
}

} // verus!
