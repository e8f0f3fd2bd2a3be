//! The classic hierarchical filesystem: directory listing.
//!
//! A directory is listed by walking the leaves of the catalog from the first
//! leaf on and keeping the records whose key names the directory as parent.
//! The walk visits at most 10,000 nodes. File contents are not read: the
//! extents of a file are not followed, and a read reports that it is
//! unsupported.

use vstd::prelude::*;
use crate::bytes::{be16, be32, read_be16, read_be32};
use crate::disc::browse::entry::{models, unexpanded, EntryModel, EntryType, FileEntry};
use crate::disc::browse::filesystem::{ErrorKind, Filesystem, FilesystemError};
use crate::disc::browse::hfsplus_fs::child_path;
use crate::disc::browse::order::{sort_entries, sort_listing};
use crate::disc::browse::reader::{in_range, SectorReader};
use crate::disc::btree::{
    is_leaf, next_node, node_bytes, node_is_leaf, node_link, node_record_count, read_node,
    record_count, record_start, record_start_at, repeated, MAX_CATALOG_NODES,
};
use crate::disc::reader::DiscInfo;
use crate::text::trim::{trim, trim_chars};
use crate::text::{
    chars_of, concat2, concat3, decode_utf8_lossy, lossy_text, message_with_hex,
    message_with_number, str_eq, string_of,
};
use vstd::slice::slice_subrange;

verus! {

/// Record type of a folder record.
pub const HFS_FOLDER_RECORD: u8 = 1;

/// Record type of a file record.
pub const HFS_FILE_RECORD: u8 = 2;

/// Directory id of the root directory.
pub const HFS_ROOT_DIR_ID: u32 = 2;

/// Where the catalog of a classic volume lies and how it is laid out.
#[derive(Debug, Clone, Copy, PartialEq, Eq, Structural)]
pub struct HfsLayout {
    /// Size of an allocation block in bytes.
    pub alloc_block_size: u32,
    /// First allocation block of the catalog file.
    pub catalog_first_block: u16,
    /// Length of the first extent of the catalog file.
    pub catalog_extent_length: u16,
    /// Size of a catalog node in bytes.
    pub node_size: u16,
    /// Index of the first leaf node.
    pub first_leaf_node: u32,
    /// First 512-byte block of the allocation blocks.
    pub alloc_block_start: u32,
}

/// Where the payload of a record begins: after the key, at the next even
/// offset.
pub open spec fn hfs_payload_start(at: int, key_length: int) -> int {
    let end = at + 1 + key_length;
    if end % 2 != 0 {
        end + 1
    } else {
        end
    }
}

/// The entry that record `i` of a leaf gives for the directory `parent`:
/// the key (length byte, parent id at offset 2, name length at offset 6,
/// name from offset 7 on) must name `parent` and a name of 1 to 31 bytes;
/// the payload must be a folder record (type 1, id at offset 6) or a file
/// record (type 2, id at offset 20, size of the data fork at offset 62) that
/// lies within the node.
pub open spec fn hfs_record_entry(
    data: Seq<u8>,
    node_size: int,
    i: int,
    parent: u32,
    parent_path: Seq<char>,
) -> Option<EntryModel> {
    match record_start(data, node_size, i) {
        None => None,
        Some(at) => {
            if at + 8 > data.len() || data[at] < 6 || be32(data, at + 2) != parent {
                None
            } else {
                let count = data[at + 6] as int;
                let payload = hfs_payload_start(at, data[at] as int);
                if count == 0 || count > 31 || at + 7 + count > data.len() || payload + 2
                    > data.len() {
                    None
                } else {
                    let name = lossy_text(data.subrange(at + 7, at + 7 + count));
                    if data[payload] == 1 && payload + 10 <= data.len() {
                        Some(
                            EntryModel {
                                name,
                                path: child_path(parent_path, name),
                                entry_type: EntryType::Directory,
                                size: 0,
                                location: be32(data, payload + 6) as u64,
                            },
                        )
                    } else if data[payload] == 2 && payload + 66 <= data.len() {
                        Some(
                            EntryModel {
                                name,
                                path: child_path(parent_path, name),
                                entry_type: EntryType::File,
                                size: be32(data, payload + 62) as u64,
                                location: be32(data, payload + 20) as u64,
                            },
                        )
                    } else {
                        None
                    }
                }
            }
        },
    }
}

/// The entries that the first `count` records of a leaf give.
pub open spec fn hfs_node_entries(
    data: Seq<u8>,
    node_size: int,
    count: int,
    parent: u32,
    parent_path: Seq<char>,
) -> Seq<EntryModel>
    decreases count,
{
    if count <= 0 {
        Seq::empty()
    } else {
        let before = hfs_node_entries(data, node_size, count - 1, parent, parent_path);
        match hfs_record_entry(data, node_size, count - 1, parent, parent_path) {
            Some(e) => before.push(e),
            None => before,
        }
    }
}

/// The entries found by walking the leaf list from `node`, visiting at most
/// `budget` nodes. A node that cannot be read fails the walk.
pub open spec fn hfs_scan(
    image: Seq<u8>,
    catalog_offset: int,
    node_size: int,
    node: int,
    budget: nat,
    parent: u32,
    parent_path: Seq<char>,
) -> Result<Seq<EntryModel>, ErrorKind>
    decreases budget,
{
    if node == 0 || budget == 0 {
        Ok(Seq::empty())
    } else if node_size < 12 {
        Err(ErrorKind::InvalidData)
    } else {
        match node_bytes(image, catalog_offset, node_size, node) {
            None => Err(ErrorKind::Io),
            Some(data) => {
                match hfs_scan(
                    image,
                    catalog_offset,
                    node_size,
                    next_node(data),
                    (budget - 1) as nat,
                    parent,
                    parent_path,
                ) {
                    Err(e) => Err(e),
                    Ok(rest) => {
                        if is_leaf(data) {
                            Ok(
                                hfs_node_entries(
                                    data,
                                    node_size,
                                    record_count(data),
                                    parent,
                                    parent_path,
                                ) + rest,
                            )
                        } else {
                            Ok(rest)
                        }
                    },
                }
            },
        }
    }
}

/// A node whose link points back at itself does not hang the walk: the
/// walk ends when its budget is spent and returns what it collected, the
/// records of that node once for every visit.
pub proof fn lemma_hfs_self_cycle(
    image: Seq<u8>,
    catalog_offset: int,
    node_size: int,
    node: int,
    budget: nat,
    parent: u32,
    parent_path: Seq<char>,
)
    requires
        node != 0,
        node_bytes(image, catalog_offset, node_size, node) is Some,
        next_node(node_bytes(image, catalog_offset, node_size, node)->0) == node,
    ensures
        hfs_scan(image, catalog_offset, node_size, node, budget, parent, parent_path) == Ok::<
            Seq<EntryModel>,
            ErrorKind,
        >(
            repeated(
                if is_leaf(node_bytes(image, catalog_offset, node_size, node)->0) {
                    hfs_node_entries(
                        node_bytes(image, catalog_offset, node_size, node)->0,
                        node_size,
                        record_count(node_bytes(image, catalog_offset, node_size, node)->0),
                        parent,
                        parent_path,
                    )
                } else {
                    Seq::empty()
                },
                budget,
            ),
        ),
    decreases budget,
{
    if budget > 0 {
        lemma_hfs_self_cycle(
            image,
            catalog_offset,
            node_size,
            node,
            (budget - 1) as nat,
            parent,
            parent_path,
        );
        let data = node_bytes(image, catalog_offset, node_size, node)->0;
        if !is_leaf(data) {
            assert(Seq::<EntryModel>::empty() + repeated(
                Seq::<EntryModel>::empty(),
                (budget - 1) as nat,
            ) =~= repeated(Seq::<EntryModel>::empty(), (budget - 1) as nat));
        }
    }
}

/// Offset of the catalog of a classic volume.
pub open spec fn hfs_catalog_at(partition_offset: int, layout: HfsLayout) -> int {
    partition_offset + layout.alloc_block_start * 512 + layout.catalog_first_block
        * layout.alloc_block_size
}

/// The layout of the classic volume at `partition_offset`: the master
/// directory block at byte 1024 must carry the signature, and the catalog
/// must begin with a header node (its kind byte is 1).
pub open spec fn hfs_open(image: Seq<u8>, partition_offset: int) -> Result<HfsLayout, ErrorKind> {
    let at = partition_offset + 1024;
    if !in_range(image.len(), at, 162) {
        Err(ErrorKind::Io)
    } else if be16(image, at) != 0x4244 {
        Err(ErrorKind::Parse)
    } else {
        let catalog = partition_offset + be16(image, at + 28) * 512 + be16(image, at + 150) * be32(
            image,
            at + 20,
        );
        if !in_range(image.len(), catalog, 512) {
            Err(ErrorKind::Io)
        } else if image[catalog + 8] != 1 {
            Err(ErrorKind::Parse)
        } else {
            Ok(
                HfsLayout {
                    alloc_block_size: be32(image, at + 20) as u32,
                    catalog_first_block: be16(image, at + 150) as u16,
                    catalog_extent_length: be16(image, at + 152) as u16,
                    node_size: be16(image, catalog + 32) as u16,
                    first_leaf_node: be32(image, catalog + 24) as u32,
                    alloc_block_start: be16(image, at + 28) as u32,
                },
            )
        }
    }
}

/// The name of the classic volume at `partition_offset`: the Pascal string
/// of its master directory block if that is 1 to 27 bytes long, else the
/// name in the disc-info record, else a placeholder.
pub open spec fn hfs_volume_name(image: Seq<u8>, partition_offset: int, info: &DiscInfo) -> Seq<char> {
    let at = partition_offset + 1024;
    let count = image[at + 36] as int;
    if 0 < count <= 27 {
        trim(lossy_text(image.subrange(at + 37, at + 37 + count)))
    } else {
        match info.hfs_mdb {
            Some(mdb) => mdb.volume_name@,
            None => "HFS Volume"@,
        }
    }
}

/// The classic hierarchical filesystem on an image.
pub struct HfsFilesystem<R: SectorReader> {
    reader: R,
    partition_offset: u64,
    alloc_block_size: u32,
    catalog_first_block: u16,
    catalog_extent_length: u16,
    node_size: u16,
    first_leaf_node: u32,
    alloc_block_start: u32,
    volume_name: String,
}

impl<R: SectorReader> HfsFilesystem<R> {
    /// The image that is read.
    pub closed spec fn image(&self) -> Seq<u8> {
        self.reader.image()
    }

    /// The offset of the partition.
    pub closed spec fn partition(&self) -> int {
        self.partition_offset as int
    }

    /// The layout of the catalog.
    pub closed spec fn layout(&self) -> HfsLayout {
        HfsLayout {
            alloc_block_size: self.alloc_block_size,
            catalog_first_block: self.catalog_first_block,
            catalog_extent_length: self.catalog_extent_length,
            node_size: self.node_size,
            first_leaf_node: self.first_leaf_node,
            alloc_block_start: self.alloc_block_start,
        }
    }

    /// The volume name.
    pub closed spec fn name(&self) -> Seq<char> {
        self.volume_name@
    }

    /// The invariant: the reader is well-formed.
    pub closed spec fn inv(&self) -> bool {
        self.reader.wf() && self.alloc_block_start <= 0xffff
    }

    /// Offset of the catalog in the image.
    pub open spec fn catalog_at(&self) -> int {
        hfs_catalog_at(self.partition(), self.layout())
    }

    /// The raw listing of the directory `parent`, in catalog order.
    pub open spec fn raw_listing(&self, parent: u32, parent_path: Seq<char>) -> Result<
        Seq<EntryModel>,
        ErrorKind,
    > {
        hfs_scan(
            self.image(),
            self.catalog_at(),
            self.layout().node_size as int,
            self.layout().first_leaf_node as int,
            MAX_CATALOG_NODES as nat,
            parent,
            parent_path,
        )
    }

    /// The id of the directory that an entry stands for: the root
    /// directory for the path "/", else the entry's location.
    pub open spec fn directory_id(entry: EntryModel) -> u32 {
        if entry.path == "/"@ {
            2
        } else {
            entry.location as u32
        }
    }

    /// The listing of a directory.
    pub open spec fn listing(&self, entry: EntryModel) -> Result<Seq<EntryModel>, ErrorKind> {
        if entry.entry_type != EntryType::Directory {
            Err(ErrorKind::NotADirectory)
        } else {
            match self.raw_listing(Self::directory_id(entry), entry.path) {
                Ok(raw) => Ok(sort_entries(raw)),
                Err(e) => Err(e),
            }
        }
    }

    /// Opens the filesystem of the volume at `partition_offset`.
    pub fn new(reader: R, partition_offset: u64, disc_info: &DiscInfo) -> (r: Result<
        Self,
        FilesystemError,
    >)
        requires
            reader.wf(),
        ensures
            match r {
                Ok(fs) => fs.inv() && fs.image() == reader.image() && fs.partition()
                    == partition_offset && hfs_open(reader.image(), partition_offset as int) == Ok::<
                    HfsLayout,
                    ErrorKind,
                >(fs.layout()) && fs.name() == hfs_volume_name(
                    reader.image(),
                    partition_offset as int,
                    disc_info,
                ),
                Err(e) => hfs_open(reader.image(), partition_offset as int) == Err::<
                    HfsLayout,
                    ErrorKind,
                >(e.kind_of()),
            },
    {
        let mut reader = reader;
        let ghost image = reader.image();
        proof {
            reader.image_fits();
        }
        let eof = FilesystemError::Io(crate::disc::browse::reader::ReadError::UnexpectedEof);
        let mdb_offset: u64 = match partition_offset.checked_add(1024) {
            Some(v) => v,
            None => {
                return Err(eof);
            },
        };
        let mdb = match reader.read_bytes(mdb_offset, 162) {
            Ok(v) => v,
            Err(e) => {
                return Err(FilesystemError::Io(e));
            },
        };
        let signature: u16 = read_be16(mdb.as_slice(), 0);
        if signature != 0x4244 {
            return Err(FilesystemError::Parse(message_with_hex("Invalid HFS signature: ", signature)));
        }
        let alloc_block_size: u32 = read_be32(mdb.as_slice(), 20);
        let alloc_block_start: u32 = read_be16(mdb.as_slice(), 28) as u32;
        let catalog_first_block: u16 = read_be16(mdb.as_slice(), 150);
        let catalog_extent_length: u16 = read_be16(mdb.as_slice(), 152);
        let name_length: usize = mdb[36] as usize;
        let volume_name: String = if name_length > 0 && name_length <= 27 {
            let decoded = decode_utf8_lossy(slice_subrange(mdb.as_slice(), 37, 37 + name_length));
            let chars = chars_of(decoded.as_str());
            let trimmed = trim_chars(chars.as_slice());
            proof {
                assert(mdb@.subrange(37, 37 + name_length) =~= image.subrange(
                    mdb_offset + 37,
                    mdb_offset + 37 + name_length,
                ));
            }
            string_of(trimmed.as_slice())
        } else {
            match &disc_info.hfs_mdb {
                Some(m) => m.volume_name.clone(),
                None => "HFS Volume".to_owned(),
            }
        };
        assert(catalog_first_block * alloc_block_size <= 0xffff * 0xffff_ffff) by (nonlinear_arith)
            requires
                catalog_first_block <= 0xffff,
                alloc_block_size <= 0xffff_ffff,
        ;
        let span: u64 = alloc_block_start as u64 * 512 + catalog_first_block as u64
            * alloc_block_size as u64;
        let catalog_offset: u64 = match partition_offset.checked_add(span) {
            Some(v) => v,
            None => {
                return Err(eof);
            },
        };
        let tree = match reader.read_bytes(catalog_offset, 512) {
            Ok(v) => v,
            Err(e) => {
                return Err(FilesystemError::Io(e));
            },
        };
        if tree[8] != 1 {
            return Err(
                FilesystemError::Parse(
                    message_with_number("Expected B-tree header node, got kind ", tree[8] as u64),
                ),
            );
        }
        let first_leaf_node: u32 = read_be32(tree.as_slice(), 24);
        let node_size: u16 = read_be16(tree.as_slice(), 32);
        Ok(
            HfsFilesystem {
                reader,
                partition_offset,
                alloc_block_size,
                catalog_first_block,
                catalog_extent_length,
                node_size,
                first_leaf_node,
                alloc_block_start,
                volume_name,
            },
        )
    }

    /// Offset of the catalog in the image, if it fits in 64 bits.
    pub fn catalog_offset(&self) -> (r: Option<u64>)
        requires
            self.inv(),
        ensures
            match r {
                Some(v) => v == self.catalog_at(),
                None => self.catalog_at() > u64::MAX,
            },
    {
        assert(self.catalog_first_block * self.alloc_block_size <= 0xffff * 0xffff_ffff)
            by (nonlinear_arith)
            requires
                self.catalog_first_block <= 0xffff,
                self.alloc_block_size <= 0xffff_ffff,
        ;
        self.partition_offset.checked_add(
            self.alloc_block_start as u64 * 512 + self.catalog_first_block as u64
                * self.alloc_block_size as u64,
        )
    }

    /// Lists the entries of the directory with the given id, in listing
    /// order.
    pub fn list_directory_by_id(&mut self, parent_id: u32, parent_path: &str) -> (r: Result<
        Vec<FileEntry>,
        FilesystemError,
    >)
        requires
            old(self).inv(),
        ensures
            final(self).inv(),
            final(self).image() == old(self).image(),
            final(self).layout() == old(self).layout(),
            final(self).partition() == old(self).partition(),
            final(self).name() == old(self).name(),
            match r {
                Ok(v) => old(self).raw_listing(parent_id, parent_path@) is Ok && models(v@)
                    == sort_entries(old(self).raw_listing(parent_id, parent_path@)->Ok_0)
                    && unexpanded(v@),
                Err(e) => old(self).raw_listing(parent_id, parent_path@) == Err::<
                    Seq<EntryModel>,
                    ErrorKind,
                >(e.kind_of()),
            },
    {
        let ghost image = self.image();
        let ghost whole = self.raw_listing(parent_id, parent_path@);
        let mut entries: Vec<FileEntry> = Vec::new();
        let mut current: u32 = self.first_leaf_node;
        let mut attempts: u32 = 0;
        proof {
            self.reader.image_fits();
            assert(models(entries@) =~= Seq::<EntryModel>::empty());
        }
        let catalog: u64 = match self.catalog_offset() {
            Some(v) => v,
            None => {
                if current == 0 {
                    return Ok(entries);
                } else if self.node_size < 12 {
                    return Err(FilesystemError::InvalidData("B-tree node too small".to_owned()));
                } else {
                    return Err(
                        FilesystemError::Io(crate::disc::browse::reader::ReadError::UnexpectedEof),
                    );
                }
            },
        };
        while current != 0 && attempts < MAX_CATALOG_NODES
            invariant
                attempts <= MAX_CATALOG_NODES,
                self.inv(),
                self.image() == image,
                self.layout() == old(self).layout(),
                self.partition() == old(self).partition(),
                self.name() == old(self).name(),
                image == old(self).image(),
                catalog == self.catalog_at(),
                whole == old(self).raw_listing(parent_id, parent_path@),
                unexpanded(entries@),
                whole == match hfs_scan(
                    image,
                    catalog as int,
                    self.layout().node_size as int,
                    current as int,
                    (MAX_CATALOG_NODES - attempts) as nat,
                    parent_id,
                    parent_path@,
                ) {
                    Ok(rest) => Ok::<Seq<EntryModel>, ErrorKind>(models(entries@) + rest),
                    Err(e) => Err(e),
                },
            decreases MAX_CATALOG_NODES - attempts,
        {
            attempts = attempts + 1;
            let node = match read_node(&mut self.reader, catalog, self.node_size, current) {
                Ok(v) => v,
                Err(e) => {
                    return Err(e);
                },
            };
            let next: u32 = node_link(node.as_slice());
            let ghost before = models(entries@);
            let ghost held = entries@;
            if node_is_leaf(node.as_slice()) {
                let count: u16 = node_record_count(node.as_slice());
                Self::process_leaf_node(
                    node.as_slice(),
                    count,
                    self.node_size,
                    parent_id,
                    parent_path,
                    &mut entries,
                );
                proof {
                    let n = held.len() as int;
                    assert forall|k: int| 0 <= k < entries@.len() implies (
                    #[trigger] entries@[k]).children is None by {
                        if k < n {
                            assert(entries@[k] == entries@.take(n)[k]);
                        } else {
                            assert(entries@[k] == entries@.skip(n)[k - n]);
                        }
                    }
                }
            }
            proof {
                let size = self.layout().node_size as int;
                let rest = hfs_scan(
                    image,
                    catalog as int,
                    size,
                    next as int,
                    (MAX_CATALOG_NODES - attempts) as nat,
                    parent_id,
                    parent_path@,
                );
                let own = if is_leaf(node@) {
                    hfs_node_entries(node@, size, record_count(node@), parent_id, parent_path@)
                } else {
                    Seq::<EntryModel>::empty()
                };
                assert(models(entries@) =~= before + own);
                assert(hfs_scan(
                    image,
                    catalog as int,
                    size,
                    current as int,
                    (MAX_CATALOG_NODES - attempts + 1) as nat,
                    parent_id,
                    parent_path@,
                ) == match rest {
                    Ok(r) => Ok::<Seq<EntryModel>, ErrorKind>(own + r),
                    Err(e) => Err(e),
                }) by {
                    if rest is Ok && !is_leaf(node@) {
                        assert(own + rest->Ok_0 =~= rest->Ok_0);
                    }
                }
                if rest is Ok {
                    assert((before + own) + rest->Ok_0 =~= before + (own + rest->Ok_0));
                }
            }
            current = next;
        }
        proof {
            assert(models(entries@) + Seq::<EntryModel>::empty() =~= models(entries@));
        }
        Ok(sort_listing(entries))
    }

    /// Appends the entries that the records of a leaf give for a directory.
    pub fn process_leaf_node(
        node_data: &[u8],
        num_records: u16,
        node_size: u16,
        parent_id: u32,
        parent_path: &str,
        entries: &mut Vec<FileEntry>,
    )
        ensures
            old(entries)@.len() <= final(entries)@.len(),
            final(entries)@.take(old(entries)@.len() as int) == old(entries)@,
            unexpanded(final(entries)@.skip(old(entries)@.len() as int)),
            models(final(entries)@) == models(old(entries)@) + hfs_node_entries(
                node_data@,
                node_size as int,
                num_records as int,
                parent_id,
                parent_path@,
            ),
    {
        let ghost start = models(entries@);
        let ghost kept = entries@.len() as int;
        let mut i: u16 = 0;
        proof {
            assert(start + Seq::<EntryModel>::empty() =~= start);
            assert(entries@.take(kept) =~= entries@);
        }
        while i < num_records
            invariant
                i <= num_records,
                kept == old(entries)@.len(),
                kept <= entries@.len(),
                entries@.take(kept) == old(entries)@,
                unexpanded(entries@.skip(kept)),
                start == models(old(entries)@),
                models(entries@) == start + hfs_node_entries(
                    node_data@,
                    node_size as int,
                    i as int,
                    parent_id,
                    parent_path@,
                ),
            decreases num_records - i,
        {
            match Self::record_entry(node_data, node_size, i, parent_id, parent_path) {
                Some(entry) => {
                    proof {
                        let found = hfs_node_entries(
                            node_data@,
                            node_size as int,
                            i as int,
                            parent_id,
                            parent_path@,
                        );
                        assert(models(entries@.push(entry)) =~= models(entries@).push(entry@));
                        assert((start + found).push(entry@) =~= start + found.push(entry@));
                        assert(entries@.push(entry).take(kept) =~= entries@.take(kept));
                        assert(entries@.push(entry).skip(kept) =~= entries@.skip(kept).push(entry));
                    }
                    entries.push(entry);
                },
                None => {},
            }
            i = i + 1;
        }
    }

    /// The entry that one record of a leaf gives for a directory.
    pub fn record_entry(
        node_data: &[u8],
        node_size: u16,
        i: u16,
        parent_id: u32,
        parent_path: &str,
    ) -> (r: Option<FileEntry>)
        ensures
            match r {
                Some(e) => hfs_record_entry(
                    node_data@,
                    node_size as int,
                    i as int,
                    parent_id,
                    parent_path@,
                ) == Some(e@) && e.children is None,
                None => hfs_record_entry(
                    node_data@,
                    node_size as int,
                    i as int,
                    parent_id,
                    parent_path@,
                ) is None,
            },
    {
        let len: usize = node_data.len();
        let at: usize = match record_start_at(node_data, node_size, i) {
            Some(v) => v,
            None => {
                return None;
            },
        };
        if at + 8 > len {
            return None;
        }
        let key_length: usize = node_data[at] as usize;
        if key_length < 6 {
            return None;
        }
        if read_be32(node_data, at + 2) != parent_id {
            return None;
        }
        let count: usize = node_data[at + 6] as usize;
        if count == 0 || count > 31 {
            return None;
        }
        if at + 7 + count > len {
            return None;
        }
        let name: String = decode_utf8_lossy(slice_subrange(node_data, at + 7, at + 7 + count));
        let end: usize = at + 1 + key_length;
        let payload: usize = if end % 2 != 0 {
            end + 1
        } else {
            end
        };
        if payload + 2 > len {
            return None;
        }
        let record_type: u8 = node_data[payload];
        let path: String = if str_eq(parent_path, "/") {
            concat2("/", name.as_str())
        } else {
            concat3(parent_path, "/", name.as_str())
        };
        if record_type == HFS_FOLDER_RECORD {
            if payload + 10 > len {
                return None;
            }
            let dir_id: u32 = read_be32(node_data, payload + 6);
            Some(FileEntry::new_directory(name, path, dir_id as u64))
        } else if record_type == HFS_FILE_RECORD {
            if payload + 66 > len {
                return None;
            }
            let data_size: u32 = read_be32(node_data, payload + 62);
            let file_id: u32 = read_be32(node_data, payload + 20);
            Some(FileEntry::new_file(name, path, data_size as u64, file_id as u64))
        } else {
            None
        }
    }
}

impl<R: SectorReader> Filesystem for HfsFilesystem<R> {
    open spec fn wf(&self) -> bool {
        self.inv()
    }

    fn root(&mut self) -> (r: Result<FileEntry, FilesystemError>)
        ensures
            final(self).image() == old(self).image(),
            final(self).layout() == old(self).layout(),
            final(self).partition() == old(self).partition(),
            final(self).name() == old(self).name(),
            r matches Ok(e) && e@ == (EntryModel {
                name: Seq::empty(),
                path: "/"@,
                entry_type: EntryType::Directory,
                size: 0,
                location: 2,
            }),
    {
        Ok(FileEntry::root(HFS_ROOT_DIR_ID as u64))
    }

    fn list_directory(&mut self, entry: &FileEntry) -> (r: Result<Vec<FileEntry>, FilesystemError>)
        ensures
            final(self).image() == old(self).image(),
            final(self).layout() == old(self).layout(),
            final(self).partition() == old(self).partition(),
            final(self).name() == old(self).name(),
            match r {
                Ok(v) => old(self).listing(entry@) == Ok::<Seq<EntryModel>, ErrorKind>(models(v@))
                    && unexpanded(v@),
                Err(e) => old(self).listing(entry@) == Err::<Seq<EntryModel>, ErrorKind>(e.kind_of()),
            },
    {
        if entry.entry_type != EntryType::Directory {
            return Err(FilesystemError::NotADirectory(entry.path.clone()));
        }
        let dir_id: u32 = if str_eq(entry.path.as_str(), "/") {
            HFS_ROOT_DIR_ID
        } else {
            #[verifier::truncate]
            (entry.location as u32)
        };
        self.list_directory_by_id(dir_id, entry.path.as_str())
    }

    /// File contents are not read on this filesystem.
    fn read_file(&mut self, entry: &FileEntry) -> (r: Result<Vec<u8>, FilesystemError>)
        ensures
            *final(self) == *old(self),
            r matches Err(FilesystemError::Unsupported),
    {
        Err(FilesystemError::Unsupported)
    }

    /// File contents are not read on this filesystem.
    fn read_file_range(&mut self, entry: &FileEntry, offset: u64, length: usize) -> (r: Result<
        Vec<u8>,
        FilesystemError,
    >)
        ensures
            *final(self) == *old(self),
            r matches Err(FilesystemError::Unsupported),
    {
        Err(FilesystemError::Unsupported)
    }

    fn volume_name(&self) -> (r: Option<&str>)
        ensures
            match r {
                Some(s) => s@ == self.name() && self.name().len() > 0,
                None => self.name().len() == 0,
            },
    {
        if self.volume_name.as_str().is_empty() {
            None
        } else {
            Some(self.volume_name.as_str())
        }
    }
}

} // verus!
