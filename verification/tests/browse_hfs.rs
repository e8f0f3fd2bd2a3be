use ode_artwork_downloader::disc::browse::entry::{EntryType, FileEntry};
use ode_artwork_downloader::disc::browse::filesystem::{ErrorKind, Filesystem, FilesystemError};
use ode_artwork_downloader::disc::browse::hfs_fs::HfsFilesystem;
use ode_artwork_downloader::disc::browse::hfsplus_fs::HfsPlusFilesystem;
use ode_artwork_downloader::disc::browse::reader::IsoSectorReader;
use ode_artwork_downloader::disc::browse::{
    create_filesystem, find_hfs_partition_offset_from_reader, open_filesystem, DiscFilesystem,
};
use ode_artwork_downloader::disc::formats::{DiscFormat, FilesystemType};
use ode_artwork_downloader::disc::identifier::parse_filename;
use ode_artwork_downloader::disc::identifier::ConfidenceLevel;
use ode_artwork_downloader::disc::reader::DiscInfo;

fn put16(data: &mut [u8], at: usize, v: u16) {
    data[at..at + 2].copy_from_slice(&v.to_be_bytes());
}

fn put32(data: &mut [u8], at: usize, v: u32) {
    data[at..at + 4].copy_from_slice(&v.to_be_bytes());
}

fn put64(data: &mut [u8], at: usize, v: u64) {
    data[at..at + 8].copy_from_slice(&v.to_be_bytes());
}

fn info(filesystem: FilesystemType, format: DiscFormat, label: Option<&str>) -> DiscInfo {
    DiscInfo {
        path: "/tmp/disc.iso".to_string(),
        format,
        filesystem,
        volume_label: label.map(|s| s.to_string()),
        parsed_filename: parse_filename("/tmp/disc.iso"),
        title: "disc".to_string(),
        confidence: ConfidenceLevel::Low,
        pvd: None,
        toc: None,
        hfs_mdb: None,
        hfsplus_header: None,
    }
}

const NODE: usize = 512;

/// Writes the records of a leaf: each record is the bytes of its key and
/// payload; the offsets go into the table at the end of the node.
fn write_leaf(data: &mut [u8], at: usize, next: u32, records: &[Vec<u8>]) {
    put32(data, at, next);
    data[at + 8] = 0xFF;
    put16(data, at + 10, records.len() as u16);
    let mut offset = 14usize;
    for (i, r) in records.iter().enumerate() {
        data[at + offset..at + offset + r.len()].copy_from_slice(r);
        put16(data, at + NODE - 2 - 2 * i, offset as u16);
        offset += r.len();
        if offset % 2 == 1 {
            offset += 1;
        }
    }
}

// ---- the classic filesystem ----

fn hfs_record(parent: u32, name: &[u8], kind: u8, id: u32, size: u32) -> Vec<u8> {
    let key_length = 6 + name.len();
    let mut r = vec![0u8; 1 + key_length];
    r[0] = key_length as u8;
    r[2..6].copy_from_slice(&parent.to_be_bytes());
    r[6] = name.len() as u8;
    r[7..7 + name.len()].copy_from_slice(name);
    if r.len() % 2 == 1 {
        r.push(0);
    }
    let mut payload = vec![0u8; if kind == 1 { 70 } else { 102 }];
    payload[0] = kind;
    if kind == 1 {
        payload[6..10].copy_from_slice(&id.to_be_bytes());
    } else {
        payload[20..24].copy_from_slice(&id.to_be_bytes());
        payload[62..66].copy_from_slice(&size.to_be_bytes());
    }
    r.extend_from_slice(&payload);
    r
}

/// A classic volume at `partition`: the catalog begins at allocation block
/// 2 of blocks of 512 bytes that start at block 4 of the partition.
fn hfs_image(partition: usize, leaves: &[(u32, Vec<Vec<u8>>)]) -> Vec<u8> {
    let mut data = vec![0u8; partition + 512 * 32];
    let mdb = partition + 1024;
    data[mdb] = 0x42;
    data[mdb + 1] = 0x44;
    put32(&mut data, mdb + 20, 512);
    put16(&mut data, mdb + 28, 4);
    data[mdb + 36] = 7;
    data[mdb + 37..mdb + 44].copy_from_slice(b"Classic");
    put16(&mut data, mdb + 150, 2);
    put16(&mut data, mdb + 152, 8);
    let catalog = partition + 4 * 512 + 2 * 512;
    data[catalog + 8] = 1;
    put32(&mut data, catalog + 24, 1);
    put16(&mut data, catalog + 32, NODE as u16);
    for (i, (next, records)) in leaves.iter().enumerate() {
        write_leaf(&mut data, catalog + (i + 1) * NODE, *next, records);
    }
    data
}

fn names(entries: &[FileEntry]) -> Vec<String> {
    entries.iter().map(|e| e.name.clone()).collect()
}

#[test]
fn classic_listing_walks_the_leaves() {
    let data = hfs_image(
        0,
        &[
            (
                2,
                vec![
                    hfs_record(2, b"zeta.txt", 2, 30, 1234),
                    hfs_record(2, b"Games", 1, 16, 0),
                    hfs_record(16, b"inner", 2, 31, 5),
                ],
            ),
            (0, vec![hfs_record(2, b"Alpha", 2, 32, 7), hfs_record(2, b"apps", 1, 17, 0)]),
        ],
    );
    let disc = info(FilesystemType::Hfs, DiscFormat::Iso, None);
    let mut fs = HfsFilesystem::new(IsoSectorReader::new(data), 0, &disc).unwrap();
    assert_eq!(fs.volume_name(), Some("Classic"));
    let root = fs.root().unwrap();
    assert_eq!(root.location, 2);
    let entries = fs.list_directory(&root).unwrap();
    assert_eq!(names(&entries), vec!["apps", "Games", "Alpha", "zeta.txt"]);
    assert_eq!(entries[0].entry_type, EntryType::Directory);
    assert_eq!(entries[0].location, 17);
    assert_eq!(entries[1].path, "/Games");
    assert_eq!(entries[3].size, 1234);
    assert_eq!(entries[3].location, 30);
    let inner = fs.list_directory(&entries[1]).unwrap();
    assert_eq!(names(&inner), vec!["inner"]);
    assert_eq!(inner[0].path, "/Games/inner");
    assert_eq!(fs.list_directory_by_id(99, "/none").unwrap().len(), 0);
}

#[test]
fn classic_file_reads_are_unsupported() {
    let data = hfs_image(0, &[(0, vec![hfs_record(2, b"a", 2, 30, 4)])]);
    let disc = info(FilesystemType::Hfs, DiscFormat::Iso, None);
    let mut fs = HfsFilesystem::new(IsoSectorReader::new(data), 0, &disc).unwrap();
    let root = fs.root().unwrap();
    let entries = fs.list_directory(&root).unwrap();
    assert!(matches!(fs.read_file(&entries[0]), Err(FilesystemError::Unsupported)));
    assert!(matches!(
        fs.read_file_range(&entries[0], 0, 1),
        Err(FilesystemError::Unsupported)
    ));
    assert!(matches!(
        fs.list_directory(&entries[0]),
        Err(FilesystemError::NotADirectory(_))
    ));
}

#[test]
fn classic_self_cycle_ends_at_the_bound() {
    // the only leaf points at itself
    let data = hfs_image(0, &[(1, vec![hfs_record(2, b"loop", 2, 30, 4)])]);
    let disc = info(FilesystemType::Hfs, DiscFormat::Iso, None);
    let mut fs = HfsFilesystem::new(IsoSectorReader::new(data), 0, &disc).unwrap();
    let root = fs.root().unwrap();
    let entries = fs.list_directory(&root).unwrap();
    // the record is collected once for every visit
    assert_eq!(entries.len(), 10000);
    assert!(entries.iter().all(|e| e.name == "loop"));
}

#[test]
fn classic_open_errors_and_names() {
    let mut data = hfs_image(0, &[]);
    data[1024] = 0;
    let disc = info(FilesystemType::Hfs, DiscFormat::Iso, None);
    assert_eq!(
        HfsFilesystem::new(IsoSectorReader::new(data), 0, &disc).err().unwrap().kind(),
        ErrorKind::Parse
    );
    let mut data = hfs_image(0, &[]);
    data[4 * 512 + 2 * 512 + 8] = 0;
    assert_eq!(
        HfsFilesystem::new(IsoSectorReader::new(data), 0, &disc).err().unwrap().kind(),
        ErrorKind::Parse
    );
    assert_eq!(
        HfsFilesystem::new(IsoSectorReader::new(vec![0u8; 1100]), 0, &disc)
            .err()
            .unwrap()
            .kind(),
        ErrorKind::Io
    );
    // without a name in the block the placeholder is used
    let mut data = hfs_image(0, &[]);
    data[1024 + 36] = 0;
    let fs = HfsFilesystem::new(IsoSectorReader::new(data), 0, &disc).unwrap();
    assert_eq!(fs.volume_name(), Some("HFS Volume"));
}

#[test]
fn classic_walk_fails_on_a_node_that_cannot_be_read() {
    // the leaf points at a node beyond the image
    let data = hfs_image(0, &[(1000, vec![hfs_record(2, b"a", 2, 30, 4)])]);
    let disc = info(FilesystemType::Hfs, DiscFormat::Iso, None);
    let mut fs = HfsFilesystem::new(IsoSectorReader::new(data), 0, &disc).unwrap();
    let root = fs.root().unwrap();
    assert_eq!(fs.list_directory(&root).unwrap_err().kind(), ErrorKind::Io);
}

// ---- the extended filesystem ----

fn plus_record(parent: u32, name: &str, kind: u16, id: u32, size: u64, extent: (u32, u32)) -> Vec<u8> {
    let units: Vec<u16> = name.encode_utf16().collect();
    let key_length = 6 + 2 * units.len();
    let mut r = vec![0u8; 2 + key_length];
    put16(&mut r, 0, key_length as u16);
    put32(&mut r, 2, parent);
    put16(&mut r, 6, units.len() as u16);
    for (i, u) in units.iter().enumerate() {
        put16(&mut r, 8 + 2 * i, *u);
    }
    let mut payload = vec![0u8; if kind == 1 { 88 } else { 248 }];
    put16(&mut payload, 0, kind);
    put32(&mut payload, 8, id);
    if kind == 2 {
        put64(&mut payload, 88, size);
        put32(&mut payload, 104, extent.0);
        put32(&mut payload, 108, extent.1);
    }
    r.extend_from_slice(&payload);
    r
}

/// An extended volume at `partition` with blocks of 512 bytes; the catalog
/// begins at block 8.
fn plus_image(partition: usize, leaves: &[(u32, Vec<Vec<u8>>)]) -> Vec<u8> {
    let mut data = vec![0u8; partition + 512 * 64];
    let header = partition + 1024;
    data[header] = 0x48;
    data[header + 1] = 0x2B;
    put16(&mut data, header + 2, 4);
    put32(&mut data, header + 40, 512);
    put32(&mut data, header + 44, 64);
    put32(&mut data, header + 128, 8);
    put32(&mut data, header + 132, 8);
    let catalog = partition + 8 * 512;
    data[catalog + 8] = 1;
    put32(&mut data, catalog + 24, 1);
    put16(&mut data, catalog + 32, NODE as u16);
    for (i, (next, records)) in leaves.iter().enumerate() {
        write_leaf(&mut data, catalog + (i + 1) * NODE, *next, records);
    }
    data
}

#[test]
fn extended_listing_and_reads() {
    let mut data = plus_image(
        0,
        &[
            (2, vec![plus_record(2, "Read Me", 2, 40, 11, (40, 1))]),
            (
                0,
                vec![
                    plus_record(2, "Système", 1, 41, 0, (0, 0)),
                    plus_record(41, "deep", 2, 42, 0, (0, 0)),
                ],
            ),
        ],
    );
    data[40 * 512..40 * 512 + 11].copy_from_slice(b"hello world");
    let disc = info(FilesystemType::HfsPlus, DiscFormat::Iso, Some("My Volume"));
    let mut fs = HfsPlusFilesystem::new(IsoSectorReader::new(data), 0, &disc).unwrap();
    // the record carries no header, so the placeholder is the name
    assert_eq!(fs.volume_name(), Some("HFS+ Volume"));
    let root = fs.root().unwrap();
    let entries = fs.list_directory(&root).unwrap();
    assert_eq!(
        entries.iter().map(|e| e.name.as_str()).collect::<Vec<_>>(),
        vec!["Système", "Read Me"]
    );
    assert_eq!(entries[0].location, 41);
    assert_eq!(entries[1].size, 11);
    assert_eq!(entries[1].path, "/Read Me");
    assert_eq!(fs.read_file(&entries[1]).unwrap(), b"hello world".to_vec());
    assert_eq!(fs.read_file_range(&entries[1], 6, 100).unwrap(), b"world".to_vec());
    assert_eq!(fs.read_file_range(&entries[1], 0, 5).unwrap(), b"hello".to_vec());
    assert_eq!(fs.read_file_range(&entries[1], 11, 5).unwrap(), Vec::<u8>::new());
    let inner = fs.list_directory(&entries[0]).unwrap();
    assert_eq!(inner[0].path, "/Système/deep");
    // a file without blocks is empty
    assert_eq!(fs.read_file(&inner[0]).unwrap(), Vec::<u8>::new());
    // a file that is not in the catalog
    let ghost = FileEntry::new_file("g".to_string(), "/g".to_string(), 1, 999);
    assert_eq!(fs.read_file(&ghost).unwrap_err().kind(), ErrorKind::NotFound);
    assert!(matches!(
        fs.read_file(&entries[0]),
        Err(FilesystemError::NotADirectory(_))
    ));
    let fork = fs.find_file_fork(40).unwrap();
    assert_eq!(fork.logical_size, 11);
    assert_eq!(fork.extent.start_block, 40);
}

#[test]
fn extended_self_cycle_ends_at_the_bound() {
    // the leaf holds nothing for the root and points at itself
    let data = plus_image(0, &[(1, vec![plus_record(77, "x", 2, 40, 1, (40, 1))])]);
    let disc = info(FilesystemType::HfsPlus, DiscFormat::Iso, None);
    let mut fs = HfsPlusFilesystem::new(IsoSectorReader::new(data), 0, &disc).unwrap();
    let root = fs.root().unwrap();
    assert_eq!(fs.list_directory(&root).unwrap().len(), 0);
    // a lookup for a file that is not there ends as well
    assert_eq!(fs.find_file_fork(5).unwrap_err().kind(), ErrorKind::NotFound);
    // and what is collected on the way is returned
    let entries = fs.list_directory_by_cnid(77, "/p").unwrap();
    assert_eq!(entries.len(), 10000);
}

#[test]
fn extended_open_errors() {
    let disc = info(FilesystemType::HfsPlus, DiscFormat::Iso, None);
    let mut data = plus_image(0, &[]);
    data[1025] = 0;
    assert_eq!(
        HfsPlusFilesystem::new(IsoSectorReader::new(data), 0, &disc).err().unwrap().kind(),
        ErrorKind::Parse
    );
    let mut data = plus_image(0, &[]);
    data[8 * 512 + 8] = 0;
    assert_eq!(
        HfsPlusFilesystem::new(IsoSectorReader::new(data), 0, &disc).err().unwrap().kind(),
        ErrorKind::Parse
    );
    assert_eq!(
        HfsPlusFilesystem::new(IsoSectorReader::new(plus_image(0, &[])), u64::MAX, &disc)
            .err()
            .unwrap()
            .kind(),
        ErrorKind::Io
    );
}

#[test]
fn nodes_too_small_are_invalid_data() {
    let mut data = plus_image(0, &[(0, vec![])]);
    put16(&mut data, 8 * 512 + 32, 8);
    let disc = info(FilesystemType::HfsPlus, DiscFormat::Iso, None);
    let mut fs = HfsPlusFilesystem::new(IsoSectorReader::new(data), 0, &disc).unwrap();
    let root = fs.root().unwrap();
    assert_eq!(fs.list_directory(&root).unwrap_err().kind(), ErrorKind::InvalidData);
}

// ---- opening ----

fn partitioned(volume: &[u8]) -> Vec<u8> {
    let offset = 8 * 512;
    let mut data = vec![0u8; offset];
    data[0] = 0x45;
    data[1] = 0x52;
    data[512] = 0x50;
    data[513] = 0x4D;
    data[512 + 7] = 2;
    data[512 + 11] = 1;
    data[512 + 48..512 + 67].copy_from_slice(b"Apple_partition_map");
    data[1024] = 0x50;
    data[1025] = 0x4D;
    data[1024 + 7] = 2;
    data[1024 + 11] = 8;
    data[1024 + 48..1024 + 57].copy_from_slice(b"Apple_HFS");
    data.extend_from_slice(volume);
    data
}

#[test]
fn volume_offset_with_and_without_a_map() {
    let volume = hfs_image(0, &[(0, vec![hfs_record(2, b"a", 2, 30, 4)])]);
    let mut reader = IsoSectorReader::new(partitioned(&volume));
    assert_eq!(find_hfs_partition_offset_from_reader(&mut reader).unwrap(), 8 * 512);
    let mut reader = IsoSectorReader::new(volume);
    assert_eq!(find_hfs_partition_offset_from_reader(&mut reader).unwrap(), 0);
    let mut reader = IsoSectorReader::new(vec![0u8; 4096]);
    assert_eq!(
        find_hfs_partition_offset_from_reader(&mut reader).unwrap_err().kind(),
        ErrorKind::Parse
    );
    let mut reader = IsoSectorReader::new(vec![0u8; 100]);
    assert_eq!(
        find_hfs_partition_offset_from_reader(&mut reader).unwrap_err().kind(),
        ErrorKind::Io
    );
}

#[test]
fn filesystem_is_opened_by_kind() {
    let volume = hfs_image(0, &[(0, vec![hfs_record(2, b"file", 2, 30, 4)])]);
    let disc = info(FilesystemType::Hfs, DiscFormat::Iso, None);
    let mut fs = open_filesystem(IsoSectorReader::new(partitioned(&volume)), &disc).unwrap();
    assert_eq!(fs.kind(), FilesystemType::Hfs);
    assert!(matches!(fs, DiscFilesystem::Hfs(_)));
    assert_eq!(fs.volume_name(), Some("Classic"));
    let root = fs.root().unwrap();
    let entries = fs.list_directory(&root).unwrap();
    assert_eq!(entries[0].name, "file");
    assert!(matches!(fs.read_file(&entries[0]), Err(FilesystemError::Unsupported)));

    let volume = plus_image(0, &[(0, vec![plus_record(2, "f", 2, 40, 0, (0, 0))])]);
    let disc = info(FilesystemType::HfsPlus, DiscFormat::Chd, None);
    let mut fs = open_filesystem(IsoSectorReader::new(volume), &disc).unwrap();
    assert_eq!(fs.kind(), FilesystemType::HfsPlus);
    let root = fs.root().unwrap();
    assert_eq!(fs.list_directory(&root).unwrap().len(), 1);

    // kinds and formats that cannot be browsed
    let disc = info(FilesystemType::Unknown, DiscFormat::Iso, None);
    assert!(matches!(
        create_filesystem(IsoSectorReader::new(vec![0u8; 10]), &disc),
        Err(FilesystemError::Unsupported)
    ));
    let disc = info(FilesystemType::Iso9660, DiscFormat::MdsMdf, None);
    assert!(matches!(
        open_filesystem(IsoSectorReader::new(vec![0u8; 10]), &disc),
        Err(FilesystemError::Unsupported)
    ));
    let disc = info(FilesystemType::Iso9660, DiscFormat::BinCue, None);
    assert_eq!(
        open_filesystem(IsoSectorReader::new(vec![0u8; 10]), &disc)
            .err()
            .unwrap()
            .kind(),
        ErrorKind::Io
    );
}

#[test]
fn root_of_an_opened_filesystem() {
    let volume = hfs_image(0, &[(0, vec![hfs_record(2, b"file", 2, 30, 4)])]);
    let disc = info(FilesystemType::Hfs, DiscFormat::Iso, None);
    let mut fs = open_filesystem(IsoSectorReader::new(partitioned(&volume)), &disc).unwrap();
    let root = fs.root().unwrap();
    assert_eq!((root.location, root.size), (2, 0));
    assert_eq!(root.path, "/");
    assert_eq!(root.name, "");
    assert!(root.is_directory() && root.children.is_none());
    // the root is the same after a listing
    fs.list_directory(&root).unwrap();
    assert_eq!(fs.root().unwrap().location, 2);
    assert_eq!(fs.volume_name(), Some("Classic"));

    let volume = plus_image(0, &[(0, vec![plus_record(2, "f", 2, 40, 0, (0, 0))])]);
    let disc = info(FilesystemType::HfsPlus, DiscFormat::Iso, None);
    let mut fs = open_filesystem(IsoSectorReader::new(volume), &disc).unwrap();
    let root = fs.root().unwrap();
    assert_eq!((root.location, root.size), (2, 0));
}

#[test]
fn entries_that_were_collected_are_kept() {
    let mut parent = FileEntry::new_directory("old".to_string(), "/old".to_string(), 5);
    parent.children = Some(vec![FileEntry::new_file("c".to_string(), "/old/c".to_string(), 1, 6)]);
    let mut entries = vec![parent];
    let mut node = vec![0u8; NODE];
    write_leaf(&mut node, 0, 0, &[hfs_record(2, b"new", 2, 30, 4), hfs_record(9, b"other", 2, 31, 4)]);
    HfsFilesystem::<IsoSectorReader>::process_leaf_node(&node, 2, NODE as u16, 2, "/", &mut entries);
    assert_eq!(names(&entries), vec!["old", "new"]);
    assert_eq!(entries[0].children.as_ref().unwrap().len(), 1);
    assert!(entries[1].children.is_none());
    assert_eq!(entries[1].path, "/new");

    let mut node = vec![0u8; NODE];
    write_leaf(&mut node, 0, 0, &[plus_record(2, "n", 1, 41, 0, (0, 0))]);
    HfsPlusFilesystem::<IsoSectorReader>::process_leaf_node(&node, 1, NODE as u16, 2, "/", &mut entries);
    assert_eq!(names(&entries), vec!["old", "new", "n"]);
    assert_eq!(entries[0].children.as_ref().unwrap().len(), 1);
    assert_eq!(entries[2].location, 41);
}
