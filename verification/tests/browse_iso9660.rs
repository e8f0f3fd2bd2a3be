use ode_artwork_downloader::disc::browse::entry::{EntryType, FileEntry};
use ode_artwork_downloader::disc::browse::filesystem::{ErrorKind, Filesystem, FilesystemError};
use ode_artwork_downloader::disc::browse::iso9660_fs::{DirectoryRecord, Iso9660Filesystem};
use ode_artwork_downloader::disc::browse::open_filesystem;
use ode_artwork_downloader::disc::browse::reader::{BinCueSectorReader, IsoSectorReader, TrackInfo};
use ode_artwork_downloader::disc::formats::{DiscFormat, FilesystemType};
use ode_artwork_downloader::disc::identifier::{parse_filename, ConfidenceLevel};
use ode_artwork_downloader::disc::reader::DiscInfo;

fn record(name: &[u8], location: u32, size: u32, directory: bool) -> Vec<u8> {
    let mut len = 33 + name.len();
    if len % 2 == 1 {
        len += 1;
    }
    let mut r = vec![0u8; len];
    r[0] = len as u8;
    r[2..6].copy_from_slice(&location.to_le_bytes());
    r[10..14].copy_from_slice(&size.to_le_bytes());
    r[25] = if directory { 2 } else { 0 };
    r[32] = name.len() as u8;
    r[33..33 + name.len()].copy_from_slice(name);
    r
}

/// An image with a root directory of two sectors at sector 20, a
/// subdirectory at sector 22 and two files.
fn image() -> Vec<u8> {
    let mut data = vec![0u8; 2048 * 30];
    let pvd = 16 * 2048;
    data[pvd] = 1;
    data[pvd + 1..pvd + 6].copy_from_slice(b"CD001");
    data[pvd + 6] = 1;
    for b in data[pvd + 40..pvd + 72].iter_mut() {
        *b = b' ';
    }
    data[pvd + 40..pvd + 48].copy_from_slice(b"MY_DISC ");
    let root = record(b"\0", 20, 4096, true);
    data[pvd + 156..pvd + 156 + 34].copy_from_slice(&root[..34]);

    let mut at = 20 * 2048;
    for r in [
        record(b"\0", 20, 4096, true),
        record(b"\x01", 20, 4096, true),
        record(b"README.TXT;1", 24, 5000, false),
        record(b"SUBDIR.", 22, 2048, true),
    ] {
        data[at..at + r.len()].copy_from_slice(&r);
        at += r.len();
    }
    // the rest of the sector is unused; the listing goes on in the next
    let r = record(b"b.dat;1", 27, 10, false);
    data[21 * 2048..21 * 2048 + r.len()].copy_from_slice(&r);

    let mut at = 22 * 2048;
    for r in [
        record(b"\0", 22, 2048, true),
        record(b"\x01", 20, 4096, true),
        record(b"INNER.BIN;1", 28, 0, false),
    ] {
        data[at..at + r.len()].copy_from_slice(&r);
        at += r.len();
    }
    for i in 0..5000 {
        data[24 * 2048 + i] = (i % 253) as u8;
    }
    data[27 * 2048..27 * 2048 + 10].copy_from_slice(b"0123456789");
    data
}

fn names(entries: &[FileEntry]) -> Vec<String> {
    entries.iter().map(|e| e.name.clone()).collect()
}

#[test]
fn root_and_volume_name() {
    let mut fs = Iso9660Filesystem::new(IsoSectorReader::new(image())).unwrap();
    assert_eq!(fs.volume_name(), Some("MY_DISC"));
    let root = fs.root().unwrap();
    assert_eq!(root.path, "/");
    assert_eq!(root.name, "");
    assert_eq!(root.location, 20);
    assert_eq!(root.size, 4096);
    assert!(root.is_directory());
}

#[test]
fn listing_is_filtered_cleaned_and_sorted() {
    let mut fs = Iso9660Filesystem::new(IsoSectorReader::new(image())).unwrap();
    let root = fs.root().unwrap();
    let entries = fs.list_directory(&root).unwrap();
    // directories first, then names without regard to case
    assert_eq!(names(&entries), vec!["SUBDIR", "b.dat", "README.TXT"]);
    assert_eq!(entries[0].entry_type, EntryType::Directory);
    assert_eq!(entries[0].path, "/SUBDIR");
    assert_eq!(entries[0].location, 22);
    assert_eq!(entries[0].size, 0);
    assert_eq!(entries[2].entry_type, EntryType::File);
    assert_eq!(entries[2].path, "/README.TXT");
    assert_eq!(entries[2].size, 5000);
    assert_eq!(entries[2].location, 24);
    assert!(entries.iter().all(|e| e.children.is_none()));

    let inner = fs.list_directory(&entries[0]).unwrap();
    assert_eq!(names(&inner), vec!["INNER.BIN"]);
    assert_eq!(inner[0].path, "/SUBDIR/INNER.BIN");
}

#[test]
fn files_are_read_whole_and_in_ranges() {
    let mut fs = Iso9660Filesystem::new(IsoSectorReader::new(image())).unwrap();
    let root = fs.root().unwrap();
    let entries = fs.list_directory(&root).unwrap();
    let readme = &entries[2];
    let small = &entries[1];
    let expected: Vec<u8> = (0..5000).map(|i| (i % 253) as u8).collect();
    assert_eq!(fs.read_file(readme).unwrap(), expected);
    assert_eq!(fs.read_file(small).unwrap(), b"0123456789".to_vec());
    assert_eq!(fs.read_file_range(small, 2, 3).unwrap(), b"234".to_vec());
    // a range is cut at the end of the file
    assert_eq!(fs.read_file_range(small, 8, 100).unwrap(), b"89".to_vec());
    assert_eq!(fs.read_file_range(small, 10, 5).unwrap(), Vec::<u8>::new());
    assert_eq!(fs.read_file_range(small, 99, 5).unwrap(), Vec::<u8>::new());
    assert_eq!(
        fs.read_file_range(readme, 2040, 20).unwrap(),
        expected[2040..2060].to_vec()
    );
    assert_eq!(
        fs.read_file_range(readme, 4096, 5000).unwrap(),
        expected[4096..].to_vec()
    );
    // an empty file
    let inner = fs.list_directory(&entries[0]).unwrap();
    assert_eq!(fs.read_file(&inner[0]).unwrap(), Vec::<u8>::new());
}

#[test]
fn wrong_kinds_and_missing_extents() {
    let mut fs = Iso9660Filesystem::new(IsoSectorReader::new(image())).unwrap();
    let root = fs.root().unwrap();
    let entries = fs.list_directory(&root).unwrap();
    assert!(matches!(
        fs.list_directory(&entries[1]),
        Err(FilesystemError::NotADirectory(_))
    ));
    assert!(matches!(
        fs.read_file(&entries[0]),
        Err(FilesystemError::NotADirectory(_))
    ));
    assert!(matches!(
        fs.read_file_range(&entries[0], 0, 1),
        Err(FilesystemError::NotADirectory(_))
    ));
    let beyond = FileEntry::new_file("x".to_string(), "/x".to_string(), 100, 1000);
    assert_eq!(fs.read_file(&beyond).unwrap_err().kind(), ErrorKind::Io);
    assert_eq!(fs.read_file_range(&beyond, 0, 10).unwrap_err().kind(), ErrorKind::Io);
    let missing = FileEntry::new_directory("d".to_string(), "/d".to_string(), 1000);
    assert_eq!(fs.list_directory(&missing).unwrap_err().kind(), ErrorKind::Io);
}

#[test]
fn opening_fails_without_a_descriptor() {
    let mut data = image();
    data[16 * 2048] = 2;
    assert_eq!(
        Iso9660Filesystem::new(IsoSectorReader::new(data)).err().unwrap().kind(),
        ErrorKind::Parse
    );
    let mut data = image();
    data[16 * 2048 + 3] = b'X';
    assert_eq!(
        Iso9660Filesystem::new(IsoSectorReader::new(data)).err().unwrap().kind(),
        ErrorKind::Parse
    );
    assert_eq!(
        Iso9660Filesystem::new(IsoSectorReader::new(vec![0u8; 2048 * 16]))
            .err()
            .unwrap()
            .kind(),
        ErrorKind::Io
    );
}

#[test]
fn listing_is_the_same_on_a_raw_image() {
    let cooked = image();
    let sectors = cooked.len() / 2048;
    let mut raw = vec![0x55u8; sectors * 2352];
    for lba in 0..sectors {
        raw[lba * 2352 + 16..lba * 2352 + 16 + 2048]
            .copy_from_slice(&cooked[lba * 2048..(lba + 1) * 2048]);
    }
    let track = TrackInfo {
        number: 1,
        file_offset: 0,
        sector_size: 2352,
        data_offset: 16,
        sector_count: sectors as u64,
        is_data: true,
    };
    let mut fs = Iso9660Filesystem::new(BinCueSectorReader::new(raw, track)).unwrap();
    let root = fs.root().unwrap();
    let entries = fs.list_directory(&root).unwrap();
    assert_eq!(names(&entries), vec!["SUBDIR", "b.dat", "README.TXT"]);
    assert_eq!(fs.read_file(&entries[1]).unwrap(), b"0123456789".to_vec());
}

#[test]
fn records_and_names() {
    let r = Iso9660Filesystem::<IsoSectorReader>::parse_directory_record(&record(
        b"FILE.TXT;12",
        7,
        9,
        false,
    ))
    .unwrap();
    assert_eq!(r.extent_location, 7);
    assert_eq!(r.data_length, 9);
    assert!(!r.is_directory());
    assert!(!r.is_self());
    assert!(!r.is_parent());
    assert_eq!(r.clean_name(), "FILE.TXT");
    let d = DirectoryRecord {
        length: 40,
        extent_location: 1,
        data_length: 2,
        file_flags: 2,
        file_identifier: "DIR...".to_string(),
    };
    assert!(d.is_directory());
    assert_eq!(d.clean_name(), "DIR");
    let s = DirectoryRecord {
        length: 34,
        extent_location: 1,
        data_length: 2,
        file_flags: 2,
        file_identifier: "\0".to_string(),
    };
    assert!(s.is_self());
    assert_eq!(s.clean_name(), ".");
    let p = DirectoryRecord {
        length: 34,
        extent_location: 1,
        data_length: 2,
        file_flags: 2,
        file_identifier: "\x01".to_string(),
    };
    assert!(p.is_parent());
    assert_eq!(p.clean_name(), "..");
    assert!(Iso9660Filesystem::<IsoSectorReader>::parse_directory_record(&[0u8; 32]).is_none());
    assert!(Iso9660Filesystem::<IsoSectorReader>::parse_directory_record(&[0u8; 40]).is_none());
    let mut short = record(b"ABCDEFGH", 1, 1, false);
    short.truncate(36);
    assert!(Iso9660Filesystem::<IsoSectorReader>::parse_directory_record(&short).is_none());
}

#[test]
fn directory_data_that_ends_in_a_broken_record() {
    let mut data = record(b"A.TXT;1", 1, 1, false);
    data.extend_from_slice(&[200u8, 0, 0]); // claims 200 bytes, has 3
    let entries = Iso9660Filesystem::<IsoSectorReader>::parse_directory(&data, "/x");
    assert_eq!(names(&entries), vec!["A.TXT"]);
    assert_eq!(entries[0].path, "/x/A.TXT");
    assert!(Iso9660Filesystem::<IsoSectorReader>::parse_directory(&[], "/").is_empty());
}

#[test]
fn root_of_an_opened_volume() {
    let disc = DiscInfo {
        path: "/d/x.iso".to_string(),
        format: DiscFormat::Iso,
        filesystem: FilesystemType::Iso9660,
        volume_label: None,
        parsed_filename: parse_filename("/d/x.iso"),
        title: "x".to_string(),
        confidence: ConfidenceLevel::Low,
        pvd: None,
        toc: None,
        hfs_mdb: None,
        hfsplus_header: None,
    };
    let mut fs = open_filesystem(IsoSectorReader::new(image()), &disc).unwrap();
    let root = fs.root().unwrap();
    assert_eq!((root.location, root.size), (20, 4096));
    assert_eq!(root.path, "/");
    let entries = fs.list_directory(&root).unwrap();
    assert_eq!(names(&entries), vec!["SUBDIR", "b.dat", "README.TXT"]);
    // reading leaves the volume as it is
    fs.read_file(&entries[1]).unwrap();
    assert_eq!(fs.root().unwrap().location, 20);
    assert_eq!(fs.volume_name(), Some("MY_DISC"));
    assert_eq!(names(&fs.list_directory(&root).unwrap()), vec!["SUBDIR", "b.dat", "README.TXT"]);
}
