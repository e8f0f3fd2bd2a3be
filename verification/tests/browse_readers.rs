use ode_artwork_downloader::disc::browse::reader::{
    BinCueSectorReader, ChdSectorReader, IsoSectorReader, ReadError, SectorReader, TrackInfo,
    RAW_SECTOR_SIZE, SECTOR_SIZE,
};

fn pattern(len: usize) -> Vec<u8> {
    (0..len).map(|i| ((i * 7 + i / 256) % 256) as u8).collect()
}

#[test]
fn sector_sizes() {
    assert_eq!(SECTOR_SIZE, 2048);
    assert_eq!(RAW_SECTOR_SIZE, 2352);
    let reader = IsoSectorReader::new(Vec::new());
    assert_eq!(reader.sector_size(), 2048);
}

#[test]
fn direct_reader_reads_at_address_times_2048() {
    let data = pattern(2048 * 3 + 100);
    let mut reader = IsoSectorReader::new(data.clone());
    assert_eq!(reader.read_sector(0).unwrap(), data[..2048].to_vec());
    assert_eq!(reader.read_sector(2).unwrap(), data[4096..6144].to_vec());
    // a partial sector is never returned
    assert!(matches!(reader.read_sector(3), Err(ReadError::UnexpectedEof)));
    assert_eq!(reader.read_sectors(1, 2).unwrap(), data[2048..6144].to_vec());
    assert!(reader.read_sectors(1, 3).is_err());
    assert_eq!(reader.read_sectors(100, 0).unwrap(), Vec::<u8>::new());
    assert_eq!(reader.read_bytes(6144, 100).unwrap(), data[6144..].to_vec());
    assert!(reader.read_bytes(6144, 101).is_err());
    assert_eq!(reader.read_bytes(5, 3).unwrap(), data[5..8].to_vec());
    assert!(reader.read_sector(u64::MAX).is_err());
    assert!(reader.read_bytes(u64::MAX, 1).is_err());
}

fn raw_track() -> TrackInfo {
    TrackInfo {
        number: 1,
        file_offset: 0,
        sector_size: 2352,
        data_offset: 16,
        sector_count: 4,
        is_data: true,
    }
}

#[test]
fn track_sheet_reader_skips_sector_headers() {
    let data = pattern(2352 * 4);
    let mut reader = BinCueSectorReader::new(data.clone(), raw_track());
    assert_eq!(reader.calculate_offset(0), Some(16));
    assert_eq!(reader.calculate_offset(3), Some(3 * 2352 + 16));
    assert_eq!(reader.calculate_offset(u64::MAX), None);
    assert_eq!(reader.read_sector(1).unwrap(), data[2352 + 16..2352 + 16 + 2048].to_vec());
    assert!(reader.read_sector(4).is_err());
    let two = reader.read_sectors(2, 2).unwrap();
    assert_eq!(two[..2048], data[2 * 2352 + 16..2 * 2352 + 16 + 2048]);
    assert_eq!(two[2048..], data[3 * 2352 + 16..3 * 2352 + 16 + 2048]);
    // a byte range that crosses a sector boundary
    let bytes = reader.read_bytes(2040, 16).unwrap();
    assert_eq!(bytes[..8], data[16 + 2040..16 + 2048]);
    assert_eq!(bytes[8..], data[2352 + 16..2352 + 16 + 8]);
    assert_eq!(reader.read_bytes(4 * 2048 - 1, 1).unwrap().len(), 1);
    assert!(reader.read_bytes(4 * 2048 - 1, 2).is_err());
    assert_eq!(reader.sector_size(), 2048);
}

#[test]
fn track_sheet_reader_honours_the_file_offset() {
    let data = pattern(1000 + 2352 * 2);
    let track = TrackInfo {
        number: 2,
        file_offset: 1000,
        sector_size: 2352,
        data_offset: 24,
        sector_count: 2,
        is_data: true,
    };
    let mut reader = BinCueSectorReader::new(data.clone(), track);
    assert_eq!(
        reader.read_sector(1).unwrap(),
        data[1000 + 2352 + 24..1000 + 2352 + 24 + 2048].to_vec()
    );
    assert!(reader.read_sector(2).is_err());
}

#[test]
fn track_sheet_reader_with_a_sector_size_too_small() {
    let track = TrackInfo {
        number: 1,
        file_offset: 0,
        sector_size: 0,
        data_offset: 0,
        sector_count: 0,
        is_data: true,
    };
    let mut reader = BinCueSectorReader::new(pattern(10000), track);
    assert!(reader.read_sector(0).is_err());
    assert!(reader.read_bytes(0, 1).is_err());
}

#[test]
fn hunk_reader_stitches_sectors_across_units() {
    // units of 4096 bytes, frames of 2448 bytes, user data 16 bytes in
    let data = pattern(4096 * 5);
    let mut reader = ChdSectorReader::new(data.clone(), 4096, 0, 2448, 16);
    // sector 0 lies in unit 0
    assert_eq!(reader.read_sector(0).unwrap(), data[16..16 + 2048].to_vec());
    // sector 1 begins in unit 0 and ends in unit 1
    let start = 2448 + 16;
    assert!(start < 4096 && start + 2048 > 4096);
    assert_eq!(reader.read_sector(1).unwrap(), data[start..start + 2048].to_vec());
    let bytes = reader.read_bytes(2000, 100).unwrap();
    assert_eq!(bytes[..48], data[16 + 2000..16 + 2048]);
    assert_eq!(bytes[48..], data[2448 + 16..2448 + 16 + 52]);
    // the last sector whose data end within the units
    let last = (4096 * 5 - 16 - 2048) / 2448;
    assert!(reader.read_sector(last as u64).is_ok());
    assert!(matches!(
        reader.read_sector(last as u64 + 1),
        Err(ReadError::InvalidHunk)
    ));
}

#[test]
fn hunk_reader_keeps_the_unit_read_last() {
    let data = pattern(4096 * 3 + 17);
    let mut reader = ChdSectorReader::new(data.clone(), 4096, 0, 2448, 0);
    assert_eq!(reader.read_hunk(1).unwrap(), data[4096..8192].to_vec());
    assert_eq!(reader.read_hunk(1).unwrap(), data[4096..8192].to_vec());
    assert_eq!(reader.read_hunk(2).unwrap(), data[8192..12288].to_vec());
    // the bytes after the last whole unit are no unit
    assert!(matches!(reader.read_hunk(3), Err(ReadError::InvalidHunk)));
    // a failed read leaves the kept unit in place
    assert_eq!(reader.read_hunk(2).unwrap(), data[8192..12288].to_vec());
    assert_eq!(reader.decoded_len(), 4096 * 3 + 17);
}

#[test]
fn hunk_reader_with_a_track_offset() {
    let data = pattern(4096 * 4);
    let offset = 2448 * 2;
    let mut reader = ChdSectorReader::new(data.clone(), 4096, offset as u64, 2448, 16);
    assert_eq!(
        reader.read_sector(0).unwrap(),
        data[offset + 16..offset + 16 + 2048].to_vec()
    );
    assert_eq!(
        reader.read_sectors(0, 2).unwrap()[2048..],
        data[offset + 2448 + 16..offset + 2448 + 16 + 2048]
    );
}

#[test]
fn hunk_reader_with_units_too_small() {
    let mut reader = ChdSectorReader::new(pattern(10000), 1024, 0, 2448, 16);
    assert!(reader.read_sector(0).is_err());
    let mut reader = ChdSectorReader::new(pattern(10000), 0, 0, 2448, 16);
    assert!(reader.read_sector(0).is_err());
    assert!(reader.read_hunk(0).is_err());
}
