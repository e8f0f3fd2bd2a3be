use ode_artwork_downloader::disc::apm::{
    find_hfs_partition_offset, parse_partition_map, PartitionEntry,
};
use ode_artwork_downloader::disc::browse::reader::IsoSectorReader;

#[test]
fn test_parse_ddm() {
    let mut data = vec![0u8; 1024];
    data[0] = 0x45;
    data[1] = 0x52;
    data[2] = 0x02;
    data[3] = 0x00;
    data[512] = 0x50;
    data[513] = 0x4D;
    data[516] = 0x00;
    data[517] = 0x00;
    data[518] = 0x00;
    data[519] = 0x01;

    let mut reader = IsoSectorReader::new(data);
    let partitions = parse_partition_map(&mut reader).unwrap();

    assert_eq!(partitions.len(), 1);
    assert_eq!(partitions[0].signature, 0x504D);
}

fn entry(count: u32, start: u32, blocks: u32, name: &[u8], kind: &[u8]) -> Vec<u8> {
    let mut block = vec![0u8; 512];
    block[0] = 0x50;
    block[1] = 0x4D;
    block[4..8].copy_from_slice(&count.to_be_bytes());
    block[8..12].copy_from_slice(&start.to_be_bytes());
    block[12..16].copy_from_slice(&blocks.to_be_bytes());
    block[16..16 + name.len()].copy_from_slice(name);
    block[48..48 + kind.len()].copy_from_slice(kind);
    block
}

fn map(entries: &[Vec<u8>]) -> Vec<u8> {
    let mut data = vec![0u8; 512];
    data[0] = 0x45;
    data[1] = 0x52;
    for e in entries {
        data.extend_from_slice(e);
    }
    data
}

#[test]
fn entry_fields() {
    let block = entry(3, 64, 1000, b"MacOS\0\0", b" Apple_HFS \0");
    let e = PartitionEntry::parse(&block).unwrap();
    assert_eq!(e.map_entries, 3);
    assert_eq!(e.start_block, 64);
    assert_eq!(e.block_count, 1000);
    assert_eq!(e.name, "MacOS");
    assert_eq!(e.partition_type, "Apple_HFS");
    assert!(e.is_hfs());
    let e = PartitionEntry::parse(&entry(1, 1, 1, b"x", b"Apple_HFSX")).unwrap();
    assert!(e.is_hfs());
    let e = PartitionEntry::parse(&entry(1, 1, 1, b"x", b"Apple_Driver")).unwrap();
    assert!(!e.is_hfs());
    let e = PartitionEntry::parse(&entry(1, 1, 1, b"x", b"apple_hfs")).unwrap();
    assert!(!e.is_hfs());
    assert!(PartitionEntry::parse(&block[..511]).is_err());
    let mut bad = block.clone();
    bad[1] = 0;
    assert!(PartitionEntry::parse(&bad).is_err());
}

#[test]
fn offset_of_the_single_volume() {
    let data = map(&[
        entry(2, 1, 63, b"Apple", b"Apple_partition_map"),
        entry(2, 64, 1000, b"Disc", b"Apple_HFS"),
    ]);
    let mut reader = IsoSectorReader::new(data);
    assert_eq!(find_hfs_partition_offset(&mut reader), Ok(64 * 512));
}

#[test]
fn offset_of_the_first_of_two_volumes() {
    let data = map(&[
        entry(3, 1, 63, b"Apple", b"Apple_partition_map"),
        entry(3, 100, 10, b"A", b"Apple_HFS"),
        entry(3, 200, 10, b"B", b"Apple_HFS"),
    ]);
    let mut reader = IsoSectorReader::new(data);
    assert_eq!(find_hfs_partition_offset(&mut reader), Ok(100 * 512));
    // a first block near the end of 32 bits does not overflow
    let data = map(&[entry(1, 0xffff_ffff, 1, b"A", b"Apple_HFS")]);
    let mut reader = IsoSectorReader::new(data);
    assert_eq!(
        find_hfs_partition_offset(&mut reader),
        Ok(0xffff_ffffu64 * 512)
    );
}

#[test]
fn map_without_a_volume_is_an_error() {
    let data = map(&[
        entry(2, 1, 63, b"Apple", b"Apple_partition_map"),
        entry(2, 64, 1000, b"Disc", b"Apple_Free"),
    ]);
    let mut reader = IsoSectorReader::new(data);
    assert!(find_hfs_partition_offset(&mut reader).is_err());
}

#[test]
fn map_rejections() {
    // no driver descriptor signature
    let mut data = map(&[entry(1, 64, 1, b"A", b"Apple_HFS")]);
    data[0] = 0;
    let mut reader = IsoSectorReader::new(data);
    assert!(parse_partition_map(&mut reader).is_err());
    // the first entry is no entry
    let mut data = map(&[entry(1, 64, 1, b"A", b"Apple_HFS")]);
    data[512] = 0;
    let mut reader = IsoSectorReader::new(data);
    assert!(parse_partition_map(&mut reader).is_err());
    // the map claims more entries than the image holds
    let data = map(&[entry(3, 64, 1, b"A", b"Apple_HFS")]);
    let mut reader = IsoSectorReader::new(data);
    assert!(parse_partition_map(&mut reader).is_err());
    // a block that is no entry ends the map
    let mut data = map(&[
        entry(3, 1, 1, b"A", b"Apple_Free"),
        entry(3, 2, 1, b"B", b"Apple_Free"),
        entry(3, 3, 1, b"C", b"Apple_HFS"),
    ]);
    data[512 * 2] = 0;
    let mut reader = IsoSectorReader::new(data);
    let partitions = parse_partition_map(&mut reader).unwrap();
    assert_eq!(partitions.len(), 1);
    // too short for a block
    let mut reader = IsoSectorReader::new(vec![0x45, 0x52]);
    assert!(parse_partition_map(&mut reader).is_err());
}
