use ode_artwork_downloader::disc::browse::reader::IsoSectorReader;
use ode_artwork_downloader::disc::hfs::MasterDirectoryBlock;
use ode_artwork_downloader::disc::hfsplus::HfsPlusVolumeHeader;

#[test]
fn test_parse_mdb() {
    let mut data = vec![0u8; 2048];
    data[1024] = 0x42;
    data[1025] = 0x44;
    data[1060] = 7;
    data[1061..1068].copy_from_slice(b"TestVol");

    let mut reader = IsoSectorReader::new(data);
    let mdb = MasterDirectoryBlock::parse(&mut reader).unwrap();

    assert_eq!(mdb.signature, 0x4244);
    assert_eq!(mdb.volume_name, "TestVol");
    assert!(mdb.is_valid());
}

#[test]
fn mdb_fields_and_rejections() {
    let mut block = vec![0u8; 162];
    block[0] = 0x42;
    block[1] = 0x44;
    block[2..6].copy_from_slice(&[0, 0, 1, 2]);
    block[18..20].copy_from_slice(&[0x01, 0x00]);
    block[20..24].copy_from_slice(&[0, 0, 0x02, 0]);
    block[36] = 3;
    block[37..40].copy_from_slice(b" A ");
    let mdb = MasterDirectoryBlock::parse_block(&block).unwrap();
    assert_eq!(mdb.create_date, 258);
    assert_eq!(mdb.alloc_blocks, 256);
    assert_eq!(mdb.alloc_block_size, 512);
    assert_eq!(mdb.volume_name, "A");

    // an empty name parses, but the block is not valid
    block[36] = 0;
    let mdb = MasterDirectoryBlock::parse_block(&block).unwrap();
    assert_eq!(mdb.volume_name, "");
    assert!(!mdb.is_valid());

    // a name longer than 27 bytes is rejected
    block[36] = 28;
    assert!(MasterDirectoryBlock::parse_block(&block).is_err());

    // a wrong signature is rejected
    block[36] = 1;
    block[1] = 0x45;
    assert!(MasterDirectoryBlock::parse_block(&block).is_err());

    // a short block is rejected
    assert!(MasterDirectoryBlock::parse_block(&block[..161]).is_err());
}

#[test]
fn mdb_at_position() {
    let mut data = vec![0u8; 4096];
    data[2048] = 0x42;
    data[2049] = 0x44;
    data[2048 + 36] = 4;
    data[2048 + 37..2048 + 41].copy_from_slice(b"Disk");
    let mut reader = IsoSectorReader::new(data);
    let mdb = MasterDirectoryBlock::parse_from_current_position(&mut reader, 2048).unwrap();
    assert_eq!(mdb.volume_name, "Disk");
    assert!(MasterDirectoryBlock::parse_from_current_position(&mut reader, 4000).is_err());
}

#[test]
fn test_parse_hfsplus_header() {
    let mut data = vec![0u8; 2048];
    data[1024] = 0x48;
    data[1025] = 0x2B;
    data[1026] = 0x00;
    data[1027] = 0x04;
    data[1064] = 0x00;
    data[1065] = 0x00;
    data[1066] = 0x10;
    data[1067] = 0x00;
    data[1068] = 0x00;
    data[1069] = 0x00;
    data[1070] = 0x03;
    data[1071] = 0xE8;

    let mut reader = IsoSectorReader::new(data);
    let (header, _name) = HfsPlusVolumeHeader::parse(&mut reader).unwrap();

    assert_eq!(header.signature, 0x482B);
    assert_eq!(header.version, 4);
    assert_eq!(header.block_size, 4096);
    assert_eq!(header.total_blocks, 1000);
    assert!(header.is_valid());
}

fn put16(data: &mut [u8], at: usize, v: u16) {
    data[at..at + 2].copy_from_slice(&v.to_be_bytes());
}

fn put32(data: &mut [u8], at: usize, v: u32) {
    data[at..at + 4].copy_from_slice(&v.to_be_bytes());
}

/// An extended volume with a catalog of a header node and one leaf that
/// holds the thread record of the root folder.
fn volume_with_name(name: &str, next_of_leaf: u32) -> Vec<u8> {
    let block_size = 512u32;
    let node_size = 512usize;
    let mut data = vec![0u8; 8192];
    data[1024] = 0x48;
    data[1025] = 0x2B;
    put16(&mut data, 1026, 4);
    put32(&mut data, 1024 + 40, block_size);
    put32(&mut data, 1024 + 44, 16);
    put32(&mut data, 1024 + 128, 4); // catalog at block 4 = byte 2048
    put32(&mut data, 1024 + 132, 8);
    let catalog = 2048usize;
    data[catalog + 8] = 1; // header node
    put32(&mut data, catalog + 14 + 10, 1); // first leaf
    put16(&mut data, catalog + 14 + 18, node_size as u16);
    let leaf = catalog + node_size;
    put32(&mut data, leaf, next_of_leaf);
    data[leaf + 8] = 0xFF;
    put16(&mut data, leaf + 10, 1);
    // record 0 at offset 14
    put16(&mut data, leaf + node_size - 2, 14);
    let rec = leaf + 14;
    put16(&mut data, rec, 6); // key length
    put32(&mut data, rec + 2, 2); // parent id
    put16(&mut data, rec + 6, 0); // empty name
    let payload = rec + 2 + 6;
    put16(&mut data, payload, 3); // folder thread
    put32(&mut data, payload + 4, 1);
    let units: Vec<u16> = name.encode_utf16().collect();
    put16(&mut data, payload + 8, units.len() as u16);
    for (i, u) in units.iter().enumerate() {
        put16(&mut data, payload + 10 + 2 * i, *u);
    }
    data
}

#[test]
fn hfsplus_volume_name_comes_from_the_catalog() {
    let data = volume_with_name("My Disc", 0);
    let mut reader = IsoSectorReader::new(data);
    let (header, name) = HfsPlusVolumeHeader::parse(&mut reader).unwrap();
    assert_eq!(header.catalog_file_extent.start_block, 4);
    assert_eq!(name, "My Disc");
}

#[test]
fn hfsplus_volume_name_falls_back_to_placeholder() {
    // no catalog extent
    let mut data = volume_with_name("My Disc", 0);
    put32(&mut data, 1024 + 128, 0);
    let mut reader = IsoSectorReader::new(data);
    let (_, name) = HfsPlusVolumeHeader::parse(&mut reader).unwrap();
    assert_eq!(name, "HFS+ Volume");

    // the catalog does not begin with a header node
    let mut data = volume_with_name("My Disc", 0);
    data[2048 + 8] = 0;
    let mut reader = IsoSectorReader::new(data);
    let (_, name) = HfsPlusVolumeHeader::parse(&mut reader).unwrap();
    assert_eq!(name, "HFS+ Volume");

    // a blank name is no name
    let data = volume_with_name("   ", 0);
    let mut reader = IsoSectorReader::new(data);
    let (_, name) = HfsPlusVolumeHeader::parse(&mut reader).unwrap();
    assert_eq!(name, "HFS+ Volume");
}

#[test]
fn hfsplus_name_lookup_survives_a_cycle() {
    // the leaf holds no thread record for the root and points at itself
    let mut data = volume_with_name("X", 1);
    let leaf = 2048 + 512;
    put32(&mut data, leaf + 14 + 2, 3); // parent id 3: not the root
    let mut reader = IsoSectorReader::new(data);
    let (_, name) = HfsPlusVolumeHeader::parse(&mut reader).unwrap();
    assert_eq!(name, "HFS+ Volume");
}

#[test]
fn hfsplus_header_rejections() {
    let mut data = vec![0u8; 2048];
    data[1024] = 0x48;
    data[1025] = 0x2C;
    let mut reader = IsoSectorReader::new(data);
    assert!(HfsPlusVolumeHeader::parse(&mut reader).is_err());
    let mut reader = IsoSectorReader::new(vec![0u8; 1500]);
    assert!(HfsPlusVolumeHeader::parse(&mut reader).is_err());
    // the signature of the case-sensitive variant is accepted
    let mut block = vec![0u8; 512];
    block[0] = 0x48;
    block[1] = 0x58;
    let header = HfsPlusVolumeHeader::parse_header(&block).unwrap();
    assert_eq!(header.signature, 0x4858);
    assert!(!header.is_valid());
}
