use ode_artwork_downloader::disc::browse::reader::{
    BinCueSectorReader, IsoSectorReader, SectorReader, TrackInfo,
};
use ode_artwork_downloader::disc::iso9660::{PrimaryVolumeDescriptor, PVD_OFFSET, SECTOR_SIZE};

fn create_test_pvd() -> Vec<u8> {
    let mut sector = vec![0u8; SECTOR_SIZE as usize];
    sector[0] = 1;
    sector[1..6].copy_from_slice(b"CD001");
    sector[6] = 1;
    let volume_id = b"TEST_VOLUME                     ";
    sector[40..72].copy_from_slice(volume_id);
    let system_id = b"TEST_SYSTEM                     ";
    sector[8..40].copy_from_slice(system_id);
    sector
}

#[test]
fn test_parse_pvd() {
    let sector = create_test_pvd();
    let pvd = PrimaryVolumeDescriptor::parse(&sector).unwrap();

    assert_eq!(pvd.volume_id, "TEST_VOLUME");
    assert_eq!(pvd.system_id, "TEST_SYSTEM");
}

#[test]
fn test_read_from_cursor() {
    let mut data = vec![0u8; (PVD_OFFSET + SECTOR_SIZE) as usize];
    let sector = create_test_pvd();
    data[PVD_OFFSET as usize..(PVD_OFFSET + SECTOR_SIZE) as usize].copy_from_slice(&sector);

    let mut reader = IsoSectorReader::new(data);
    let pvd = PrimaryVolumeDescriptor::read_from(&mut reader).unwrap();

    assert_eq!(pvd.volume_id, "TEST_VOLUME");
}

#[test]
fn test_invalid_identifier() {
    let mut sector = create_test_pvd();
    sector[1..6].copy_from_slice(b"XXXXX");

    let result = PrimaryVolumeDescriptor::parse(&sector);
    assert!(result.is_err());
}

#[test]
fn pvd_fields_are_stripped_of_padding() {
    let mut sector = create_test_pvd();
    sector[190..194].copy_from_slice(b"SET ");
    for b in sector[194..318].iter_mut() {
        *b = b' ';
    }
    sector[318..327].copy_from_slice(b"PUBLISHER");
    sector[574..577].copy_from_slice(b"APP");
    let pvd = PrimaryVolumeDescriptor::parse(&sector).unwrap();
    assert_eq!(pvd.volume_set_id, "SET");
    assert_eq!(pvd.publisher_id, "PUBLISHER");
    assert_eq!(pvd.application_id, "APP");
}

#[test]
fn pvd_all_space_field_is_empty() {
    let mut sector = create_test_pvd();
    for b in sector[40..72].iter_mut() {
        *b = b' ';
    }
    let pvd = PrimaryVolumeDescriptor::parse(&sector).unwrap();
    assert_eq!(pvd.volume_id, "");
}

#[test]
fn pvd_inner_spaces_are_kept() {
    let mut sector = create_test_pvd();
    sector[40..72].copy_from_slice(b"MY GAME  DISC\0\0\0                ");
    let pvd = PrimaryVolumeDescriptor::parse(&sector).unwrap();
    assert_eq!(pvd.volume_id, "MY GAME  DISC");
}

#[test]
fn pvd_rejects_wrong_type_version_and_length() {
    let mut sector = create_test_pvd();
    sector[0] = 2;
    assert!(PrimaryVolumeDescriptor::parse(&sector).is_err());
    let mut sector = create_test_pvd();
    sector[6] = 2;
    assert!(PrimaryVolumeDescriptor::parse(&sector).is_err());
    let sector = create_test_pvd();
    assert!(PrimaryVolumeDescriptor::parse(&sector[..2047]).is_err());
}

#[test]
fn pvd_read_from_short_image_fails() {
    let mut reader = IsoSectorReader::new(vec![0u8; 32768 + 2047]);
    assert!(PrimaryVolumeDescriptor::read_from(&mut reader).is_err());
}

#[test]
fn cooked_image_shows_descriptor_signature() {
    let mut data = vec![0u8; 40000];
    let sector = create_test_pvd();
    data[32768..34816].copy_from_slice(&sector);
    let mut reader = IsoSectorReader::new(data);
    let bytes = reader.read_bytes(32768, 6).unwrap();
    assert_eq!(bytes, vec![1, b'C', b'D', b'0', b'0', b'1']);
}

#[test]
fn raw_and_cooked_images_give_the_same_descriptor() {
    let sector = create_test_pvd();
    let mut cooked = vec![0u8; 17 * 2048];
    cooked[16 * 2048..17 * 2048].copy_from_slice(&sector);
    let mut raw = vec![0xAAu8; 17 * 2352];
    for lba in 0..17usize {
        let from = lba * 2352 + 16;
        raw[from..from + 2048].copy_from_slice(&cooked[lba * 2048..(lba + 1) * 2048]);
    }
    let track = TrackInfo {
        number: 1,
        file_offset: 0,
        sector_size: 2352,
        data_offset: 16,
        sector_count: 17,
        is_data: true,
    };
    let mut raw_reader = BinCueSectorReader::new(raw, track);
    let mut cooked_reader = IsoSectorReader::new(cooked.clone());
    let a = raw_reader.read_sector(16).unwrap();
    let b = cooked_reader.read_sector(16).unwrap();
    assert_eq!(a, b);
    assert_eq!(a, sector);
    assert_eq!(
        raw_reader.read_bytes(32768, 2048).unwrap(),
        cooked_reader.read_bytes(32768, 2048).unwrap()
    );
    let from_raw = PrimaryVolumeDescriptor::read_from(&mut raw_reader).unwrap();
    let from_cooked = PrimaryVolumeDescriptor::read_from(&mut cooked_reader).unwrap();
    assert_eq!(from_raw.volume_id, from_cooked.volume_id);
    assert_eq!(from_raw.system_id, from_cooked.system_id);
    assert_eq!(from_raw.volume_id, "TEST_VOLUME");
}
