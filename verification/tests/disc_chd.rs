use ode_artwork_downloader::disc::browse::reader::{ChdSectorReader, IsoSectorReader, SectorReader};
use ode_artwork_downloader::disc::chd::{
    detect_filesystem_from_chd, extract_toc_from_tracks, get_track_sector_size, is_audio_track,
    is_data_track, parse_cht2_entry, parse_track_metadata, read_chd, ChdError, ChdReader,
    CD_MODE1_DATA_OFFSET, CD_SECTOR_SIZE_COOKED, CD_SECTOR_SIZE_RAW,
};
use ode_artwork_downloader::disc::formats::FilesystemType;
use ode_artwork_downloader::disc::iso9660::PVD_SECTOR;

#[test]
fn test_sector_calculations() {
    assert_eq!(CD_SECTOR_SIZE_RAW, 2352);
    assert_eq!(CD_SECTOR_SIZE_COOKED, 2048);
    assert_eq!(CD_MODE1_DATA_OFFSET, 16);

    let pvd_byte_offset = PVD_SECTOR * CD_SECTOR_SIZE_COOKED as u64;
    assert_eq!(pvd_byte_offset, 32768);
}

#[test]
fn test_parse_cht2_entry() {
    let content = "TRACK:1 TYPE:MODE1_RAW SUBTYPE:NONE FRAMES:16227 PREGAP:150";
    let track = parse_cht2_entry(content, 0).unwrap();
    assert_eq!(track.track_num, 1);
    assert_eq!(track.track_type, "MODE1_RAW");
    assert_eq!(track.frames, 16227);
    assert_eq!(track.frame_offset, 0);
}

#[test]
fn test_is_data_track() {
    assert!(is_data_track("MODE1_RAW"));
    assert!(is_data_track("MODE1"));
    assert!(is_data_track("MODE2_RAW"));
    assert!(!is_data_track("AUDIO"));
}

#[test]
fn entries_without_a_track_number() {
    assert!(parse_cht2_entry("TYPE:AUDIO FRAMES:10", 0).is_none());
    assert!(parse_cht2_entry("TRACK:0 TYPE:AUDIO", 0).is_none());
    assert!(parse_cht2_entry("TRACK:x TYPE:AUDIO", 0).is_none());
    assert!(parse_cht2_entry("", 0).is_none());
    let t = parse_cht2_entry("junk TRACK:2 FRAMES:bad TYPE:A:B", 7).unwrap();
    assert_eq!(t.track_num, 2);
    assert_eq!(t.frames, 0);
    assert_eq!(t.track_type, "A:B");
    assert_eq!(t.frame_offset, 7);
}

#[test]
fn track_types() {
    assert!(is_audio_track("AUDIO"));
    assert!(!is_audio_track("AUDIO2"));
    assert!(!is_data_track("XMODE1"));
    assert_eq!(get_track_sector_size("MODE1_RAW"), (2352, 16));
    assert_eq!(get_track_sector_size("MODE1"), (2048, 0));
}

#[test]
fn tracks_are_ordered_and_offsets_summed() {
    let entries = vec![
        "TRACK:2 TYPE:AUDIO SUBTYPE:NONE FRAMES:200".to_string(),
        "not a track".to_string(),
        "TRACK:1 TYPE:MODE1_RAW SUBTYPE:NONE FRAMES:1000".to_string(),
        "TRACK:3 TYPE:AUDIO SUBTYPE:NONE FRAMES:50".to_string(),
    ];
    let tracks = parse_track_metadata(&entries);
    assert_eq!(tracks.len(), 3);
    assert_eq!(
        tracks.iter().map(|t| t.track_num).collect::<Vec<_>>(),
        vec![1, 2, 3]
    );
    assert_eq!(
        tracks.iter().map(|t| t.frame_offset).collect::<Vec<_>>(),
        vec![0, 1000, 1200]
    );
    let toc = extract_toc_from_tracks(&tracks).unwrap();
    assert_eq!(toc.first_track, 2);
    assert_eq!(toc.last_track, 3);
    assert_eq!(toc.track_offsets, vec![1150, 1350]);
    assert_eq!(toc.lead_out, 1250 + 150);
    let data_only = parse_track_metadata(&vec!["TRACK:1 TYPE:MODE1 FRAMES:5".to_string()]);
    assert!(extract_toc_from_tracks(&data_only).is_none());
}

fn pvd_sector(volume: &[u8]) -> Vec<u8> {
    let mut sector = vec![0u8; 2048];
    sector[0] = 1;
    sector[1..6].copy_from_slice(b"CD001");
    sector[6] = 1;
    for b in sector[40..72].iter_mut() {
        *b = b' ';
    }
    sector[40..40 + volume.len()].copy_from_slice(volume);
    sector
}

/// A decoded stream of frames of 2448 bytes that holds a data track with
/// a volume descriptor at its sector 16.
fn stream(frames: usize, track_start: usize, volume: &[u8]) -> Vec<u8> {
    let mut data = vec![0u8; frames * 2448];
    let at = (track_start + 16) * 2448 + 16;
    data[at..at + 2048].copy_from_slice(&pvd_sector(volume));
    data
}

#[test]
fn filesystem_of_a_data_track() {
    let entries = vec![
        "TRACK:1 TYPE:AUDIO SUBTYPE:NONE FRAMES:4".to_string(),
        "TRACK:2 TYPE:MODE1_RAW SUBTYPE:NONE FRAMES:20".to_string(),
    ];
    let tracks = parse_track_metadata(&entries);
    let mut reader = IsoSectorReader::new(stream(24, 4, b"CHD_GAME"));
    let found = detect_filesystem_from_chd(&mut reader, &tracks);
    assert_eq!(found.filesystem, FilesystemType::Iso9660);
    assert_eq!(found.volume_label, Some("CHD_GAME".to_string()));
}

#[test]
fn audio_only_image_is_not_probed() {
    let entries = vec!["TRACK:1 TYPE:AUDIO SUBTYPE:NONE FRAMES:24".to_string()];
    let tracks = parse_track_metadata(&entries);
    // the stream would show a descriptor if it were probed
    let mut data = vec![0u8; 24 * 2448];
    data[32768..32768 + 2048].copy_from_slice(&pvd_sector(b"HIDDEN"));
    let mut reader = IsoSectorReader::new(data);
    let found = detect_filesystem_from_chd(&mut reader, &tracks);
    assert_eq!(found.filesystem, FilesystemType::Unknown);
    assert_eq!(found.volume_label, None);
}

#[test]
fn image_without_track_metadata() {
    let mut data = vec![0u8; 40000];
    data[32768..32768 + 2048].copy_from_slice(&pvd_sector(b"LEGACY"));
    let mut reader = IsoSectorReader::new(data);
    let info = read_chd(&mut reader, &Vec::new(), 19584, 40000);
    assert_eq!(info.filesystem, FilesystemType::Iso9660);
    assert_eq!(info.volume_label, Some("LEGACY".to_string()));
    assert_eq!(info.hunk_size, 19584);
    assert_eq!(info.logical_size, 40000);
    assert!(info.metadata.is_none());
    assert!(info.toc.is_none());
}

#[test]
fn stream_reads_cross_unit_boundaries() {
    let data: Vec<u8> = (0..10000u32).map(|i| (i % 251) as u8).collect();
    let units = ChdSectorReader::new(data.clone(), 4096, 0, 2448, 16);
    let mut reader = ChdReader::new(units);
    // two whole units are the stream; the rest is no unit
    assert_eq!(reader.read_bytes(0, 8192).unwrap(), data[..8192].to_vec());
    assert_eq!(reader.read_bytes(4000, 200).unwrap(), data[4000..4200].to_vec());
    assert_eq!(reader.read_bytes(8191, 1).unwrap(), data[8191..8192].to_vec());
    assert!(reader.read_bytes(8191, 2).is_err());
    assert!(reader.read_bytes(9000, 10).is_err());
    assert_eq!(reader.read_bytes(9000, 0).unwrap(), Vec::<u8>::new());
    assert_eq!(reader.read_sector(1).unwrap(), data[2048..4096].to_vec());
    assert_eq!(reader.read_sectors(1, 3).unwrap(), data[2048..8192].to_vec());
    assert!(reader.read_sectors(1, 4).is_err());
    let units = reader.into_inner();
    assert_eq!(units.hunk_size(), 4096);
}

#[test]
fn error_messages() {
    assert_eq!(ChdError::Parse("x".to_string()).message(), "CHD parse error: x");
    assert_eq!(ChdError::SectorRead("y".to_string()).message(), "Sector read error: y");
}
