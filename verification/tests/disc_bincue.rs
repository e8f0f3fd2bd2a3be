use ode_artwork_downloader::disc::bincue::{
    bin_path_candidates, collect_tracks, detect_filesystem, extract_toc, first_data_track,
    normalize_cue_keywords, parse_tracks, read_bincue, resolve_bin_path_with_cue_fallback,
    BinCueError, ParsedTrack,
};
use ode_artwork_downloader::disc::browse::reader::IsoSectorReader;
use ode_artwork_downloader::disc::cue::{
    get_logical_sector_size, get_track_params, index_frames, CueCommand, CueTrackType,
};
use ode_artwork_downloader::disc::formats::FilesystemType;

#[test]
fn test_get_track_params() {
    let (size, offset, is_data) = get_track_params(&CueTrackType::Audio);
    assert_eq!(size, 2352);
    assert_eq!(offset, 0);
    assert!(!is_data);

    let (size, offset, is_data) = get_track_params(&CueTrackType::Mode(1, 2048));
    assert_eq!(size, 2048);
    assert_eq!(offset, 0);
    assert!(is_data);

    let (size, offset, is_data) = get_track_params(&CueTrackType::Mode(1, 2352));
    assert_eq!(size, 2352);
    assert_eq!(offset, 16);
    assert!(is_data);
}

#[test]
fn test_normalize_cue_keywords() {
    let input = r#"FILE "game.bin" BINARY
TRACK 01 MODE1/2352
  INDEX 01 00:00:00"#;
    let output = normalize_cue_keywords(input);
    assert!(output.contains("Binary"));
    assert!(!output.contains("BINARY"));
}

#[test]
fn test_parse_multifile_cue() {
    let cue_content = r#"CATALOG 0000000000000
FILE "Batman Forever (Europe) (Track 01).bin" BINARY
  TRACK 01 MODE1/2352
    INDEX 01 00:00:00
FILE "Batman Forever (Europe) (Track 02).bin" BINARY
  TRACK 02 AUDIO
    INDEX 00 00:00:00
    INDEX 01 00:02:00"#;

    let normalized = normalize_cue_keywords(cue_content);
    println!("Normalized:\n{}", normalized);

    let result = cue_sheet::parser::parse_cue(&normalized);
    println!("Parse result: {:?}", result);
    assert!(result.is_ok(), "Failed to parse CUE: {:?}", result.err());

    let commands = result.unwrap();
    assert!(commands.len() >= 4, "Expected at least 4 commands, got {}", commands.len());
}

#[test]
fn normalized_sheet_is_exact() {
    let input = "  CATALOG 123\r\nFILE \"a.bin\" BINARY\r\nTRACK 01 AUDIO\nFILE b MOTOROLA\nFILE c WAVE\nFILE d MP3\nFILE e AIFF";
    assert_eq!(
        normalize_cue_keywords(input),
        "FILE \"a.bin\" Binary\nTRACK 01 AUDIO\nFILE b Motorola\nFILE c Wave\nFILE d Mp3\nFILE e Aiff\n"
    );
    assert_eq!(normalize_cue_keywords(""), "");
    assert_eq!(normalize_cue_keywords("\n\n"), "\n\n");
}

#[test]
fn tracks_of_a_sheet() {
    let cue_content = r#"CATALOG 0000000000000
FILE "Batman Forever (Europe) (Track 01).bin" BINARY
  TRACK 01 MODE1/2352
    INDEX 01 00:00:00
FILE "Batman Forever (Europe) (Track 02).bin" BINARY
  TRACK 02 AUDIO
    INDEX 00 00:00:00
    INDEX 01 00:02:00"#;
    let tracks = parse_tracks(cue_content).unwrap();
    assert_eq!(tracks.len(), 2);
    assert_eq!(tracks[0].track_no, 1);
    assert_eq!(tracks[0].track_type, CueTrackType::Mode(1, 2352));
    assert_eq!(tracks[0].sector_size, 2352);
    assert_eq!(tracks[0].data_offset, 16);
    assert!(tracks[0].is_data);
    assert_eq!(tracks[0].bin_filename, "Batman Forever (Europe) (Track 01).bin");
    assert_eq!(tracks[0].index_01, Some((0, 0, 0)));
    assert_eq!(tracks[1].track_type, CueTrackType::Audio);
    assert_eq!(tracks[1].bin_filename, "Batman Forever (Europe) (Track 02).bin");
    assert_eq!(tracks[1].index_01, Some((0, 2, 0)));
    assert_eq!(first_data_track(&tracks), Some(0));
}

#[test]
fn sheet_errors() {
    assert!(matches!(parse_tracks("FILE a.bin BINARY\n"), Err(BinCueError::CueParse(_))));
    assert!(matches!(parse_tracks("NONSENSE 1 2 3\n"), Err(BinCueError::CueParse(_))));
    assert_eq!(
        BinCueError::NoDataTrack.message(),
        "No data track found in CUE sheet"
    );
    assert_eq!(
        BinCueError::BinNotFound("x.bin".to_string()).message(),
        "BIN file not found: x.bin"
    );
}

#[test]
fn commands_become_tracks() {
    let commands = vec![
        CueCommand::Track(1, CueTrackType::Audio),
        CueCommand::Index(1, 0, 2, 0),
        CueCommand::Other,
        CueCommand::File("b.bin".to_string()),
        CueCommand::Index(0, 9, 9, 9),
        CueCommand::Track(2, CueTrackType::Mode(2, 2352)),
    ];
    let tracks = collect_tracks(&commands);
    assert_eq!(tracks.len(), 2);
    assert_eq!(tracks[0].bin_filename, "unknown.bin");
    assert_eq!(tracks[0].index_01, Some((0, 2, 0)));
    assert_eq!(tracks[1].bin_filename, "b.bin");
    assert_eq!(tracks[1].index_01, None);
    assert_eq!(tracks[1].data_offset, 24);
    assert_eq!(first_data_track(&tracks), Some(1));
}

#[test]
fn track_geometry() {
    assert_eq!(get_track_params(&CueTrackType::Cdg), (2448, 0, false));
    assert_eq!(get_track_params(&CueTrackType::Cdi(2352)), (2352, 8, true));
    assert_eq!(get_track_params(&CueTrackType::Mode(2, 2336)), (2336, 0, true));
    assert_eq!(get_track_params(&CueTrackType::Mode(3, 2352)), (2352, 24, false));
    assert_eq!(get_logical_sector_size(&CueTrackType::Mode(1, 2352)), 2048);
    assert_eq!(get_logical_sector_size(&CueTrackType::Mode(2, 2352)), 2336);
    assert_eq!(get_logical_sector_size(&CueTrackType::Mode(2, 2324)), 2324);
    assert_eq!(get_logical_sector_size(&CueTrackType::Audio), 2048);
    assert_eq!(index_frames(1, 2, 3), Some(4653));
    assert_eq!(index_frames(-1, 2, 3), None);
}

#[test]
fn candidates_for_the_binary_file() {
    let candidates = bin_path_candidates("/d", "sub/game.bin", Some("/d/sheet.cue"));
    assert_eq!(
        candidates,
        vec![
            "/d/sub/game.bin",
            "/d/game.bin",
            "/d/game.bin",
            "/d/game.BIN",
            "/d/game.img",
            "/d/game.IMG",
            "/d/sheet.bin",
            "/d/sheet.BIN",
            "/d/sheet.img",
            "/d/sheet.IMG",
        ]
    );
    let candidates = bin_path_candidates("/d", "game.bin", None);
    assert_eq!(candidates.len(), 6);
}

#[test]
fn binary_file_is_the_first_that_exists() {
    let mut exists = vec![false; 10];
    exists[7] = true;
    exists[9] = true;
    let found =
        resolve_bin_path_with_cue_fallback("/d", "sub/game.bin", Some("/d/sheet.cue"), &exists)
            .unwrap();
    assert_eq!(found, "/d/sheet.BIN");
    let missing = resolve_bin_path_with_cue_fallback(
        "/d",
        "sub/game.bin",
        Some("/d/sheet.cue"),
        &vec![false; 10],
    );
    match missing {
        Err(BinCueError::BinNotFound(path)) => assert_eq!(path, "/d/sub/game.bin"),
        _ => panic!("expected BinNotFound"),
    }
    // flags that are missing count as false
    assert!(resolve_bin_path_with_cue_fallback("/d", "g.bin", None, &vec![]).is_err());
}

fn pvd_sector(volume: &[u8]) -> Vec<u8> {
    let mut sector = vec![0u8; 2048];
    sector[0] = 1;
    sector[1..6].copy_from_slice(b"CD001");
    sector[6] = 1;
    for b in sector[40..72].iter_mut() {
        *b = b' ';
    }
    sector[40..40 + volume.len()].copy_from_slice(volume);
    sector
}

fn raw_image(volume: &[u8]) -> Vec<u8> {
    let mut raw = vec![0u8; 20 * 2352];
    let at = 16 * 2352 + 16;
    raw[at..at + 2048].copy_from_slice(&pvd_sector(volume));
    raw
}

#[test]
fn filesystem_on_a_raw_track() {
    let mut reader = IsoSectorReader::new(raw_image(b"RAW_GAME"));
    let found = detect_filesystem(&mut reader, 2352, 16, &CueTrackType::Mode(1, 2352));
    assert_eq!(found.filesystem, FilesystemType::Iso9660);
    assert_eq!(found.volume_label, Some("RAW_GAME".to_string()));
    assert_eq!(found.pvd.unwrap().volume_id, "RAW_GAME");
    assert!(found.hfs_mdb.is_none());
}

#[test]
fn filesystem_found_by_the_fallback() {
    // the sheet says cooked, the file is raw
    let mut reader = IsoSectorReader::new(raw_image(b"FALLBACK"));
    let found = detect_filesystem(&mut reader, 2048, 0, &CueTrackType::Mode(1, 2048));
    assert_eq!(found.filesystem, FilesystemType::Iso9660);
    assert_eq!(found.volume_label, Some("FALLBACK".to_string()));
}

#[test]
fn hierarchical_filesystem_on_a_cooked_track() {
    let mut data = vec![0u8; 4096];
    data[1024] = 0x42;
    data[1025] = 0x44;
    data[1024 + 36] = 3;
    data[1024 + 37..1024 + 40].copy_from_slice(b"Mac");
    let mut reader = IsoSectorReader::new(data);
    let found = detect_filesystem(&mut reader, 2048, 0, &CueTrackType::Mode(1, 2048));
    assert_eq!(found.filesystem, FilesystemType::Hfs);
    assert_eq!(found.volume_label, Some("Mac".to_string()));
    assert_eq!(found.hfs_mdb.unwrap().volume_name, "Mac");
}

#[test]
fn nothing_on_an_empty_file() {
    let mut reader = IsoSectorReader::new(vec![0u8; 100]);
    let found = detect_filesystem(&mut reader, 2352, 16, &CueTrackType::Mode(1, 2352));
    assert_eq!(found.filesystem, FilesystemType::Unknown);
    assert_eq!(found.volume_label, None);
}

fn track(no: u32, kind: CueTrackType, index: Option<(i32, i8, i8)>) -> ParsedTrack {
    let (sector_size, data_offset, is_data) = get_track_params(&kind);
    ParsedTrack {
        track_no: no,
        track_type: kind,
        sector_size,
        data_offset,
        is_data,
        bin_filename: "a.bin".to_string(),
        index_01: index,
    }
}

#[test]
fn table_of_contents_of_a_sheet() {
    let tracks = vec![
        track(1, CueTrackType::Mode(1, 2352), Some((0, 0, 0))),
        track(2, CueTrackType::Audio, Some((0, 2, 0))),
        track(3, CueTrackType::Audio, None),
    ];
    let toc = extract_toc(&tracks, Some(2352 * 1000)).unwrap();
    assert_eq!(toc.first_track, 1);
    assert_eq!(toc.last_track, 2);
    assert_eq!(toc.track_offsets, vec![150, 300]);
    assert_eq!(toc.lead_out, 1150);
    // without the size of the file the disc ends 5000 frames after the last entry
    let toc = extract_toc(&tracks, None).unwrap();
    assert_eq!(toc.lead_out, 150 + 5000 + 150);
    // no audio track: no table
    let data_only = vec![track(1, CueTrackType::Mode(1, 2352), Some((0, 0, 0)))];
    assert!(extract_toc(&data_only, Some(1000)).is_none());
    // no index: no table
    let no_index = vec![track(1, CueTrackType::Audio, None)];
    assert!(extract_toc(&no_index, Some(1000)).is_none());
}

#[test]
fn whole_track_sheet_image() {
    let tracks = vec![
        track(1, CueTrackType::Mode(1, 2352), Some((0, 0, 0))),
        track(2, CueTrackType::Audio, Some((0, 2, 0))),
    ];
    let image = raw_image(b"GAME");
    let size = image.len() as u64;
    let mut reader = IsoSectorReader::new(image);
    let info = read_bincue(&tracks, "/d/a.bin".to_string(), Some(size), &mut reader);
    assert_eq!(info.bin_path, "/d/a.bin");
    assert_eq!(info.track_count, 2);
    assert_eq!(info.filesystem, FilesystemType::Iso9660);
    assert_eq!(info.volume_label, Some("GAME".to_string()));
    assert_eq!(info.toc.unwrap().lead_out, 20 + 150);
}
