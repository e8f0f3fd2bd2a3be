use ode_artwork_downloader::api::redump::{Datafile, Game, Header, RedumpDatabase, Rom};
use ode_artwork_downloader::config::{
    default_access_token_url, default_authorize_url, default_repository_url,
    default_request_token_url, default_update_enabled, AppConfig, AppSecrets, DiscogsSecrets,
    UpdateCheckConfig,
};
use ode_artwork_downloader::crypto::EmbeddedSecrets;
use ode_artwork_downloader::disc::browse::entry::{EntryType, FileEntry};
use ode_artwork_downloader::disc::browse::filesystem::FilesystemError;
use ode_artwork_downloader::disc::browse::order::sort_listing;
use ode_artwork_downloader::disc::browse::reader::ReadError;
use ode_artwork_downloader::disc::browse::{
    normalize_cue_keywords, parse_chd_for_data_track, parse_cue_for_data_track, resolve_bin_path,
    with_sector_count,
};
use ode_artwork_downloader::gui::browse_view::{FileContent, ViewMode};
use ode_artwork_downloader::gui::hex_view::HexView;
use ode_artwork_downloader::gui::text_view::{TextEncoding, TextView};

fn file(size: u64) -> FileEntry {
    FileEntry::new_file("f".to_string(), "/f".to_string(), size, 1)
}

#[test]
fn entry_constructors() {
    let f = FileEntry::new_file("a.txt".to_string(), "/a.txt".to_string(), 7, 9);
    assert!(f.is_file() && !f.is_directory());
    assert_eq!((f.size, f.location), (7, 9));
    let d = FileEntry::new_directory("d".to_string(), "/d".to_string(), 3);
    assert!(d.is_directory() && !d.is_file());
    assert_eq!(d.size, 0);
    let r = FileEntry::root(5);
    assert_eq!(r.path, "/");
    assert_eq!(r.name, "");
    assert_eq!(r.entry_type, EntryType::Directory);
    let mut with_children = FileEntry::root(1);
    with_children.children = Some(vec![f.clone(), d.clone()]);
    let copy = with_children.clone();
    assert_eq!(copy.children.unwrap().len(), 2);
}

#[test]
fn size_strings() {
    assert_eq!(FileEntry::root(1).size_string(), "");
    assert_eq!(file(0).size_string(), "0 B");
    assert_eq!(file(1023).size_string(), "1023 B");
    assert_eq!(file(1024).size_string(), "1.0 KB");
    assert_eq!(file(1536).size_string(), "1.5 KB");
    assert_eq!(file(1024 * 1024 - 1).size_string(), "1024.0 KB");
    assert_eq!(file(1024 * 1024).size_string(), "1.0 MB");
    assert_eq!(file(5 * 1024 * 1024 + 512 * 1024).size_string(), "5.5 MB");
    assert_eq!(file(1024 * 1024 * 1024).size_string(), "1.00 GB");
    assert_eq!(file(3 * 1024 * 1024 * 1024 + 256 * 1024 * 1024).size_string(), "3.25 GB");
    // ties go to the even tenth
    assert_eq!(file(1024 + 256).size_string(), "1.2 KB");
    assert_eq!(file(1024 + 768).size_string(), "1.8 KB");
}

#[test]
fn listing_order_is_stable() {
    let entries = vec![
        FileEntry::new_file("b".to_string(), "/1".to_string(), 1, 1),
        FileEntry::new_file("B".to_string(), "/2".to_string(), 2, 2),
        FileEntry::new_directory("z".to_string(), "/3".to_string(), 3),
        FileEntry::new_file("a".to_string(), "/4".to_string(), 4, 4),
        FileEntry::new_directory("A".to_string(), "/5".to_string(), 5),
    ];
    let sorted = sort_listing(entries);
    assert_eq!(
        sorted.iter().map(|e| e.path.as_str()).collect::<Vec<_>>(),
        vec!["/5", "/3", "/4", "/1", "/2"]
    );
    assert!(sort_listing(Vec::new()).is_empty());
    // children that an entry holds stay with it
    let mut open = FileEntry::new_directory("m".to_string(), "/m".to_string(), 1);
    open.children = Some(vec![FileEntry::new_file("x".to_string(), "/m/x".to_string(), 1, 2)]);
    let sorted = sort_listing(vec![
        FileEntry::new_file("a".to_string(), "/a".to_string(), 1, 3),
        open,
    ]);
    assert_eq!(sorted[0].name, "m");
    assert_eq!(sorted[0].children.as_ref().unwrap().len(), 1);
    assert!(sorted[1].children.is_none());
}

#[test]
fn filesystem_error_messages() {
    assert_eq!(FilesystemError::Unsupported.message(), "Unsupported filesystem");
    assert_eq!(
        FilesystemError::NotFound("x".to_string()).message(),
        "Entry not found: x"
    );
    assert_eq!(
        FilesystemError::Io(ReadError::UnexpectedEof).message(),
        "IO error: unexpected end of image"
    );
    assert_eq!(
        FilesystemError::Parse("bad".to_string()).message(),
        "Filesystem error: bad"
    );
}

#[test]
fn sheet_for_browsing() {
    let sheet = "CATALOG 1\nFILE \"my game.bin\" BINARY\n  TRACK 01 AUDIO\n    INDEX 01 00:00:00\n  TRACK 02 MODE1/2352\n    INDEX 00 01:00:00\n    INDEX 01 01:02:00\n";
    assert_eq!(
        normalize_cue_keywords(sheet),
        "FILE my game.bin Binary\n  TRACK 01 AUDIO\n    INDEX 01 00:00:00\n  TRACK 02 MODE1/2352\n    INDEX 00 01:00:00\n    INDEX 01 01:02:00\n"
    );
    let sheet = "FILE \"game.bin\" BINARY\n  TRACK 01 AUDIO\n    INDEX 01 00:00:00\n  TRACK 02 MODE1/2352\n    INDEX 01 01:02:00\n";
    let (name, track) = parse_cue_for_data_track(sheet).unwrap();
    assert_eq!(name, "game.bin");
    assert_eq!(track.number, 2);
    assert_eq!(track.sector_size, 2352);
    assert_eq!(track.data_offset, 16);
    assert_eq!(track.file_offset, 0);
    assert!(track.is_data);
    let track = with_sector_count(track, 2352 * 10 + 5);
    assert_eq!(track.sector_count, 10);
    let audio = "FILE \"game.bin\" BINARY\n  TRACK 01 AUDIO\n    INDEX 01 00:00:00\n";
    assert!(matches!(
        parse_cue_for_data_track(audio),
        Err(FilesystemError::Parse(_))
    ));
    assert!(parse_cue_for_data_track("garbage here\n").is_err());
}

#[test]
fn binary_file_for_browsing() {
    let found = resolve_bin_path("/d", "g.bin", None, &vec![false, true]).unwrap();
    assert_eq!(found, "/d/g.bin");
    assert!(matches!(
        resolve_bin_path("/d", "g.bin", None, &vec![false; 6]),
        Err(FilesystemError::Io(ReadError::NotFound))
    ));
}

#[test]
fn data_track_of_track_metadata() {
    let entries = vec![
        "TRACK:1 TYPE:AUDIO SUBTYPE:NONE FRAMES:100 PREGAP:0".to_string(),
        "TRACK:2 TYPE:AUDIO SUBTYPE:NONE FRAMES:50".to_string(),
        "TRACK:3 TYPE:MODE1_RAW SUBTYPE:NONE FRAMES:1000".to_string(),
    ];
    assert_eq!(parse_chd_for_data_track(&entries), (150 * 2448, 2448, 16));
    let cooked = vec!["TRACK:1 TYPE:MODE1 SUBTYPE:NONE FRAMES:1000".to_string()];
    assert_eq!(parse_chd_for_data_track(&cooked), (0, 2448, 0));
    let audio = vec!["TRACK:1 TYPE:AUDIO SUBTYPE:NONE FRAMES:100".to_string()];
    assert_eq!(parse_chd_for_data_track(&audio), (0, 2448, 16));
    assert_eq!(parse_chd_for_data_track(&Vec::new()), (0, 2448, 16));
}

#[test]
fn text_encodings() {
    assert_eq!(TextEncoding::Ascii.decode(b"abc"), "abc");
    assert_eq!(TextEncoding::Utf8.decode("héllo".as_bytes()), "héllo");
    assert_eq!(TextEncoding::Utf8.decode(&[0x61, 0xFF]), "a\u{FFFD}");
    assert_eq!(TextEncoding::Utf8Bom.decode(&[0xEF, 0xBB, 0xBF, b'x']), "x");
    assert_eq!(TextEncoding::Utf8Bom.decode(&[0xEF, 0xBB]), "");
    assert_eq!(TextEncoding::Utf16Be.decode(&[0xFE, 0xFF, 0, b'A', 0, b'B']), "AB");
    assert_eq!(TextEncoding::Utf16Be.decode(&[0, b'A', 0, b'B', 0]), "AB");
    assert_eq!(TextEncoding::Utf16Le.decode(&[0xFF, 0xFE, b'A', 0, 0xE9, 0]), "Aé");
    assert_eq!(TextEncoding::Utf16Le.decode(&[b'A', 0]), "A");
    assert_eq!(TextEncoding::Utf16Le.decode(&[]), "");
    assert_eq!(TextEncoding::Latin1.decode(&[b'a', 0xE9, 0xFF]), "aéÿ");
    assert_eq!(TextEncoding::Utf8Bom.display_name(), "UTF-8 (BOM)");
    assert_eq!(TextEncoding::Latin1.display_name(), "Latin-1");
    assert_eq!(TextEncoding::Utf16Be.display_name(), "UTF-16 BE");
}

#[test]
fn views() {
    let mut text = TextView::new();
    assert!(text.is_wrapping());
    text.toggle_wrap();
    assert!(!text.is_wrapping());
    let mut hex = HexView::new();
    assert_eq!(hex.bytes_per_line(), 16);
    hex.set_bytes_per_line(4);
    assert_eq!(hex.bytes_per_line(), 8);
    hex.set_bytes_per_line(100);
    assert_eq!(hex.bytes_per_line(), 32);
    hex.set_bytes_per_line(24);
    assert_eq!(hex.bytes_per_line(), 24);
    assert_eq!(ViewMode::Hex.display_name(), "Hex");
    assert_eq!(ViewMode::Text.display_name(), "Text");
    assert_eq!(ViewMode::Auto.display_name(), "Auto");
    assert_eq!(FileContent::Binary(vec![1, 2]).get_content_bytes(), &[1u8, 2u8]);
    assert_eq!(
        FileContent::Text("hé".to_string(), TextEncoding::Utf8).get_content_bytes(),
        "hé".as_bytes()
    );
}

#[test]
fn configuration() {
    let config = UpdateCheckConfig::default();
    assert!(config.enabled);
    assert_eq!(
        config.api_url(),
        "https://api.github.com/repos/danifunker/ODE-artwork-downloader/releases/latest"
    );
    assert_eq!(
        config.releases_url(),
        "https://github.com/danifunker/ODE-artwork-downloader/releases"
    );
    let other = UpdateCheckConfig {
        enabled: false,
        repository_url: "https://example.org/repo//".to_string(),
    };
    assert_eq!(other.api_url(), "https://example.org/repo//");
    assert_eq!(other.releases_url(), "https://example.org/repo/releases");
    let slash = UpdateCheckConfig {
        enabled: true,
        repository_url: "https://github.com/a/b/".to_string(),
    };
    assert_eq!(slash.api_url(), "https://api.github.com/repos/a/b/releases/latest");
    assert!(default_update_enabled());
    assert_eq!(default_repository_url(), AppConfig::default().update_check.repository_url);
    assert_eq!(
        default_request_token_url(),
        "https://api.discogs.com/oauth/request_token"
    );
    assert_eq!(default_authorize_url(), "https://www.discogs.com/oauth/authorize");
    assert_eq!(
        default_access_token_url(),
        "https://api.discogs.com/oauth/access_token"
    );
    assert!(!AppSecrets::default().discogs.has_credentials());
    let secrets = DiscogsSecrets {
        consumer_key: "k".to_string(),
        consumer_secret: "s".to_string(),
    };
    assert!(secrets.has_credentials());
    let half = DiscogsSecrets {
        consumer_key: "k".to_string(),
        consumer_secret: String::new(),
    };
    assert!(!half.has_credentials());
    let embedded = EmbeddedSecrets {
        discogs_consumer_key: "k".to_string(),
        discogs_consumer_secret: "s".to_string(),
    };
    assert!(embedded.has_credentials());
}

fn rom(name: &str, crc: Option<&str>) -> Rom {
    Rom {
        name: name.to_string(),
        size: None,
        crc: crc.map(|s| s.to_string()),
        md5: None,
        sha1: None,
    }
}

#[test]
fn database_of_games() {
    let mut db = RedumpDatabase::new();
    assert_eq!(db.game_count(), 0);
    let datafile = Datafile {
        header: Some(Header {
            name: Some("IBM - PC compatible".to_string()),
            description: None,
            version: None,
            author: None,
        }),
        games: vec![
            Game {
                name: "Batman Forever (Europe)".to_string(),
                category: Some("Games".to_string()),
                description: None,
                roms: vec![
                    rom("Batman Forever (Europe) (Track 01).bin", Some("aa")),
                    rom("Batman Forever (Europe).cue", None),
                ],
            },
            Game {
                name: "Other".to_string(),
                category: None,
                description: None,
                roms: vec![rom("BATMAN FOREVER (EUROPE).bin", Some("bb"))],
            },
        ],
    };
    assert_eq!(db.load_dat(datafile), 2);
    assert_eq!(db.game_count(), 2);
    assert_eq!(db.system_name, Some("IBM - PC compatible".to_string()));
    assert_eq!(db.find_by_filename("batman forever (europe).iso"), vec![0, 1]);
    assert_eq!(
        db.find_by_filename("Batman Forever (Europe) (Track 01).BIN"),
        vec![0]
    );
    assert!(db.find_by_filename("nothing.bin").is_empty());
    let game = db.game(0).unwrap();
    assert_eq!(game.name, "Batman Forever (Europe)");
    assert_eq!(game.filenames.len(), 2);
    assert_eq!(game.crcs, vec!["aa"]);
    assert!(db.game(2).is_none());
}
