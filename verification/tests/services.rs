use aes_gcm::aead::{Aead, KeyInit};
use ode_artwork_downloader::api::discogs::{
    authorization_value, order_images, release_url, search_query, search_url, split_credits,
};
use ode_artwork_downloader::api::mobygames::{
    best_cover_result, cover_of_address, cover_of_heading, cover_of_image, covers_from_matches,
    covers_page_url, find_best_cover, find_game_page, game_page_query, parse_covers_html,
};
use ode_artwork_downloader::api::musicbrainz::{
    choose_image, choose_thumbnail, cover_art_address, lookup_url, CoverArtImage,
    CoverArtThumbnails,
};
use ode_artwork_downloader::api::redump::{match_shape, word_fits_any, MatchShape};
use ode_artwork_downloader::api::artwork::{
    ArtworkSearchQuery, ContentType, SearchConfig, SearchOverrides,
};
use ode_artwork_downloader::crypto::{decrypt_secrets, open_data};
use ode_artwork_downloader::disc::bincue::{parse_tracks, primary_track};
use ode_artwork_downloader::disc::formats::{DiscFormat, FilesystemType};
use ode_artwork_downloader::disc::identifier::ConfidenceLevel;
use ode_artwork_downloader::disc::reader::{DiscError, DiscReader};
use ode_artwork_downloader::gui::browse_view::{BrowseView, FileContent, ViewMode, MAX_VIEW_SIZE};
use ode_artwork_downloader::gui::hex_view::{HexView, MAX_LINES};
use ode_artwork_downloader::gui::text_view::{profile_of, TextEncoding};
use ode_artwork_downloader::disc::browse::entry::FileEntry;
use ode_artwork_downloader::search::{find_vqd_token, image_results_url, search_page_url};
use ode_artwork_downloader::text::number::padded_hex_chars;

fn s(text: &str) -> Option<String> {
    Some(text.to_string())
}

fn chars(text: &str) -> Vec<char> {
    text.chars().collect()
}

#[test]
fn disc_error_messages() {
    assert_eq!(
        DiscError::FileNotFound("/x.iso".to_string()).message(),
        "File not found: /x.iso"
    );
    assert_eq!(
        DiscError::UnsupportedFormat("txt".to_string()).message(),
        "Unsupported format: txt"
    );
    assert_eq!(DiscError::IoError("e".to_string()).message(), "IO error: e");
    assert_eq!(DiscError::ParseError("p".to_string()).message(), "Parse error: p");
    assert_eq!(DiscError::ChdError("c".to_string()).message(), "CHD error: c");
}

#[test]
fn places_of_the_track_sheet() {
    assert_eq!(DiscReader::cue_path_candidates("/d/game.cue"), vec!["/d/game.cue"]);
    assert_eq!(DiscReader::cue_path_candidates("/d/game.CUE"), vec!["/d/game.CUE"]);
    assert_eq!(
        DiscReader::cue_path_candidates("/d/game.bin"),
        vec!["/d/game.cue", "/d/game.CUE"]
    );
}

#[test]
fn discogs_requests() {
    assert_eq!(search_query("Queen", "Innuendo"), "Queen Innuendo");
    assert_eq!(search_query("Various Artists", "Hits"), "Hits");
    assert_eq!(search_query("VA", "Hits"), "Hits");
    assert_eq!(search_query("various", "Hits"), "Hits");
    assert_eq!(search_query("Unknown Artist", "Hits"), "Hits");
    assert_eq!(
        search_url("a b&c"),
        "https://api.discogs.com/database/search?q=a%20b%26c&type=release&per_page=10"
    );
    assert_eq!(release_url(42, false), "https://api.discogs.com/releases/42");
    assert_eq!(release_url(0, true), "https://api.discogs.com/masters/0");
    assert_eq!(authorization_value("k", "s"), "Discogs key=k, secret=s");
}

#[test]
fn discogs_answers() {
    assert_eq!(
        split_credits("Queen - Innuendo - Live"),
        ("Queen".to_string(), "Innuendo - Live".to_string())
    );
    assert_eq!(
        split_credits("Innuendo"),
        ("Unknown".to_string(), "Innuendo".to_string())
    );
    assert_eq!(split_credits(" - x"), (String::new(), "x".to_string()));
    let images = vec![
        (false, s("a")),
        (true, s("p1")),
        (false, None),
        (false, s("b")),
        (true, s("p2")),
        (true, None),
    ];
    assert_eq!(order_images(&images), vec!["p2", "p1", "a", "b"]);
    assert!(order_images(&Vec::new()).is_empty());
}

fn image(address: &str, front: bool, thumbnails: Option<CoverArtThumbnails>) -> CoverArtImage {
    CoverArtImage {
        image: address.to_string(),
        thumbnails,
        front,
    }
}

#[test]
fn musicbrainz_requests_and_answers() {
    assert_eq!(
        lookup_url("abc", None),
        "https://musicbrainz.org/ws/2/discid/abc?fmt=json&inc=artist-credits+release-groups"
    );
    assert_eq!(
        lookup_url("abc", Some("1+2+3")),
        "https://musicbrainz.org/ws/2/discid/abc?fmt=json&inc=artist-credits+release-groups&toc=1+2+3"
    );
    assert_eq!(cover_art_address("r1"), "https://coverartarchive.org/release/r1");
    assert_eq!(choose_image(&Vec::new()), None);
    assert_eq!(
        choose_image(&vec![image("a", false, None), image("b", true, None), image("c", true, None)]),
        Some(1)
    );
    assert_eq!(
        choose_image(&vec![image("a", false, None), image("b", false, None)]),
        Some(0)
    );
    assert_eq!(choose_thumbnail(&None), None);
    let all = CoverArtThumbnails {
        small: s("s"),
        medium: s("m"),
        large: s("l"),
    };
    assert_eq!(choose_thumbnail(&Some(all)), s("l"));
    let two = CoverArtThumbnails {
        small: s("s"),
        medium: s("m"),
        large: None,
    };
    assert_eq!(choose_thumbnail(&Some(two)), s("m"));
    let one = CoverArtThumbnails {
        small: s("s"),
        medium: None,
        large: None,
    };
    assert_eq!(choose_thumbnail(&Some(one)), s("s"));
    let none = CoverArtThumbnails {
        small: None,
        medium: None,
        large: None,
    };
    assert_eq!(choose_thumbnail(&Some(none)), None);
}

#[test]
fn search_requests_and_token() {
    assert_eq!(
        search_page_url("doom cd"),
        "https://duckduckgo.com/?q=doom%20cd&ia=images&iax=images"
    );
    assert_eq!(
        image_results_url("doom", "4-123"),
        "https://duckduckgo.com/i.js?l=us-en&o=json&q=doom&vqd=4-123&f=,,,,,&p=1"
    );
    assert_eq!(
        find_vqd_token("x vqd=\"4-1234567890123\" y"),
        Ok("4-1234567890123".to_string())
    );
    assert_eq!(
        find_vqd_token("a?vqd=4-99999999999&b=1"),
        Ok("4-99999999999".to_string())
    );
    assert_eq!(
        find_vqd_token("u=vqd%3D4-88888888888%26x&z"),
        Ok("4-88888888888%26x".to_string())
    );
    assert_eq!(
        find_vqd_token("var vqd : 'abcdefghijk_-9';"),
        Ok("abcdefghijk_-9".to_string())
    );
    // a token of ten bytes is too short
    assert_eq!(
        find_vqd_token("vqd=\"1234567890\""),
        Err("Could not find vqd token in search page".to_string())
    );
    assert!(find_vqd_token("nothing here").is_err());
}

#[test]
fn covers_of_a_page_with_headings() {
    let html = "<div class=\"x coverHeading y\"> DOS (United States) </div>\n<a><img alt=\"\" src=\"https://cdn.mobygames.com/covers/small/1.jpg\"></a>\
        <div class=\"coverHeading\">Amiga / Germany</div><p><img src=\"https://cdn.mobygames.com/covers/medium/2.jpg\">";
    let covers = parse_covers_html(html).unwrap();
    assert_eq!(covers.len(), 2);
    assert_eq!(covers[0].platform, "DOS");
    assert_eq!(covers[0].country, "United States");
    assert_eq!(covers[0].cover_type, "Front Cover");
    assert_eq!(covers[0].thumbnail_url, "https://cdn.mobygames.com/covers/small/1.jpg");
    assert_eq!(covers[0].full_url, "https://cdn.mobygames.com/covers/large/1.jpg");
    assert_eq!(covers[1].platform, "Amiga");
    assert_eq!(covers[1].country, "Germany");
    assert_eq!(covers[1].full_url, "https://cdn.mobygames.com/covers/large/2.jpg");
    assert_eq!(find_best_cover(&covers), Some(0));
}

#[test]
fn covers_of_a_page_with_images_only() {
    let html = "<img src=\"https://cdn.mobygames.com/a/covers/s/1.jpg\" alt=\"Windows (World) back\">\
        <img src=\"https://cdn.mobygames.com/logo.png\" alt=\"logo\">\
        <img src=\"https://cdn.mobygames.com/shots/2.jpg\" alt=\"Front Cover DOS\">";
    let covers = parse_covers_html(html).unwrap();
    assert_eq!(covers.len(), 2);
    assert_eq!(covers[0].cover_type, "Back Cover");
    assert_eq!(covers[0].platform, "Windows");
    assert_eq!(covers[0].country, "World");
    assert_eq!(covers[1].cover_type, "Front Cover");
    assert_eq!(covers[1].thumbnail_url, "https://cdn.mobygames.com/shots/2.jpg");
}

#[test]
fn covers_of_a_page_with_addresses_only() {
    let html = "background: url('https://cdn.mobygames.com/0a1b-2c/covers/x/1.jpg') and \"https://cdn.mobygames.com/ff/covers/2.png\"";
    let covers = parse_covers_html(html).unwrap();
    assert_eq!(covers.len(), 2);
    assert_eq!(covers[0].platform, "Unknown");
    assert_eq!(covers[0].country, "Unknown");
    assert_eq!(covers[0].cover_type, "Front Cover");
    assert_eq!(covers[0].thumbnail_url, "https://cdn.mobygames.com/0a1b-2c/covers/x/1.jpg");
    assert_eq!(covers[1].thumbnail_url, "https://cdn.mobygames.com/ff/covers/2.png");
    assert!(parse_covers_html("<html></html>").unwrap().is_empty());
}

#[test]
fn covers_of_given_matches() {
    let heading = vec![s("whole"), s("  DOS (Japan) "), s("/small/a.jpg?x=1")];
    let cover = cover_of_heading(&heading).unwrap();
    assert_eq!(cover.platform, "DOS");
    assert_eq!(cover.country, "Japan");
    assert_eq!(cover.full_url, "/large/a.jpg?x=1");
    assert!(cover_of_heading(&vec![s("whole"), None, s("x")]).is_none());
    assert!(cover_of_heading(&vec![s("whole"), s("x")]).is_none());
    assert!(cover_of_image(&vec![s("w"), s("http://x/a.png"), s("a picture")]).is_none());
    let back = cover_of_image(&vec![s("w"), s("http://x/a.png"), s("BACK COVER")]).unwrap();
    assert_eq!(back.cover_type, "Back Cover");
    let by_path = cover_of_image(&vec![s("w"), s("http://x/covers/a.png?s=1"), s("Linux")]).unwrap();
    assert_eq!(by_path.cover_type, "Front Cover");
    assert_eq!(by_path.platform, "Linux");
    assert_eq!(by_path.full_url, "http://x/covers/a.png");
    assert!(cover_of_address(&Vec::new()).is_none());
    assert!(cover_of_address(&vec![None]).is_none());
    // headings win over images, images over addresses
    let images = vec![vec![s("w"), s("http://x/covers/i.png"), s("cover")]];
    let addresses = vec![vec![s("http://x/covers/a.png")]];
    let covers = covers_from_matches(&vec![heading.clone()], &images, &addresses);
    assert_eq!(covers.len(), 1);
    assert_eq!(covers[0].country, "Japan");
    let covers = covers_from_matches(&vec![vec![s("w"), None, None]], &images, &addresses);
    assert_eq!(covers[0].thumbnail_url, "http://x/covers/i.png");
    let covers = covers_from_matches(&Vec::new(), &Vec::new(), &addresses);
    assert_eq!(covers[0].thumbnail_url, "http://x/covers/a.png");
    assert!(covers_from_matches(&Vec::new(), &Vec::new(), &Vec::new()).is_empty());
}

#[test]
fn sealed_secrets_are_opened() {
    let key = [7u8; 32];
    let nonce = [3u8; 12];
    let cipher = aes_gcm::Aes256Gcm::new_from_slice(&key).unwrap();
    let sealed = cipher
        .encrypt(aes_gcm::Nonce::from_slice(&nonce), b"{\"k\":1}".as_ref())
        .unwrap();
    let mut data = nonce.to_vec();
    data.extend_from_slice(&sealed);
    assert_eq!(open_data(&key, &data), Some(b"{\"k\":1}".to_vec()));
    // a wrong key, a changed byte, a short key, short data
    assert_eq!(open_data(&[8u8; 32], &data), None);
    let mut changed = data.clone();
    changed[20] ^= 1;
    assert_eq!(open_data(&key, &changed), None);
    assert_eq!(open_data(&key[..31], &data), None);
    assert_eq!(open_data(&key, &data[..11]), None);
    assert_eq!(open_data(&key, &data[..12]), None);

    let key_text = base64::Engine::encode(&base64::engine::general_purpose::STANDARD, key);
    let text = base64::Engine::encode(&base64::engine::general_purpose::STANDARD, &data);
    let padded = format!("  {}\n", text);
    assert_eq!(
        decrypt_secrets(&padded, Some(&key_text)),
        Some(b"{\"k\":1}".to_vec())
    );
    assert_eq!(decrypt_secrets("", Some(&key_text)), None);
    assert_eq!(decrypt_secrets(&text, None), None);
    assert_eq!(decrypt_secrets(&text, Some("not base64!")), None);
    assert_eq!(decrypt_secrets("not base64!", Some(&key_text)), None);
    let short_key = base64::Engine::encode(&base64::engine::general_purpose::STANDARD, [7u8; 16]);
    assert_eq!(decrypt_secrets(&text, Some(&short_key)), None);
}

#[test]
fn profile_of_data() {
    let p = profile_of(b"Hello, world!\n\x00\x01");
    assert_eq!(p.mark, None);
    assert!(p.valid_utf8);
    assert_eq!(p.printable, 14);
    assert_eq!(p.latin1, 14);
    assert_eq!(p.length, 16);
    let p = profile_of(&[0xEF, 0xBB, 0xBF, b'a']);
    assert_eq!(p.mark, Some(TextEncoding::Utf8Bom));
    assert_eq!(profile_of(&[0xFE, 0xFF, 0, 65]).mark, Some(TextEncoding::Utf16Be));
    assert_eq!(profile_of(&[0xFF, 0xFE, 65, 0]).mark, Some(TextEncoding::Utf16Le));
    assert_eq!(profile_of(&[0xEF, 0xBB]).mark, None);
    let p = profile_of(&[0xE9, 0x0C, 0x0B, 0x7F, 0x20]);
    assert!(!p.valid_utf8);
    // the form feed counts as white space, the upper half as Latin-1
    assert_eq!(p.printable, 2);
    assert_eq!(p.latin1, 2);
    let p = profile_of(&[]);
    assert_eq!((p.printable, p.latin1, p.length), (0, 0, 0));
    assert!(p.valid_utf8);
}

#[test]
fn content_for_viewing() {
    match FileContent::of_bytes(vec![0xE9, b'a'], Some(TextEncoding::Latin1)) {
        FileContent::Text(text, encoding) => {
            assert_eq!(text, "éa");
            assert_eq!(encoding, TextEncoding::Latin1);
        }
        FileContent::Binary(_) => panic!("text expected"),
    }
    match FileContent::of_bytes(vec![1, 2], None) {
        FileContent::Binary(data) => assert_eq!(data, vec![1, 2]),
        FileContent::Text(_, _) => panic!("bytes expected"),
    }
}

#[test]
fn browser_state() {
    let mut view = BrowseView::new();
    assert!(!view.is_active());
    assert!(view.root().is_none());
    assert!(view.children_of("/").is_none());
    assert!(!view.is_expanded("/"));
    assert!(view.get_content_bytes().is_none());
    assert_eq!(view.view_mode(), ViewMode::Auto);

    let file = FileEntry::new_file("a.txt".to_string(), "/a.txt".to_string(), 3, 7);
    let dir = FileEntry::new_directory("d".to_string(), "/d".to_string(), 9);
    view.initialize(FileEntry::root(1), vec![dir.clone(), file.clone()]);
    assert!(view.is_active());
    assert_eq!(view.root().unwrap().location, 1);
    assert!(view.is_expanded("/"));
    assert_eq!(view.children_of("/").unwrap().len(), 2);
    assert!(view.children_of("/d").is_none());

    // a listing that arrives is taken for the directory that is awaited
    view.expect_listing("/d".to_string());
    assert!(view.is_loading());
    view.poll(Some(Ok(vec![file.clone()])), None);
    assert!(!view.is_loading());
    assert!(view.is_expanded("/d"));
    assert_eq!(view.children_of("/d").unwrap()[0].name, "a.txt");
    // one that arrives unawaited is dropped
    view.poll(Some(Ok(Vec::new())), None);
    assert_eq!(view.children_of("/d").unwrap().len(), 1);
    // a later listing takes the place of an earlier one
    view.remember("/d".to_string(), Vec::new());
    assert!(view.children_of("/d").unwrap().is_empty());
    view.expect_listing("/e".to_string());
    view.poll(Some(Err("no such directory".to_string())), None);
    assert_eq!(view.error().unwrap(), "no such directory");
    assert!(view.children_of("/e").is_none());
    assert!(!view.is_expanded("/e"));

    // selecting a file forgets the content and the failure
    assert!(view.select_file(file.clone()));
    assert_eq!(view.selected_entry().unwrap().path, "/a.txt");
    assert!(view.error().is_none());
    assert!(view.content().is_none());
    view.poll(None, Some(Ok(FileContent::of_bytes(b"abc".to_vec(), Some(TextEncoding::Ascii)))));
    assert_eq!(view.get_content_bytes().unwrap(), b"abc");
    view.poll(None, Some(Err("gone".to_string())));
    assert_eq!(view.error().unwrap(), "gone");
    assert_eq!(view.get_content_bytes().unwrap(), b"abc");
    let small = FileEntry::new_file("a".to_string(), "/a".to_string(), MAX_VIEW_SIZE, 1);
    let large = FileEntry::new_file("a".to_string(), "/a".to_string(), MAX_VIEW_SIZE + 1, 1);
    assert!(view.select_file(small));
    assert!(view.get_content_bytes().is_none());
    assert!(!view.select_file(large));
    view.set_view_mode(ViewMode::Hex);
    assert_eq!(view.view_mode(), ViewMode::Hex);

    view.clear();
    assert!(!view.is_active());
    assert!(view.children_of("/").is_none());
    assert!(view.selected_entry().is_none());
    assert_eq!(view.view_mode(), ViewMode::Auto);
}

#[test]
fn shape_of_a_match() {
    let words = |text: &str| -> Vec<Vec<char>> { text.split_whitespace().map(chars).collect() };
    assert_eq!(match_shape("doom", &words("doom"), "doom"), MatchShape::Exact);
    assert_eq!(
        match_shape("batman forever", &words("batman forever"), "batman forever (europe)"),
        MatchShape::Contained
    );
    assert_eq!(
        match_shape("batman forever", &words("batman forever"), "superman"),
        MatchShape::Words {
            matched: 0,
            total: 2,
            leading: false
        }
    );
    assert_eq!(
        match_shape("bat returns now", &words("bat returns now"), "batman returns"),
        MatchShape::Words {
            matched: 2,
            total: 3,
            leading: true
        }
    );
    assert_eq!(
        match_shape("superman ii", &words("superman ii"), "man of steel"),
        MatchShape::Words {
            matched: 1,
            total: 2,
            leading: false
        }
    );
    assert_eq!(
        match_shape("x", &Vec::new(), "y"),
        MatchShape::Words {
            matched: 0,
            total: 0,
            leading: false
        }
    );
    assert!(word_fits_any(&chars("bat"), &words("the batman")));
    assert!(word_fits_any(&chars("batmobile"), &words("a bat")));
    assert!(!word_fits_any(&chars("cat"), &words("the batman")));
    assert!(!word_fits_any(&chars("cat"), &Vec::new()));
}

#[test]
fn lines_of_the_hex_view() {
    let view = HexView::new();
    assert_eq!(view.line_count(0), 0);
    assert_eq!(view.line_count(1), 1);
    assert_eq!(view.line_count(16), 1);
    assert_eq!(view.line_count(17), 2);
    let data: Vec<u8> = (0..20).map(|i| 0x3E + i as u8).collect();
    let first = view.format_line(&data, 0, 0x1F0).unwrap();
    assert_eq!(first.offset, "000001F0");
    assert_eq!(
        first.hex,
        "3E 3F 40 41 42 43 44 45  46 47 48 49 4A 4B 4C 4D "
    );
    assert_eq!(first.ascii, ">?@ABCDEFGHIJKLM");
    let second = view.format_line(&data, 1, 0x1F0).unwrap();
    assert_eq!(second.offset, "00000200");
    assert_eq!(
        second.hex,
        "4E 4F 50 51                                      "
    );
    assert_eq!(second.ascii, "NOPQ");
    assert!(view.format_line(&data, 2, 0).is_none());
    assert!(view.format_line(&[], 0, 0).is_none());
    let odd = view.format_line(&[0x00, 0x7F, 0x20, 0xFF], 0, 0x1_0000_0000).unwrap();
    assert_eq!(odd.offset, "100000000");
    assert_eq!(odd.ascii, ".. .");
    let mut narrow = HexView::new();
    narrow.set_bytes_per_line(8);
    let line = narrow.format_line(&data, 2, 0).unwrap();
    assert_eq!(line.offset, "00000010");
    assert_eq!(line.hex, "4E 4F 50 51             ");
    assert_eq!(MAX_LINES, 10000);
    assert_eq!(view.overflow_note(16 * 10000), None);
    assert_eq!(
        view.overflow_note(16 * 10000 + 1),
        Some("... 1 more lines (showing first 156 KB)".to_string())
    );
    assert_eq!(
        narrow.overflow_note(8 * 10250),
        Some("... 250 more lines (showing first 78 KB)".to_string())
    );
    let long = vec![0u8; 8 * 10001];
    assert!(narrow.format_line(&long, 9999, 0).is_some());
    assert!(narrow.format_line(&long, 10000, 0).is_none());
}

#[test]
fn hexadecimal_with_a_least_width() {
    let text = |n: u64, w: usize| -> String { padded_hex_chars(n, w).into_iter().collect() };
    assert_eq!(text(0, 0), "0");
    assert_eq!(text(0, 1), "0");
    assert_eq!(text(0, 4), "0000");
    assert_eq!(text(0xAB, 1), "AB");
    assert_eq!(text(0xAB, 8), "000000AB");
    assert_eq!(text(u64::MAX, 8), "FFFFFFFFFFFFFFFF");
}

#[test]
fn test_no_embedded_secrets_in_dev() {
    let secrets = decrypt_secrets("", None);
    println!("Embedded secrets available: {}", secrets.is_some());
    assert!(secrets.is_none());
}

#[test]
fn record_in_place_of_an_unreadable_structure() {
    let info = DiscReader::recover(
        "/d/Game (USA).iso",
        &DiscError::ParseError("Invalid Primary Volume Descriptor".to_string()),
    )
    .unwrap();
    assert_eq!(info.path, "/d/Game (USA).iso");
    assert_eq!(info.format, DiscFormat::Iso);
    assert_eq!(info.filesystem, FilesystemType::Unknown);
    assert_eq!(info.title, "Game");
    assert_eq!(info.confidence, ConfidenceLevel::Low);
    assert!(info.volume_label.is_none() && info.pvd.is_none() && info.toc.is_none());
    let info = DiscReader::recover("/d/x.chd", &DiscError::ChdError("no HFS here".to_string())).unwrap();
    assert_eq!(info.format, DiscFormat::Chd);
    let info = DiscReader::recover("/d/x.dat", &DiscError::ParseError(String::new())).unwrap();
    assert_eq!(info.format, DiscFormat::Iso);
    assert!(DiscReader::recover("/d/x.iso", &DiscError::IoError("denied".to_string())).is_none());
    assert!(DiscReader::recover("/d/x.iso", &DiscError::FileNotFound("/d/x.iso".to_string())).is_none());
}

#[test]
fn search_configuration_of_a_file() {
    let given = SearchOverrides {
        exclusion_sites: Some(vec!["a.com".to_string()]),
        exclusion_platforms: None,
        cd_keywords: Some(Vec::new()),
        dvd_keywords: None,
        known_publishers: Some(vec!["Sierra".to_string()]),
        content_type: Some("Audio".to_string()),
        games_sites: None,
        apps_sites: Some(vec!["apps.example".to_string()]),
        audio_sites: None,
        user_agent: Some("agent".to_string()),
    };
    let config = SearchConfig::from_overrides(given);
    assert_eq!(config.exclusion_sites, vec!["a.com"]);
    assert_eq!(config.exclusion_platforms, vec!["playstation", "xbox", "nintendo"]);
    assert!(config.cd_keywords.is_empty());
    assert_eq!(config.dvd_keywords, vec!["DVD"]);
    assert_eq!(config.known_publishers, vec!["Sierra"]);
    assert_eq!(config.content_type, ContentType::AudioCDs);
    assert!(config.games_sites.is_empty());
    assert_eq!(config.apps_sites, vec!["apps.example"]);
    assert!(config.audio_sites.is_empty());
    assert_eq!(config.user_agent, Some("agent".to_string()));
    let nothing = SearchOverrides {
        exclusion_sites: None,
        exclusion_platforms: None,
        cd_keywords: None,
        dvd_keywords: None,
        known_publishers: None,
        content_type: None,
        games_sites: None,
        apps_sites: None,
        audio_sites: None,
        user_agent: None,
    };
    let config = SearchConfig::from_overrides(nothing);
    assert_eq!(config.exclusion_sites, vec!["ebay.com"]);
    assert_eq!(config.cd_keywords, vec!["CD", "jewel case"]);
    assert_eq!(config.content_type, ContentType::Any);
    assert!(config.known_publishers.is_empty());
    assert_eq!(config.user_agent, None);
}

#[test]
fn primary_track_of_a_sheet() {
    let sheet = "FILE \"a.bin\" BINARY\n  TRACK 01 AUDIO\n    INDEX 01 00:00:00\n  TRACK 02 MODE1/2352\n    INDEX 01 01:00:00\n";
    let tracks = parse_tracks(sheet).unwrap();
    assert_eq!(primary_track(&tracks), 1);
    let audio = "FILE \"a.bin\" BINARY\n  TRACK 01 AUDIO\n    INDEX 01 00:00:00\n  TRACK 02 AUDIO\n    INDEX 01 01:00:00\n";
    let tracks = parse_tracks(audio).unwrap();
    assert_eq!(primary_track(&tracks), 0);
}

#[test]
fn query_of_a_disc_with_the_fallback_configuration() {
    let info = DiscReader::recover(
        "/d/Mac/Myst (USA).iso",
        &DiscError::ParseError(String::new()),
    )
    .unwrap();
    let query = ArtworkSearchQuery::from_disc_info(&info);
    assert_eq!(query.title, "Myst");
    assert_eq!(query.region, Some("USA".to_string()));
    assert_eq!(query.content_type, ContentType::Any);
    assert!(query.alt_title.is_none());
}

/// The score that the shape of a match stands for.
fn score_of(query: &str, query_words: &[&str], name: &str) -> f64 {
    let words: Vec<Vec<char>> = query_words.iter().map(|w| chars(w)).collect();
    match match_shape(query, &words, name) {
        MatchShape::Exact => 1.0,
        MatchShape::Contained => 0.9,
        MatchShape::Words {
            matched,
            total,
            leading,
        } => {
            if total == 0 {
                0.0
            } else if leading {
                matched as f64 / total as f64 * 0.8 + 0.1
            } else {
                matched as f64 / total as f64 * 0.7
            }
        }
    }
}

#[test]
fn test_match_score() {
    let query = "batman forever";
    let query_words: Vec<&str> = query.split_whitespace().collect();

    let score1 = score_of(query, &query_words, "batman forever (europe)");
    let score2 = score_of(query, &query_words, "batman forever (usa)");
    let score3 = score_of(query, &query_words, "superman");

    assert!(score1 > 0.8);
    assert!(score2 > 0.8);
    assert!(score3 < 0.3);
}

#[test]
fn cover_of_a_game() {
    assert_eq!(game_page_query("Doom II"), "\"Doom II\" site:mobygames.com");
    let urls = vec![
        "https://example.org/doom".to_string(),
        "https://www.mobygames.com/game/1068/doom/".to_string(),
        "https://www.mobygames.com/game/2/x".to_string(),
    ];
    assert_eq!(find_game_page(&urls, "Doom"), Ok(1));
    assert_eq!(
        find_game_page(&urls[..1].to_vec(), "Doom"),
        Err("No MobyGames result found for 'Doom'".to_string())
    );
    assert_eq!(
        covers_page_url("https://www.mobygames.com/game/1068/doom//"),
        "https://www.mobygames.com/game/1068/doom/covers/"
    );
    assert_eq!(covers_page_url("g"), "g/covers/");
    let html = "<div class=\"coverHeading\">DOS (United States)</div><img src=\"https://cdn.mobygames.com/covers/small/1.jpg\">";
    let covers = parse_covers_html(html).unwrap();
    let result = best_cover_result("Doom", &covers).unwrap();
    assert_eq!(result.title, "Doom - DOS (United States)");
    assert_eq!(result.image_url, "https://cdn.mobygames.com/covers/large/1.jpg");
    assert_eq!(result.thumbnail_url, "https://cdn.mobygames.com/covers/small/1.jpg");
    assert_eq!(result.source, "MobyGames");
    assert_eq!((result.width, result.height), (None, None));
    assert_eq!(
        best_cover_result("Doom", &Vec::new()).unwrap_err(),
        "No covers found on MobyGames page"
    );
    let back = cover_of_image(&vec![s("w"), s("http://x/covers/a.png"), s("DOS back cover")]).unwrap();
    assert_eq!(
        best_cover_result("Doom", &vec![back]).unwrap_err(),
        "No suitable cover found (no front covers)"
    );
}
