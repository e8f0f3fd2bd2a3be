use ode_artwork_downloader::api::artwork::{
    detect_platform_from_path, is_mac_path, ArtworkSearchQuery, ContentType, SearchConfig,
};
use ode_artwork_downloader::disc::identifier::parse_filename;

fn query(title: &str) -> ArtworkSearchQuery {
    ArtworkSearchQuery {
        title: title.to_string(),
        alt_title: None,
        region: None,
        platform: None,
        year: None,
        search_suffix: "CD art".to_string(),
        publisher: None,
        original_filename: None,
        is_mac_game: false,
        content_type: ContentType::Any,
    }
}

/// The configuration with the publishers that the application ships in its
/// configuration file.
fn config_with_publishers() -> SearchConfig {
    let mut config = SearchConfig::default();
    config.known_publishers = vec![
        "Westwood".to_string(),
        "Sierra".to_string(),
        "EA".to_string(),
    ];
    config
}

#[test]
fn test_build_query_simple() {
    let query = ArtworkSearchQuery {
        title: "Final Fantasy VII".to_string(),
        alt_title: None,
        region: None,
        platform: None,
        year: None,
        search_suffix: "CD art".to_string(),
        publisher: None,
        original_filename: None,
        is_mac_game: false,
        content_type: ContentType::Any,
    };

    assert_eq!(query.build_query(), "\"Final Fantasy VII\" CD art");
}

#[test]
fn test_build_query_with_region() {
    let query = ArtworkSearchQuery {
        title: "Final Fantasy VII".to_string(),
        alt_title: None,
        region: Some("USA".to_string()),
        platform: None,
        year: None,
        search_suffix: "CD art".to_string(),
        publisher: None,
        original_filename: None,
        is_mac_game: false,
        content_type: ContentType::Any,
    };

    assert_eq!(query.build_query(), "\"Final Fantasy VII\" USA CD art");
}

#[test]
fn test_build_query_with_platform() {
    let query = ArtworkSearchQuery {
        title: "Final Fantasy VII".to_string(),
        alt_title: None,
        region: Some("USA".to_string()),
        platform: Some("PlayStation".to_string()),
        year: None,
        search_suffix: "CD art".to_string(),
        publisher: None,
        original_filename: None,
        is_mac_game: false,
        content_type: ContentType::Any,
    };

    assert_eq!(
        query.build_query(),
        "\"Final Fantasy VII\" PlayStation USA CD art"
    );
}

#[test]
fn test_build_query_with_or() {
    let query = ArtworkSearchQuery {
        title: "Final Fantasy VII".to_string(),
        alt_title: Some("FF7".to_string()),
        region: None,
        platform: None,
        year: None,
        search_suffix: "CD art".to_string(),
        publisher: None,
        original_filename: None,
        is_mac_game: false,
        content_type: ContentType::Any,
    };

    assert_eq!(query.build_query(), "\"Final Fantasy VII\" OR \"FF7\" CD art");
}

#[test]
fn test_build_query_with_year() {
    let query = ArtworkSearchQuery {
        title: "Doom".to_string(),
        alt_title: None,
        region: None,
        platform: Some("DOS".to_string()),
        year: Some(1993),
        search_suffix: "CD art".to_string(),
        publisher: None,
        original_filename: None,
        is_mac_game: false,
        content_type: ContentType::Any,
    };

    assert_eq!(query.build_query(), "\"Doom\" 1993 DOS CD art");
}

#[test]
fn test_build_query_with_publisher() {
    let query = ArtworkSearchQuery {
        title: "Command & Conquer".to_string(),
        alt_title: None,
        region: None,
        platform: None,
        year: None,
        search_suffix: "CD art".to_string(),
        publisher: Some("Westwood".to_string()),
        original_filename: None,
        is_mac_game: false,
        content_type: ContentType::Any,
    };

    assert_eq!(query.build_query(), "\"Command & Conquer\" \"Westwood\" CD art");
}

#[test]
fn test_build_query_games_pc() {
    let query = ArtworkSearchQuery {
        title: "Doom".to_string(),
        alt_title: None,
        region: None,
        platform: None,
        year: None,
        search_suffix: String::new(),
        publisher: None,
        original_filename: None,
        is_mac_game: false,
        content_type: ContentType::Games,
    };

    assert_eq!(query.build_query(), "\"Doom\" case pc site:mobygames.com");
}

#[test]
fn test_build_query_games_mac() {
    let query = ArtworkSearchQuery {
        title: "Myst".to_string(),
        alt_title: None,
        region: None,
        platform: None,
        year: None,
        search_suffix: String::new(),
        publisher: None,
        original_filename: None,
        is_mac_game: true,
        content_type: ContentType::Games,
    };

    assert_eq!(query.build_query(), "\"Myst\" case mac site:mobygames.com");
}

#[test]
fn test_from_parsed_filename() {
    let parsed = parse_filename("Final Fantasy VII (USA).iso");
    let query = ArtworkSearchQuery::from_parsed_filename(&parsed);

    assert_eq!(query.title, "Final Fantasy VII");
    assert_eq!(query.region, Some("USA".to_string()));
    assert!(query.search_suffix.contains("art"));
}

#[test]
fn test_split_camel_case() {
    assert_eq!(
        ArtworkSearchQuery::split_camel_case("FinalFantasyVII"),
        "Final Fantasy VII"
    );
    assert_eq!(
        ArtworkSearchQuery::split_camel_case("CommandAndConquer"),
        "Command And Conquer"
    );
    assert_eq!(ArtworkSearchQuery::split_camel_case("WarCraft"), "War Craft");
    assert_eq!(
        ArtworkSearchQuery::split_camel_case("Final Fantasy VII"),
        "Final Fantasy VII"
    );
}

#[test]
fn test_remove_platform_keywords() {
    assert_eq!(
        ArtworkSearchQuery::remove_platform_keywords("Doom DOS Edition"),
        "Doom Edition"
    );
    assert_eq!(
        ArtworkSearchQuery::remove_platform_keywords("SimCity Mac Version"),
        "SimCity Version"
    );
    assert_eq!(
        ArtworkSearchQuery::remove_platform_keywords("Windows Solitaire Game"),
        "Solitaire Game"
    );
    assert_eq!(
        ArtworkSearchQuery::remove_platform_keywords("Doom DOS"),
        "Doom DOS"
    );
    assert_eq!(
        ArtworkSearchQuery::remove_platform_keywords("Final Fantasy VII"),
        "Final Fantasy VII"
    );
}

#[test]
fn test_remove_publishers() {
    let config = config_with_publishers();

    let (title, publisher) =
        ArtworkSearchQuery::remove_publishers("Command & Conquer Westwood", &config);
    assert_eq!(title, "Command & Conquer");
    assert_eq!(publisher, Some("Westwood".to_string()));

    let (title, publisher) = ArtworkSearchQuery::remove_publishers("Sierra King's Quest", &config);
    assert_eq!(title, "King's Quest");
    assert_eq!(publisher, Some("Sierra".to_string()));

    let (title, publisher) = ArtworkSearchQuery::remove_publishers("Final Fantasy VII", &config);
    assert_eq!(title, "Final Fantasy VII");
    assert_eq!(publisher, None);

    let (title, publisher) = ArtworkSearchQuery::remove_publishers("Command & Conquer EA", &config);
    assert_eq!(title, "Command & Conquer");
    assert_eq!(publisher, Some("EA".to_string()));
}

#[test]
fn test_process_title() {
    let config = config_with_publishers();

    let (title, _) = ArtworkSearchQuery::process_title("FinalFantasyVII", &config);
    assert_eq!(title, "Final Fantasy VII");

    let (title, _) = ArtworkSearchQuery::process_title("DoomDOSEdition", &config);
    assert_eq!(title, "Doom Edition");

    let (title, publisher) = ArtworkSearchQuery::process_title("Command Conquer Westwood", &config);
    assert_eq!(title, "Command Conquer");
    assert_eq!(publisher, Some("Westwood".to_string()));
}

#[test]
fn test_build_default_suffix_cd() {
    let mut config = SearchConfig::default();
    config.content_type = ContentType::Any;
    let suffix = ArtworkSearchQuery::build_default_suffix(&config, Some("game.iso"));

    assert!(suffix.contains("art"));
    assert!(suffix.contains("-site:ebay.com"));
    assert!(suffix.contains("-\"playstation\""));
    assert!(suffix.contains("CD") || suffix.contains("jewel case"));
}

#[test]
fn test_build_default_suffix_dvd() {
    let mut config = SearchConfig::default();
    config.content_type = ContentType::Any;
    let suffix = ArtworkSearchQuery::build_default_suffix(&config, Some("game_dvd.iso"));

    assert!(suffix.contains("art"));
    assert!(suffix.contains("DVD"));
}

#[test]
fn test_detect_platform_dos() {
    assert_eq!(
        detect_platform_from_path("/games/DOS/Doom.iso"),
        Some("DOS".to_string())
    );
}

#[test]
fn test_detect_platform_pc() {
    assert_eq!(
        detect_platform_from_path("/games/PC/Half-Life.iso"),
        Some("PC".to_string())
    );
}

#[test]
fn test_detect_platform_mac() {
    assert_eq!(
        detect_platform_from_path("/games/Macintosh/Marathon.iso"),
        Some("Macintosh".to_string())
    );
}

#[test]
fn test_is_mac_path() {
    assert!(is_mac_path("/games/Mac/Myst.iso"));
    assert!(is_mac_path("/games/Macintosh/Marathon.iso"));
    assert!(is_mac_path("C:\\Games\\MAC\\Myst.iso"));
    assert!(!is_mac_path("/games/PC/Doom.iso"));
    assert!(!is_mac_path("/games/DOS/Doom.iso"));
}

#[test]
fn test_year_extraction() {
    let parsed = parse_filename("Doom (1993).iso");
    assert_eq!(parsed.year, Some(1993));
}

#[test]
fn test_google_url() {
    let query = ArtworkSearchQuery {
        title: "Sonic Adventure".to_string(),
        alt_title: None,
        region: None,
        platform: Some("Dreamcast".to_string()),
        year: None,
        search_suffix: "CD art".to_string(),
        publisher: None,
        original_filename: None,
        is_mac_game: false,
        content_type: ContentType::Any,
    };

    let url = query.google_images_url();
    assert!(url.starts_with("https://www.google.com/search?tbm=isch&tbs=iar:s&q="));
    assert!(url.contains("Sonic"));
}

#[test]
fn test_duckduckgo_url_has_square_filter() {
    let query = ArtworkSearchQuery {
        title: "Test Game".to_string(),
        alt_title: None,
        region: None,
        platform: None,
        year: None,
        search_suffix: "CD art".to_string(),
        publisher: None,
        original_filename: None,
        is_mac_game: false,
        content_type: ContentType::Any,
    };

    let url = query.duckduckgo_images_url();
    assert!(url.contains("size:Square"));
}

#[test]
fn test_content_type_conversions() {
    assert_eq!(ContentType::Games.as_str(), "games");
    assert_eq!(ContentType::AppsUtilities.as_str(), "apps_utilities");
    assert_eq!(ContentType::AudioCDs.as_str(), "audio_cds");
    assert_eq!(ContentType::Any.as_str(), "any");

    assert_eq!(ContentType::from_str("games"), ContentType::Games);
    assert_eq!(ContentType::from_str("apps"), ContentType::AppsUtilities);
    assert_eq!(ContentType::from_str("audio_cds"), ContentType::AudioCDs);
    assert_eq!(ContentType::from_str("any"), ContentType::Any);
    assert_eq!(ContentType::from_str("invalid"), ContentType::Any);

    assert_eq!(ContentType::Games.display_name(), "Games");
    assert_eq!(ContentType::AppsUtilities.display_name(), "Apps & Utilities");
    assert_eq!(ContentType::AudioCDs.display_name(), "Audio CDs");
    assert_eq!(ContentType::Any.display_name(), "Any");
}

#[test]
fn test_build_suffix_with_site_limits_games() {
    let mut config = SearchConfig::default();
    config.content_type = ContentType::Games;
    config.games_sites = vec!["mobygames.com".to_string(), "archive.org".to_string()];

    let suffix = ArtworkSearchQuery::build_default_suffix(&config, Some("game.iso"));

    assert!(suffix.contains("art"));
    assert!(suffix.contains("site:mobygames.com"));
    assert!(suffix.contains("site:archive.org"));
    assert!(!suffix.contains("-site:ebay.com"));
    assert!(suffix.contains("-\"playstation\""));
}

#[test]
fn test_build_suffix_with_site_limits_audio() {
    let mut config = SearchConfig::default();
    config.content_type = ContentType::AudioCDs;
    config.audio_sites = vec!["discogs.com".to_string(), "allmusic.com".to_string()];

    let suffix = ArtworkSearchQuery::build_default_suffix(&config, Some("album.iso"));

    assert!(suffix.contains("art"));
    assert!(suffix.contains("site:discogs.com"));
    assert!(suffix.contains("site:allmusic.com"));
    assert!(!suffix.contains("-\"playstation\""));
}

#[test]
fn test_build_suffix_any_type() {
    let mut config = SearchConfig::default();
    config.content_type = ContentType::Any;

    let suffix = ArtworkSearchQuery::build_default_suffix(&config, Some("game.iso"));

    assert!(suffix.contains("art"));
    assert!(suffix.contains("-site:ebay.com"));
    assert!(!suffix.contains("site:mobygames.com"));
    assert!(suffix.contains("-\"playstation\""));
}

#[test]
fn default_suffix_is_exact() {
    let config = SearchConfig::default();
    assert_eq!(
        ArtworkSearchQuery::build_default_suffix(&config, Some("game.iso")),
        "\"CD\" OR \"jewel case\" art -site:ebay.com -\"playstation\" -\"xbox\" -\"nintendo\""
    );
    assert_eq!(
        ArtworkSearchQuery::build_default_suffix(&config, Some("Game DVD.iso")),
        "\"DVD\" art -site:ebay.com -\"playstation\" -\"xbox\" -\"nintendo\""
    );
    let mut games = SearchConfig::default();
    games.content_type = ContentType::Games;
    games.games_sites = vec!["a.com".to_string(), "b.org".to_string()];
    assert_eq!(
        ArtworkSearchQuery::build_default_suffix(&games, None),
        "\"CD\" OR \"jewel case\" art site:a.com OR site:b.org -\"playstation\" -\"xbox\" -\"nintendo\""
    );
    let mut apps = SearchConfig::default();
    apps.content_type = ContentType::AppsUtilities;
    assert_eq!(
        ArtworkSearchQuery::build_default_suffix(&apps, None),
        "\"CD\" OR \"jewel case\" art"
    );
}

#[test]
fn region_terms() {
    let mut q = query("T");
    q.region = Some("ntsc-j".to_string());
    assert_eq!(q.build_query(), "\"T\" Japan CD art");
    q.region = Some("PAL".to_string());
    assert_eq!(q.build_query(), "\"T\" Europe CD art");
    q.region = Some("Korea".to_string());
    assert_eq!(q.build_query(), "\"T\" Korea CD art");
}

#[test]
fn builders_set_one_field() {
    let q = query("T")
        .with_platform("DOS")
        .with_publisher("Sierra")
        .with_suffix("cover");
    assert_eq!(q.platform, Some("DOS".to_string()));
    assert_eq!(q.publisher, Some("Sierra".to_string()));
    assert_eq!(q.search_suffix, "cover");
    assert_eq!(q.title, "T");
    assert_eq!(q.build_query(), "\"T\" \"Sierra\" DOS cover");
}

#[test]
fn urls_are_percent_encoded() {
    let q = query("A B");
    assert_eq!(
        q.google_images_url(),
        "https://www.google.com/search?tbm=isch&tbs=iar:s&q=%22A%20B%22%20CD%20art"
    );
    assert_eq!(
        q.duckduckgo_images_url(),
        "https://duckduckgo.com/?t=h_&iax=images&ia=images&iaf=size:Square&q=%22A%20B%22%20CD%20art"
    );
}

#[test]
fn publisher_must_be_a_word_of_its_own() {
    let config = config_with_publishers();
    // "EA" inside "Great" is no publisher
    let (title, publisher) = ArtworkSearchQuery::remove_publishers("Great Game", &config);
    assert_eq!(title, "Great Game");
    assert_eq!(publisher, None);
    // case does not matter, and the case of the configuration is reported
    let (title, publisher) = ArtworkSearchQuery::remove_publishers("sierra Quest", &config);
    assert_eq!(title, "Quest");
    assert_eq!(publisher, Some("Sierra".to_string()));
}

#[test]
fn platform_words_are_removed_in_any_case() {
    assert_eq!(
        ArtworkSearchQuery::remove_platform_keywords("Myst macintosh pc Edition Deluxe"),
        "Myst Edition Deluxe"
    );
    // fewer than two words would remain: nothing is removed
    assert_eq!(
        ArtworkSearchQuery::remove_platform_keywords("Doom DOS PC"),
        "Doom DOS PC"
    );
}

#[test]
fn platform_of_path_variants() {
    assert_eq!(
        detect_platform_from_path("C:\\Games\\dos\\x.iso"),
        Some("DOS".to_string())
    );
    assert_eq!(
        detect_platform_from_path("/stuff/Mac Games/x.iso"),
        Some("Mac".to_string())
    );
    assert_eq!(detect_platform_from_path("/stuff/x.iso"), None);
}

#[test]
fn content_type_names_in_any_case() {
    assert_eq!(ContentType::from_str("GAMES"), ContentType::Games);
    assert_eq!(ContentType::from_str("Audio"), ContentType::AudioCDs);
    assert_eq!(ContentType::from_str("apps_utilities"), ContentType::AppsUtilities);
    assert_eq!(ContentType::from_lower("GAMES"), ContentType::Any);
}
