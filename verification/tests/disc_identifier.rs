use ode_artwork_downloader::disc::identifier::{
    normalize_volume_label, parse_filename, parse_stem, tidy, ConfidenceLevel,
};

#[test]
fn test_parse_simple_filename() {
    let parsed = parse_filename("Final Fantasy VII.iso");

    assert_eq!(parsed.title, "Final Fantasy VII");
    assert_eq!(parsed.region, None);
    assert_eq!(parsed.disc_number, None);
}

#[test]
fn test_parse_filename_with_region() {
    let parsed = parse_filename("Final Fantasy VII (USA).iso");

    assert_eq!(parsed.title, "Final Fantasy VII");
    assert_eq!(parsed.region, Some("USA".to_string()));
}

#[test]
fn test_parse_filename_with_disc() {
    let parsed = parse_filename("Final Fantasy VII (USA) (Disc 1).iso");

    assert_eq!(parsed.title, "Final Fantasy VII");
    assert_eq!(parsed.region, Some("USA".to_string()));
    assert_eq!(parsed.disc_number, Some(1));
}

#[test]
fn test_parse_filename_with_serial() {
    let parsed = parse_filename("Final Fantasy VII [SCUS-94163].iso");

    assert_eq!(parsed.title, "Final Fantasy VII");
    assert_eq!(parsed.serial, Some("SCUS-94163".to_string()));
}

#[test]
fn test_parse_filename_with_version() {
    let parsed = parse_filename("Game Title (USA) (v1.1).iso");

    assert_eq!(parsed.title, "Game Title");
    assert_eq!(parsed.version, Some("v1.1".to_string()));
}

#[test]
fn test_parse_filename_with_underscores() {
    let parsed = parse_filename("Final_Fantasy_VII.iso");

    assert_eq!(parsed.title, "Final Fantasy VII");
}

#[test]
fn test_parse_complex_filename() {
    let parsed = parse_filename("Final Fantasy VII (USA) (Disc 1) [SCUS-94163] (v1.0).chd");

    assert_eq!(parsed.title, "Final Fantasy VII");
    assert_eq!(parsed.region, Some("USA".to_string()));
    assert_eq!(parsed.disc_number, Some(1));
    assert_eq!(parsed.serial, Some("SCUS-94163".to_string()));
    assert_eq!(parsed.version, Some("v1.0".to_string()));
}

#[test]
fn test_normalize_volume_label() {
    assert_eq!(normalize_volume_label("GAME_TITLE"), "GAME TITLE");
    assert_eq!(normalize_volume_label("  GAME   TITLE  "), "GAME TITLE");
}

#[test]
fn original_is_the_stem() {
    let parsed = parse_filename("/games/Some.Game-2 (Europe) (unknown tag).bin");
    assert_eq!(parsed.original, "Some.Game-2 (Europe) (unknown tag)");
    assert_eq!(parsed.title, "Some Game 2");
    assert_eq!(parsed.region, Some("Europe".to_string()));
    assert_eq!(parsed.year, None);
    let parsed = parse_filename("");
    assert_eq!(parsed.original, "");
    assert_eq!(parsed.title, "");
}

#[test]
fn year_and_disc_number() {
    let parsed = parse_stem("Myst (1993) (CD 2)".to_string());
    assert_eq!(parsed.year, Some(1993));
    assert_eq!(parsed.disc_number, Some(2));
    assert_eq!(parsed.title, "Myst");
    // a number that is no year stays a tag and is dropped
    let parsed = parse_stem("Myst (1893)".to_string());
    assert_eq!(parsed.year, None);
    assert_eq!(parsed.title, "Myst");
}

#[test]
fn tidy_title() {
    assert_eq!(tidy("a_b-c.d   e"), "a b c d e");
    assert_eq!(tidy("  "), "");
}

#[test]
fn confidence_names_and_order() {
    assert_eq!(ConfidenceLevel::Low.display_name(), "Low (filename)");
    assert_eq!(ConfidenceLevel::Medium.display_name(), "Medium (metadata)");
    assert_eq!(ConfidenceLevel::High.display_name(), "High (volume label)");
    assert!(ConfidenceLevel::Low < ConfidenceLevel::Medium);
    assert!(ConfidenceLevel::Medium < ConfidenceLevel::High);
}
