use ode_artwork_downloader::api::mobygames::{
    find_best_cover, parse_cover_info, thumbnail_to_full_url, CoverInfo,
};

#[test]
fn test_parse_cover_info_parentheses() {
    let (platform, country) = parse_cover_info("DOS (United States)");
    assert_eq!(platform, "DOS");
    assert_eq!(country, "United States");
}

#[test]
fn test_parse_cover_info_dash() {
    let (platform, country) = parse_cover_info("Windows - Front Cover");
    assert_eq!(platform, "Windows");
    assert_eq!(country, "Unknown");
}

#[test]
fn test_parse_cover_info_slash() {
    let (platform, country) = parse_cover_info("Macintosh / United Kingdom");
    assert_eq!(platform, "Macintosh");
    assert_eq!(country, "United Kingdom");
}

#[test]
fn test_thumbnail_to_full_url() {
    assert_eq!(
        thumbnail_to_full_url("https://cdn.mobygames.com/abc/covers/small/123.jpg"),
        "https://cdn.mobygames.com/abc/covers/large/123.jpg"
    );
}

#[test]
fn thumbnail_variants() {
    assert_eq!(
        thumbnail_to_full_url("https://x/covers/medium/1.jpg"),
        "https://x/covers/large/1.jpg"
    );
    assert_eq!(thumbnail_to_full_url("https://x/1.jpg?w=100"), "https://x/1.jpg");
    assert_eq!(thumbnail_to_full_url("https://x/1.jpg"), "https://x/1.jpg");
}

#[test]
fn cover_info_plain() {
    let (platform, country) = parse_cover_info("  Amiga  ");
    assert_eq!(platform, "Amiga");
    assert_eq!(country, "Unknown");
}

fn cover(platform: &str, country: &str, kind: &str) -> CoverInfo {
    CoverInfo {
        platform: platform.to_string(),
        country: country.to_string(),
        cover_type: kind.to_string(),
        thumbnail_url: String::new(),
        full_url: String::new(),
    }
}

#[test]
fn best_cover_rounds() {
    // the platform preferred most wins in the first round
    let covers = vec![
        cover("Windows", "United States", "Front Cover"),
        cover("DOS", "United Kingdom", "Front Cover"),
    ];
    assert_eq!(find_best_cover(&covers), Some(1));

    // no preferred platform: an English-speaking front cover
    let covers = vec![
        cover("Atari", "Germany", "Front Cover"),
        cover("Atari", "Worldwide", "Front Cover"),
    ];
    assert_eq!(find_best_cover(&covers), Some(1));

    // a front cover of a preferred platform from elsewhere
    let covers = vec![
        cover("Atari", "Germany", "Front Cover"),
        cover("Linux", "Germany", "front"),
    ];
    assert_eq!(find_best_cover(&covers), Some(1));

    // any front cover
    let covers = vec![
        cover("Atari", "Germany", "Back Cover"),
        cover("Atari", "Germany", "Front Cover"),
    ];
    assert_eq!(find_best_cover(&covers), Some(1));

    // no front cover: nothing
    let covers = vec![cover("DOS", "United States", "Back Cover")];
    assert_eq!(find_best_cover(&covers), None);
    assert_eq!(find_best_cover(&[]), None);
}
