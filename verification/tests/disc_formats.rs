use ode_artwork_downloader::disc::formats::{supported_extensions, DiscFormat, FilesystemType};

#[test]
fn test_format_detection() {
    assert_eq!(DiscFormat::from_path("game.iso"), Some(DiscFormat::Iso));
    assert_eq!(DiscFormat::from_path("game.ISO"), Some(DiscFormat::Iso));
    assert_eq!(DiscFormat::from_path("game.chd"), Some(DiscFormat::Chd));
    assert_eq!(DiscFormat::from_path("game.bin"), Some(DiscFormat::BinCue));
    assert_eq!(DiscFormat::from_path("game.cue"), Some(DiscFormat::BinCue));
    assert_eq!(DiscFormat::from_path("game.txt"), None);
}

#[test]
fn format_extension_table() {
    assert_eq!(DiscFormat::from_path("a.toast"), Some(DiscFormat::Iso));
    assert_eq!(DiscFormat::from_path("a.mds"), Some(DiscFormat::MdsMdf));
    assert_eq!(DiscFormat::from_path("a.MDF"), Some(DiscFormat::MdsMdf));
    assert_eq!(DiscFormat::from_path("noextension"), None);
    assert_eq!(DiscFormat::from_extension("iso"), Some(DiscFormat::Iso));
    assert_eq!(DiscFormat::from_extension("ISO"), None);
    assert_eq!(DiscFormat::Iso.extensions(), vec!["iso", "toast"]);
    assert_eq!(DiscFormat::Chd.extensions(), vec!["chd"]);
    assert_eq!(
        supported_extensions(),
        vec!["iso", "toast", "bin", "cue", "chd", "mds", "mdf"]
    );
}

#[test]
fn display_names() {
    assert_eq!(DiscFormat::Iso.display_name(), "ISO 9660");
    assert_eq!(DiscFormat::BinCue.display_name(), "BIN/CUE");
    assert_eq!(DiscFormat::Chd.display_name(), "CHD (Compressed Hunks of Data)");
    assert_eq!(DiscFormat::MdsMdf.display_name(), "MDS/MDF");
    assert_eq!(FilesystemType::HfsPlus.display_name(), "HFS+");
    assert_eq!(FilesystemType::Unknown.display_name(), "Unknown");
}
