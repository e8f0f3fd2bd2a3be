use ode_artwork_downloader::export::{
    crop_to_square, generate_output_path, ExportSettings, JPEG_QUALITY, TARGET_SIZE,
};

#[test]
fn test_generate_output_path() {
    assert_eq!(generate_output_path("/path/to/game.iso"), "/path/to/game.jpg");
    assert_eq!(generate_output_path("/path/to/game.chd"), "/path/to/game.jpg");
    assert_eq!(generate_output_path("game.bin"), "./game.jpg");
}

#[test]
fn test_crop_to_square_already_square() {
    let (square, was_cropped) = crop_to_square(100, 100);
    assert!(!was_cropped);
    assert_eq!(square.size, 100);
    assert_eq!((square.x, square.y), (0, 0));
}

#[test]
fn test_crop_to_square_landscape() {
    let (square, was_cropped) = crop_to_square(200, 100);
    assert!(was_cropped);
    assert_eq!(square.size, 100);
    assert_eq!((square.x, square.y), (50, 0));
}

#[test]
fn test_crop_to_square_portrait() {
    let (square, was_cropped) = crop_to_square(100, 200);
    assert!(was_cropped);
    assert_eq!(square.size, 100);
    assert_eq!((square.x, square.y), (0, 50));
}

#[test]
fn test_default_settings() {
    let settings = ExportSettings::default();
    assert_eq!(settings.target_size, 240);
    assert_eq!(settings.quality, 90);
}

#[test]
fn export_constants() {
    assert_eq!(TARGET_SIZE, 240);
    assert_eq!(JPEG_QUALITY, 90);
    assert_eq!(generate_output_path(""), "./cover.jpg");
}
