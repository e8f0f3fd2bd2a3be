//! Export of cover art: where the image goes and how it is cut.

use vstd::prelude::*;
use crate::paths::{file_stem_of, join_path, parent_of, path_file_stem, path_join, path_parent};
use crate::text::concat2;

verus! {

/// Width and height of the exported image.
pub const TARGET_SIZE: u32 = 240;

/// JPEG quality of the exported image.
pub const JPEG_QUALITY: u8 = 90;

/// What an export did.
#[derive(Debug)]
pub struct ExportResult {
    /// Where the image was saved.
    pub output_path: String,
    /// Width and height of the image as it came.
    pub original_size: (u32, u32),
    /// Width and height of the exported image.
    pub final_size: (u32, u32),
    /// Whether the original was cropped.
    pub was_cropped: bool,
}

/// How an image is exported.
#[derive(Debug, Clone)]
pub struct ExportSettings {
    /// Width and height of the exported image.
    pub target_size: u32,
    /// JPEG quality, 0 to 100.
    pub quality: u8,
}

impl Default for ExportSettings {
    /// 240 pixels at quality 90.
    fn default() -> (r: Self)
        ensures
            r.target_size == TARGET_SIZE,
            r.quality == JPEG_QUALITY,
    {
        ExportSettings { target_size: TARGET_SIZE, quality: JPEG_QUALITY }
    }
}

/// The square that is cut out of an image: its left edge, its top edge and
/// its side.
#[derive(Debug, Clone, Copy, PartialEq, Eq, Structural)]
pub struct CropSquare {
    /// Left edge.
    pub x: u32,
    /// Top edge.
    pub y: u32,
    /// Length of a side.
    pub size: u32,
}

/// The largest square in the middle of an image, and whether it is
/// smaller than the image.
pub open spec fn centered_square(width: u32, height: u32) -> (CropSquare, bool) {
    if width == height {
        (CropSquare { x: 0, y: 0, size: width }, false)
    } else if width > height {
        (CropSquare { x: ((width - height) / 2) as u32, y: 0, size: height }, true)
    } else {
        (CropSquare { x: 0, y: ((height - width) / 2) as u32, size: width }, true)
    }
}

/// Finds the largest square in the middle of an image.
pub fn crop_to_square(width: u32, height: u32) -> (r: (CropSquare, bool))
    ensures
        r == centered_square(width, height),
        r.0.x + r.0.size <= width,
        r.0.y + r.0.size <= height,
{
    if width == height {
        (CropSquare { x: 0, y: 0, size: width }, false)
    } else if width > height {
        (CropSquare { x: (width - height) / 2, y: 0, size: height }, true)
    } else {
        (CropSquare { x: 0, y: (height - width) / 2, size: width }, true)
    }
}

/// The directory of the image: the parent of the path, or `.` where it has
/// none or an empty one.
pub open spec fn output_directory(disc_path: Seq<char>) -> Seq<char> {
    match path_parent(disc_path) {
        Some(parent) => if parent.len() == 0 {
            "."@
        } else {
            parent
        },
        None => "."@,
    }
}

/// The path of the exported image: in the directory of the disc image,
/// named like it (or `cover`), with the extension `jpg`.
pub open spec fn output_path_of(disc_path: Seq<char>) -> Seq<char> {
    path_join(
        output_directory(disc_path),
        match path_file_stem(disc_path) {
            Some(stem) => stem,
            None => "cover"@,
        } + ".jpg"@,
    )
}

/// The path of the exported image for a disc image.
pub fn generate_output_path(disc_path: &str) -> (r: String)
    ensures
        r@ == output_path_of(disc_path@),
{
    let stem: String = match file_stem_of(disc_path) {
        Some(s) => s,
        None => "cover".to_owned(),
    };
    let parent: String = match parent_of(disc_path) {
        Some(p) => if p.as_str().is_empty() {
            ".".to_owned()
        } else {
            p
        },
        None => ".".to_owned(),
    };
    join_path(parent.as_str(), concat2(stem.as_str(), ".jpg").as_str())
}

} // verus!
