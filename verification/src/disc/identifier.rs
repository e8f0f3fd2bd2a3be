//! Identification of a title from a file name or a volume label.

use vstd::prelude::*;
use crate::paths::{file_stem_of, path_file_stem};
use crate::pattern::{
    capture_group, regex_capture, regex_replaced, regex_replaced_all, replace_every, replace_first,
};
use crate::text::number::{parse_u32_chars, parse_u32_text};
use crate::text::trim::{collapse_space_chars, collapse_spaces, replace_char, replace_char_in};
use crate::text::{chars_of, string_of};

verus! {

/// How sure an identification is.
#[derive(Debug, Clone, Copy, PartialEq, Eq, PartialOrd, Ord, Structural)]
pub enum ConfidenceLevel {
    /// Derived from the file name alone.
    Low,
    /// Derived from metadata of the container.
    Medium,
    /// Derived from a clean volume label.
    High,
}

impl ConfidenceLevel {
    /// The display name of the level.
    pub fn display_name(&self) -> (r: &'static str)
        ensures
            r@ == match *self {
                ConfidenceLevel::Low => "Low (filename)"@,
                ConfidenceLevel::Medium => "Medium (metadata)"@,
                ConfidenceLevel::High => "High (volume label)"@,
            },
    {
        match self {
            ConfidenceLevel::Low => "Low (filename)",
            ConfidenceLevel::Medium => "Medium (metadata)",
            ConfidenceLevel::High => "High (volume label)",
        }
    }
}

/// What a file name says about a disc.
#[derive(Debug, Clone)]
pub struct ParsedFilename {
    /// Cleaned title.
    pub title: String,
    /// File name without its extension.
    pub original: String,
    /// Region code, if one was found.
    pub region: Option<String>,
    /// Disc number, if one was found.
    pub disc_number: Option<u32>,
    /// Serial number, if one was found.
    pub serial: Option<String>,
    /// Version, if one was found.
    pub version: Option<String>,
    /// Year of release, if one was found.
    pub year: Option<u32>,
}

/// Pattern of a region tag in parentheses.
pub open spec fn region_pattern() -> Seq<char> {
    r"(?i)\s*\((USA|Europe|Japan|World|En|Fr|De|Es|It|Ja|Ko|Zh|PAL|NTSC|NTSC-U|NTSC-J|PAL-E)[^)]*\)"@
}

/// Pattern of a disc number in parentheses.
pub open spec fn disc_pattern() -> Seq<char> {
    r"(?i)\s*\((Disc|CD|DVD|Disk)\s*(\d+)[^)]*\)"@
}

/// Pattern of a serial number in brackets.
pub open spec fn serial_pattern() -> Seq<char> {
    r"\s*\[([A-Z]{2,4}[PS]?-?\d{4,6})\]"@
}

/// Pattern of a version in parentheses.
pub open spec fn version_pattern() -> Seq<char> {
    r"(?i)\s*\((v\d+\.?\d*|Rev\s*[A-Z0-9]+)\)"@
}

/// Pattern of a year in parentheses.
pub open spec fn year_pattern() -> Seq<char> {
    r"\s*\(((?:19|20)\d{2})\)"@
}

/// Pattern of any remaining tag in parentheses or brackets.
pub open spec fn extra_tags_pattern() -> Seq<char> {
    r"\s*\([^)]+\)|\s*\[[^\]]+\]"@
}

/// The text after a tag has been cut out.
pub open spec fn without(pattern: Seq<char>, text: Seq<char>) -> Seq<char> {
    regex_replaced(pattern, text, Seq::empty())
}

/// The file name after the region tag has been cut out.
pub open spec fn after_region(original: Seq<char>) -> Seq<char> {
    without(region_pattern(), original)
}

/// The file name after the region and disc tags have been cut out.
pub open spec fn after_disc(original: Seq<char>) -> Seq<char> {
    without(disc_pattern(), after_region(original))
}

/// The file name after the region, disc and serial tags have been cut out.
pub open spec fn after_serial(original: Seq<char>) -> Seq<char> {
    without(serial_pattern(), after_disc(original))
}

/// The file name after the region, disc, serial and version tags have been
/// cut out.
pub open spec fn after_version(original: Seq<char>) -> Seq<char> {
    without(version_pattern(), after_serial(original))
}

/// The file name after all tags have been cut out.
pub open spec fn after_tags(original: Seq<char>) -> Seq<char> {
    regex_replaced_all(
        extra_tags_pattern(),
        without(year_pattern(), after_version(original)),
        Seq::empty(),
    )
}

/// A title with `_`, `-` and `.` turned into spaces and every run of
/// whitespace collapsed.
pub open spec fn tidy_title(text: Seq<char>) -> Seq<char> {
    collapse_spaces(replace_char(replace_char(replace_char(text, '_', ' '), '-', ' '), '.', ' '))
}

/// A volume label with `_` turned into spaces and every run of whitespace
/// collapsed.
pub open spec fn normalized_label(label: Seq<char>) -> Seq<char> {
    collapse_spaces(replace_char(label, '_', ' '))
}

/// The number that a captured run of digits denotes.
pub open spec fn captured_number(capture: Option<Seq<char>>) -> Option<u32> {
    match capture {
        Some(digits) => parse_u32_text(digits),
        None => None,
    }
}

/// The file name of a path without its extension; empty if there is none.
pub open spec fn stem_of(path: Seq<char>) -> Seq<char> {
    match path_file_stem(path) {
        Some(stem) => stem,
        None => Seq::empty(),
    }
}

/// The view of an optional string.
pub open spec fn optional_text(s: Option<String>) -> Option<Seq<char>> {
    match s {
        Some(t) => Some(t@),
        None => None,
    }
}

impl ParsedFilename {
    /// This is what the file name `original` says.
    pub open spec fn describes(&self, original: Seq<char>) -> bool {
        &&& self.original@ == original
        &&& self.title@ == tidy_title(after_tags(original))
        &&& optional_text(self.region) == regex_capture(region_pattern(), original, 1)
        &&& self.disc_number == captured_number(
            regex_capture(disc_pattern(), after_region(original), 2),
        )
        &&& optional_text(self.serial) == regex_capture(serial_pattern(), after_disc(original), 1)
        &&& optional_text(self.version) == regex_capture(
            version_pattern(),
            after_serial(original),
            1,
        )
        &&& self.year == captured_number(regex_capture(year_pattern(), after_version(original), 1))
    }
}

/// The number that a captured run of digits denotes.
pub fn number_of_capture(capture: Option<String>) -> (r: Option<u32>)
    ensures
        r == captured_number(optional_text(capture)),
{
    match capture {
        Some(digits) => {
            let chars = chars_of(digits.as_str());
            parse_u32_chars(chars.as_slice())
        },
        None => None,
    }
}

/// Turns `_`, `-` and `.` into spaces and collapses whitespace.
pub fn tidy(text: &str) -> (r: String)
    ensures
        r@ == tidy_title(text@),
{
    let chars = chars_of(text);
    let a = replace_char_in(chars.as_slice(), '_', ' ');
    let b = replace_char_in(a.as_slice(), '-', ' ');
    let c = replace_char_in(b.as_slice(), '.', ' ');
    let d = collapse_space_chars(c.as_slice());
    string_of(d.as_slice())
}

/// Parses the file name of a disc image: the tags for region, disc number,
/// serial number, version and year are read and cut out in this order, any
/// other tag is dropped, and what remains is tidied into the title.
pub fn parse_filename(path: &str) -> (r: ParsedFilename)
    ensures
        r.describes(stem_of(path@)),
{
    let original: String = match file_stem_of(path) {
        Some(stem) => stem,
        None => String::new(),
    };
    parse_stem(original)
}

/// Parses a file name that has already lost its extension.
pub fn parse_stem(original: String) -> (r: ParsedFilename)
    ensures
        r.describes(original@),
{
    let region_re = r"(?i)\s*\((USA|Europe|Japan|World|En|Fr|De|Es|It|Ja|Ko|Zh|PAL|NTSC|NTSC-U|NTSC-J|PAL-E)[^)]*\)";
    let disc_re = r"(?i)\s*\((Disc|CD|DVD|Disk)\s*(\d+)[^)]*\)";
    let serial_re = r"\s*\[([A-Z]{2,4}[PS]?-?\d{4,6})\]";
    let version_re = r"(?i)\s*\((v\d+\.?\d*|Rev\s*[A-Z0-9]+)\)";
    let year_re = r"\s*\(((?:19|20)\d{2})\)";
    let extra_re = r"\s*\([^)]+\)|\s*\[[^\]]+\]";

    let region = capture_group(region_re, original.as_str(), 1);
    let title = replace_first(region_re, original.as_str(), "");

    let disc_number = number_of_capture(capture_group(disc_re, title.as_str(), 2));
    let title = replace_first(disc_re, title.as_str(), "");

    let serial = capture_group(serial_re, title.as_str(), 1);
    let title = replace_first(serial_re, title.as_str(), "");

    let version = capture_group(version_re, title.as_str(), 1);
    let title = replace_first(version_re, title.as_str(), "");

    let year = number_of_capture(capture_group(year_re, title.as_str(), 1));
    let title = replace_first(year_re, title.as_str(), "");

    let title = replace_every(extra_re, title.as_str(), "");
    let title = tidy(title.as_str());
    proof {
        assert(""@ =~= Seq::<char>::empty()) by {
            reveal_strlit("");
        }
    }
    ParsedFilename { title, original, region, disc_number, serial, version, year }
}

/// Normalizes a volume label for display and search.
pub fn normalize_volume_label(label: &str) -> (r: String)
    ensures
        r@ == normalized_label(label@),
{
    let chars = chars_of(label);
    let a = replace_char_in(chars.as_slice(), '_', ' ');
    let b = collapse_space_chars(a.as_slice());
    string_of(b.as_slice())
}

} // verus!
