//! Disc image formats and filesystem kinds.

use vstd::prelude::*;
use crate::paths::{extension_of, path_extension};
use crate::text::{lowercase_text, str_eq, to_lowercase};

verus! {

/// Supported disc image formats.
#[derive(Debug, Clone, Copy, PartialEq, Eq, Structural)]
pub enum DiscFormat {
    /// Single-file image (.iso, .toast).
    Iso,
    /// Raw binary described by a track sheet (.bin, .cue).
    BinCue,
    /// Compressed hunks of data (.chd).
    Chd,
    /// Media descriptor and data file (.mds, .mdf).
    MdsMdf,
}

/// Filesystem kinds found on disc images.
#[derive(Debug, Clone, Copy, PartialEq, Eq, Structural)]
pub enum FilesystemType {
    /// ISO 9660.
    Iso9660,
    /// Joliet extensions.
    Joliet,
    /// Universal Disk Format.
    Udf,
    /// Classic hierarchical filesystem.
    Hfs,
    /// Extended hierarchical filesystem.
    HfsPlus,
    /// Unknown or unsupported.
    Unknown,
}

impl DiscFormat {
    /// The format that a lower-case extension stands for.
    pub open spec fn of_extension(ext: Seq<char>) -> Option<DiscFormat> {
        if ext == "iso"@ || ext == "toast"@ {
            Some(DiscFormat::Iso)
        } else if ext == "bin"@ || ext == "cue"@ {
            Some(DiscFormat::BinCue)
        } else if ext == "chd"@ {
            Some(DiscFormat::Chd)
        } else if ext == "mds"@ || ext == "mdf"@ {
            Some(DiscFormat::MdsMdf)
        } else {
            None
        }
    }

    /// The format that the extension of a path stands for, in any case of
    /// letters.
    pub open spec fn of_path(path: Seq<char>) -> Option<DiscFormat> {
        match path_extension(path) {
            Some(ext) => Self::of_extension(lowercase_text(ext)),
            None => None,
        }
    }

    /// Dispatches on an extension already in lower case.
    pub fn from_extension(ext: &str) -> (r: Option<Self>)
        ensures
            r == Self::of_extension(ext@),
    {
        if str_eq(ext, "iso") || str_eq(ext, "toast") {
            Some(DiscFormat::Iso)
        } else if str_eq(ext, "bin") || str_eq(ext, "cue") {
            Some(DiscFormat::BinCue)
        } else if str_eq(ext, "chd") {
            Some(DiscFormat::Chd)
        } else if str_eq(ext, "mds") || str_eq(ext, "mdf") {
            Some(DiscFormat::MdsMdf)
        } else {
            None
        }
    }

    /// Detects the format from the extension of a path.
    pub fn from_path(path: &str) -> (r: Option<Self>)
        ensures
            r == Self::of_path(path@),
    {
        match extension_of(path) {
            Some(ext) => {
                let lower = to_lowercase(ext.as_str());
                Self::from_extension(lower.as_str())
            },
            None => None,
        }
    }

    /// The display name of the format.
    pub fn display_name(&self) -> (r: &'static str)
        ensures
            r@ == match *self {
                DiscFormat::Iso => "ISO 9660"@,
                DiscFormat::BinCue => "BIN/CUE"@,
                DiscFormat::Chd => "CHD (Compressed Hunks of Data)"@,
                DiscFormat::MdsMdf => "MDS/MDF"@,
            },
    {
        match self {
            DiscFormat::Iso => "ISO 9660",
            DiscFormat::BinCue => "BIN/CUE",
            DiscFormat::Chd => "CHD (Compressed Hunks of Data)",
            DiscFormat::MdsMdf => "MDS/MDF",
        }
    }

    /// The file extensions of the format.
    pub fn extensions(&self) -> (r: Vec<&'static str>)
        ensures
            r@.len() == match *self {
                DiscFormat::Chd => 1nat,
                _ => 2nat,
            },
            forall|i: int| 0 <= i < r@.len() ==> Self::of_extension(#[trigger] r@[i]@) == Some(*self),
            match *self {
                DiscFormat::Iso => r@[0]@ == "iso"@ && r@[1]@ == "toast"@,
                DiscFormat::BinCue => r@[0]@ == "bin"@ && r@[1]@ == "cue"@,
                DiscFormat::Chd => r@[0]@ == "chd"@,
                DiscFormat::MdsMdf => r@[0]@ == "mds"@ && r@[1]@ == "mdf"@,
            },
    {
        let mut out: Vec<&'static str> = Vec::new();
        match self {
            DiscFormat::Iso => {
                out.push("iso");
                out.push("toast");
            },
            DiscFormat::BinCue => {
                out.push("bin");
                out.push("cue");
            },
            DiscFormat::Chd => {
                out.push("chd");
            },
            DiscFormat::MdsMdf => {
                out.push("mds");
                out.push("mdf");
            },
        }
        proof {
            lemma_extensions_distinct();
        }
        out
    }
}

/// The seven extensions are seven different strings.
pub proof fn lemma_extensions_distinct()
    ensures
        DiscFormat::of_extension("iso"@) == Some(DiscFormat::Iso),
        DiscFormat::of_extension("toast"@) == Some(DiscFormat::Iso),
        DiscFormat::of_extension("bin"@) == Some(DiscFormat::BinCue),
        DiscFormat::of_extension("cue"@) == Some(DiscFormat::BinCue),
        DiscFormat::of_extension("chd"@) == Some(DiscFormat::Chd),
        DiscFormat::of_extension("mds"@) == Some(DiscFormat::MdsMdf),
        DiscFormat::of_extension("mdf"@) == Some(DiscFormat::MdsMdf),
{
    reveal_strlit("iso");
    reveal_strlit("toast");
    reveal_strlit("bin");
    reveal_strlit("cue");
    reveal_strlit("chd");
    reveal_strlit("mds");
    reveal_strlit("mdf");
    assert("iso"@[0] != "bin"@[0]);
    assert("iso"@[0] != "cue"@[0]);
    assert("bin"@[0] != "cue"@[0]);
    assert("bin"@[0] != "chd"@[0]);
    assert("cue"@[1] != "chd"@[1]);
    assert("iso"@[0] != "chd"@[0]);
    assert("iso"@[0] != "mds"@[0]);
    assert("bin"@[0] != "mds"@[0]);
    assert("cue"@[0] != "mds"@[0]);
    assert("mds"@[2] != "mdf"@[2]);
}

impl FilesystemType {
    /// The display name of the filesystem kind.
    pub fn display_name(&self) -> (r: &'static str)
        ensures
            r@ == match *self {
                FilesystemType::Iso9660 => "ISO 9660"@,
                FilesystemType::Joliet => "Joliet"@,
                FilesystemType::Udf => "UDF"@,
                FilesystemType::Hfs => "HFS"@,
                FilesystemType::HfsPlus => "HFS+"@,
                FilesystemType::Unknown => "Unknown"@,
            },
    {
        match self {
            FilesystemType::Iso9660 => "ISO 9660",
            FilesystemType::Joliet => "Joliet",
            FilesystemType::Udf => "UDF",
            FilesystemType::Hfs => "HFS",
            FilesystemType::HfsPlus => "HFS+",
            FilesystemType::Unknown => "Unknown",
        }
    }
}

/// All supported file extensions, for file dialogs.
pub fn supported_extensions() -> (r: Vec<&'static str>)
    ensures
        r@.len() == 7,
        r@[0]@ == "iso"@,
        r@[1]@ == "toast"@,
        r@[2]@ == "bin"@,
        r@[3]@ == "cue"@,
        r@[4]@ == "chd"@,
        r@[5]@ == "mds"@,
        r@[6]@ == "mdf"@,
        forall|i: int| 0 <= i < r@.len() ==> DiscFormat::of_extension(#[trigger] r@[i]@) is Some,
{
    let mut out: Vec<&'static str> = Vec::new();
    out.push("iso");
    out.push("toast");
    out.push("bin");
    out.push("cue");
    out.push("chd");
    out.push("mds");
    out.push("mdf");
    proof {
        lemma_extensions_distinct();
    }
    out
}

} // verus!
