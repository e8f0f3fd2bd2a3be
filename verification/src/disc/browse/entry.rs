//! Entries of a disc filesystem.

use vstd::prelude::*;
use crate::text::number::{decimal_chars, decimal_text, fixed_chars, fixed_text};
use crate::text::string_of;

verus! {

/// Kind of a filesystem entry.
#[derive(Debug, Clone, Copy, PartialEq, Eq, Structural)]
pub enum EntryType {
    /// A file.
    File,
    /// A directory.
    Directory,
}

/// A file or directory of a disc filesystem.
#[derive(Debug)]
pub struct FileEntry {
    /// Name of the file or directory.
    pub name: String,
    /// Full path from the root, such as "/System/Library/file.txt".
    pub path: String,
    /// File or directory.
    pub entry_type: EntryType,
    /// Size in bytes; 0 for directories.
    pub size: u64,
    /// Where the entry is found: a logical block address on ISO 9660, a
    /// catalog id on the hierarchical filesystems.
    pub location: u64,
    /// The entries of a directory, once it has been expanded.
    pub children: Option<Vec<FileEntry>>,
}

/// What an entry says, as mathematical values. The children, which a
/// listing never fills, are left out.
pub struct EntryModel {
    /// The name.
    pub name: Seq<char>,
    /// The full path.
    pub path: Seq<char>,
    /// File or directory.
    pub entry_type: EntryType,
    /// Size in bytes.
    pub size: u64,
    /// Location token.
    pub location: u64,
}

impl View for FileEntry {
    type V = EntryModel;

    open spec fn view(&self) -> EntryModel {
        EntryModel {
            name: self.name@,
            path: self.path@,
            entry_type: self.entry_type,
            size: self.size,
            location: self.location,
        }
    }
}

impl Clone for FileEntry {
    /// A copy of the entry, its children included.
    fn clone(&self) -> (r: Self)
        ensures
            r@ == self@,
            r.children is Some <==> self.children is Some,
        decreases self,
    {
        let children: Option<Vec<FileEntry>> = match &self.children {
            Some(list) => {
                let mut copies: Vec<FileEntry> = Vec::new();
                let mut i: usize = 0;
                while i < list.len()
                    invariant
                        i <= list@.len(),
                        self.children == Some(*list),
                    decreases list@.len() - i,
                {
                    proof {
                        vstd::std_specs::vec::axiom_vec_index_decreases(*list, i as int);
                        assert(decreases_to!(self => self.children));
                        assert(self.children->0 == *list);
                        assert(decreases_to!(self.children => self.children->0));
                    }
                    copies.push(list[i].clone());
                    i = i + 1;
                }
                Some(copies)
            },
            None => None,
        };
        FileEntry {
            name: self.name.clone(),
            path: self.path.clone(),
            entry_type: self.entry_type,
            size: self.size,
            location: self.location,
            children,
        }
    }
}

/// The models of a sequence of entries.
pub open spec fn models(entries: Seq<FileEntry>) -> Seq<EntryModel> {
    Seq::new(entries.len(), |i: int| entries[i]@)
}

/// No entry has its children filled in.
pub open spec fn unexpanded(entries: Seq<FileEntry>) -> bool {
    forall|i: int| 0 <= i < entries.len() ==> (#[trigger] entries[i]).children is None
}

/// A number of units with a fraction of `scale` parts, rounded to the
/// nearest part, ties to the even part.
pub open spec fn rounded_parts(size: nat, unit: nat, scale: nat) -> nat {
    let q = (size * scale) / unit;
    let r = (size * scale) % unit;
    if 2 * r > unit || (2 * r == unit && q % 2 == 1) {
        q + 1
    } else {
        q
    }
}

/// The size in binary units: bytes as they are, larger sizes with one
/// decimal (two from a gigabyte on), rounded to nearest, ties to even.
pub open spec fn size_text(size: u64) -> Seq<char> {
    if size < 1024 {
        decimal_text(size as nat) + " B"@
    } else if size < 1024 * 1024 {
        let t = rounded_parts(size as nat, 1024, 10);
        decimal_text(t / 10) + seq!['.'] + fixed_text(t % 10, 10, 1) + " KB"@
    } else if size < 1024 * 1024 * 1024 {
        let t = rounded_parts(size as nat, 1024 * 1024, 10);
        decimal_text(t / 10) + seq!['.'] + fixed_text(t % 10, 10, 1) + " MB"@
    } else {
        let t = rounded_parts(size as nat, 1024 * 1024 * 1024, 100);
        decimal_text(t / 100) + seq!['.'] + fixed_text(t % 100, 10, 2) + " GB"@
    }
}

/// Rounds `size * scale / unit` to the nearest whole, ties to even.
fn round_parts(size: u64, unit: u64, scale: u64) -> (r: u64)
    requires
        1024 <= unit <= 1024 * 1024 * 1024,
        0 < scale <= 100,
    ensures
        r == rounded_parts(size as nat, unit as nat, scale as nat),
{
    assert(size * scale <= 100 * 0xffff_ffff_ffff_ffff) by (nonlinear_arith)
        requires
            size <= 0xffff_ffff_ffff_ffff,
            scale <= 100,
    ;
    let n: u128 = size as u128 * scale as u128;
    let q: u128 = n / (unit as u128);
    let m: u128 = n % (unit as u128);
    proof {
        vstd::arithmetic::div_mod::lemma_fundamental_div_mod(n as int, unit as int);
        vstd::arithmetic::div_mod::lemma_mod_bound(n as int, unit as int);
        assert(q * 1024 <= n) by (nonlinear_arith)
            requires
                n == unit * q + m,
                0 <= m,
                unit >= 1024,
                q >= 0,
        ;
    }
    if 2 * m > unit as u128 || (2 * m == unit as u128 && q % 2 == 1) {
        (q + 1) as u64
    } else {
        q as u64
    }
}

/// Writes a rounded number of parts as units, a dot and the fraction.
fn parts_chars(t: u64, scale: u64, digits: usize, suffix: &str) -> (r: Vec<char>)
    requires
        scale == 10 && digits == 1 || scale == 100 && digits == 2,
    ensures
        r@ == decimal_text((t / scale) as nat) + seq!['.'] + fixed_text(
            (t % scale) as nat,
            10,
            digits as nat,
        ) + suffix@,
{
    let mut out: Vec<char> = decimal_chars(t / scale);
    out.push('.');
    let fraction = fixed_chars(t % scale, 10, digits);
    out.extend_from_slice(fraction.as_slice());
    let tail = crate::text::chars_of(suffix);
    out.extend_from_slice(tail.as_slice());
    out
}

impl FileEntry {
    /// A file entry.
    pub fn new_file(name: String, path: String, size: u64, location: u64) -> (r: Self)
        ensures
            r@ == (EntryModel { name: name@, path: path@, entry_type: EntryType::File, size, location }),
            r.children is None,
    {
        FileEntry { name, path, entry_type: EntryType::File, size, location, children: None }
    }

    /// A directory entry.
    pub fn new_directory(name: String, path: String, location: u64) -> (r: Self)
        ensures
            r@ == (EntryModel {
                name: name@,
                path: path@,
                entry_type: EntryType::Directory,
                size: 0,
                location,
            }),
            r.children is None,
    {
        FileEntry { name, path, entry_type: EntryType::Directory, size: 0, location, children: None }
    }

    /// The root directory, with an empty name and the path "/".
    pub fn root(location: u64) -> (r: Self)
        ensures
            r@ == (EntryModel {
                name: Seq::empty(),
                path: "/"@,
                entry_type: EntryType::Directory,
                size: 0,
                location,
            }),
            r.children is None,
    {
        FileEntry {
            name: String::new(),
            path: "/".to_owned(),
            entry_type: EntryType::Directory,
            size: 0,
            location,
            children: None,
        }
    }

    /// Whether this is a directory.
    pub fn is_directory(&self) -> (r: bool)
        ensures
            r == (self.entry_type == EntryType::Directory),
    {
        self.entry_type == EntryType::Directory
    }

    /// Whether this is a file.
    pub fn is_file(&self) -> (r: bool)
        ensures
            r == (self.entry_type == EntryType::File),
    {
        self.entry_type == EntryType::File
    }

    /// The size for display; empty for a directory.
    pub fn size_string(&self) -> (r: String)
        ensures
            r@ == if self.entry_type == EntryType::Directory {
                Seq::<char>::empty()
            } else {
                size_text(self.size)
            },
    {
        if self.is_directory() {
            return String::new();
        }
        let size: u64 = self.size;
        let chars: Vec<char> = if size < 1024 {
            let mut out: Vec<char> = decimal_chars(size);
            let tail = crate::text::chars_of(" B");
            out.extend_from_slice(tail.as_slice());
            out
        } else if size < 1024 * 1024 {
            parts_chars(round_parts(size, 1024, 10), 10, 1, " KB")
        } else if size < 1024 * 1024 * 1024 {
            parts_chars(round_parts(size, 1024 * 1024, 10), 10, 1, " MB")
        } else {
            parts_chars(round_parts(size, 1024 * 1024 * 1024, 100), 100, 2, " GB")
        };
        string_of(chars.as_slice())
    }
}

} // verus!
