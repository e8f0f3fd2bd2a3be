//! The interface of a browsable filesystem.

use vstd::prelude::*;
use crate::disc::browse::entry::{EntryType, FileEntry};
use crate::disc::browse::reader::ReadError;

verus! {

/// Errors of filesystem operations.
#[derive(Debug)]
pub enum FilesystemError {
    /// A read from the image failed.
    Io(ReadError),
    /// The entry is not of the kind the operation needs.
    NotADirectory(String),
    /// No entry with the given identity exists.
    NotFound(String),
    /// An on-disc structure could not be parsed.
    Parse(String),
    /// The operation is not supported on this filesystem.
    Unsupported,
    /// An on-disc structure holds values that cannot be used.
    InvalidData(String),
}

/// The kind of a filesystem error, without its message.
#[derive(Debug, Clone, Copy, PartialEq, Eq, Structural)]
pub enum ErrorKind {
    /// A read from the image failed.
    Io,
    /// The entry is not of the kind the operation needs.
    NotADirectory,
    /// No entry with the given identity exists.
    NotFound,
    /// An on-disc structure could not be parsed.
    Parse,
    /// The operation is not supported on this filesystem.
    Unsupported,
    /// An on-disc structure holds values that cannot be used.
    InvalidData,
}

impl FilesystemError {
    /// The kind of the error.
    pub open spec fn kind_of(&self) -> ErrorKind {
        match *self {
            FilesystemError::Io(_) => ErrorKind::Io,
            FilesystemError::NotADirectory(_) => ErrorKind::NotADirectory,
            FilesystemError::NotFound(_) => ErrorKind::NotFound,
            FilesystemError::Parse(_) => ErrorKind::Parse,
            FilesystemError::Unsupported => ErrorKind::Unsupported,
            FilesystemError::InvalidData(_) => ErrorKind::InvalidData,
        }
    }

    /// The kind of the error.
    pub fn kind(&self) -> (r: ErrorKind)
        ensures
            r == self.kind_of(),
    {
        match self {
            FilesystemError::Io(_) => ErrorKind::Io,
            FilesystemError::NotADirectory(_) => ErrorKind::NotADirectory,
            FilesystemError::NotFound(_) => ErrorKind::NotFound,
            FilesystemError::Parse(_) => ErrorKind::Parse,
            FilesystemError::Unsupported => ErrorKind::Unsupported,
            FilesystemError::InvalidData(_) => ErrorKind::InvalidData,
        }
    }

    /// The text of the message: what went wrong, then the detail.
    pub open spec fn message_text(self) -> Seq<char> {
        match self {
            FilesystemError::Io(ReadError::UnexpectedEof) => "IO error: "@
                + "unexpected end of image"@,
            FilesystemError::Io(ReadError::InvalidHunk) => "IO error: "@ + "no such decoded unit"@,
            FilesystemError::Io(ReadError::NotFound) => "IO error: "@ + "file not found"@,
            FilesystemError::NotADirectory(s) => "Not a directory: "@ + s@,
            FilesystemError::NotFound(s) => "Entry not found: "@ + s@,
            FilesystemError::Parse(s) => "Filesystem error: "@ + s@,
            FilesystemError::Unsupported => "Unsupported filesystem"@ + ""@,
            FilesystemError::InvalidData(s) => "Invalid data: "@ + s@,
        }
    }

    /// The message of the error, as it is shown to a user.
    pub fn message(&self) -> (r: String)
        ensures
            r@ == self.message_text(),
    {
        let (head, tail): (&str, &str) = match self {
            FilesystemError::Io(ReadError::UnexpectedEof) => ("IO error: ", "unexpected end of image"),
            FilesystemError::Io(ReadError::InvalidHunk) => ("IO error: ", "no such decoded unit"),
            FilesystemError::Io(ReadError::NotFound) => ("IO error: ", "file not found"),
            FilesystemError::NotADirectory(s) => ("Not a directory: ", s.as_str()),
            FilesystemError::NotFound(s) => ("Entry not found: ", s.as_str()),
            FilesystemError::Parse(s) => ("Filesystem error: ", s.as_str()),
            FilesystemError::Unsupported => ("Unsupported filesystem", ""),
            FilesystemError::InvalidData(s) => ("Invalid data: ", s.as_str()),
        };
        crate::text::concat2(head, tail)
    }
}

/// A filesystem on a disc image: a tree of entries and the bytes of its files.
pub trait Filesystem: Sized {
    /// The filesystem's invariant.
    spec fn wf(&self) -> bool;

    /// The root directory.
    fn root(&mut self) -> (r: Result<FileEntry, FilesystemError>)
        requires
            old(self).wf(),
        ensures
            final(self).wf(),
            r matches Ok(e) ==> e.entry_type == EntryType::Directory && e.path@ == "/"@
                && e.children is None,
    ;

    /// The entries of a directory.
    fn list_directory(&mut self, entry: &FileEntry) -> (r: Result<Vec<FileEntry>, FilesystemError>)
        requires
            old(self).wf(),
        ensures
            final(self).wf(),
            entry.entry_type != EntryType::Directory ==> r is Err,
    ;

    /// The whole content of a file.
    fn read_file(&mut self, entry: &FileEntry) -> (r: Result<Vec<u8>, FilesystemError>)
        requires
            old(self).wf(),
        ensures
            final(self).wf(),
    ;

    /// Part of the content of a file.
    fn read_file_range(&mut self, entry: &FileEntry, offset: u64, length: usize) -> (r: Result<
        Vec<u8>,
        FilesystemError,
    >)
        requires
            old(self).wf(),
        ensures
            final(self).wf(),
            r matches Ok(v) ==> v@.len() <= length,
    ;

    /// The volume label, if the volume has one.
    fn volume_name(&self) -> (r: Option<&str>)
        ensures
            r matches Some(s) ==> s@.len() > 0,
    ;
}

} // verus!
