//! What the entries of a directory say about themselves.

use vstd::prelude::*;
use crate::fs::error::{ErrorKind, IoError};
use crate::time::duration::{Duration, NANOS_PER_MILLI};

verus! {

/// What an entry in the origin private file system is.
///
/// There are no symbolic links to be had, so `is_symlink` is always false.
#[derive(Clone, Copy, Debug, PartialEq, Eq, Structural)]
pub struct FileType {
    is_directory: bool,
}

impl FileType {
    /// Whether the entry is a directory.
    pub closed spec fn spec_is_directory(&self) -> bool {
        self.is_directory
    }

    /// The kind of a directory, or of a file.
    pub fn of(is_directory: bool) -> (t: FileType)
        ensures
            t.spec_is_directory() == is_directory,
    {
        FileType { is_directory }
    }

    /// Returns true when the entry is a file.
    pub fn is_file(&self) -> (b: bool)
        ensures
            b == !self.spec_is_directory(),
    {
        !self.is_directory
    }

    /// Returns true when the entry is a directory.
    pub fn is_dir(&self) -> (b: bool)
        ensures
            b == self.spec_is_directory(),
    {
        self.is_directory
    }

    /// Always returns false,
    /// because the origin private file system has no symbolic links.
    pub fn is_symlink(&self) -> (b: bool)
        ensures
            !b,
    {
        false
    }
}

/// What is known about an entry in the origin private file system:
/// its kind, its size, and for a file when it was last written to,
/// counted from the Unix epoch.
#[derive(Clone, Copy, Debug)]
pub struct Metadata {
    file_type: FileType,
    length: u64,
    modified: Option<Duration>,
}

/// The message of the error that asking a directory for its timestamp gives.
pub open spec fn spec_no_timestamp_message() -> Seq<char> {
    "the origin private file system keeps no timestamp for a directory"@
}

impl Metadata {
    /// The kind of the entry.
    pub closed spec fn spec_file_type(&self) -> FileType {
        self.file_type
    }

    /// The size of the entry in bytes.
    pub closed spec fn spec_len(&self) -> u64 {
        self.length
    }

    /// When the entry was last written to, if it keeps that.
    pub closed spec fn spec_modified(&self) -> Option<Duration> {
        self.modified
    }

    /// A timestamp is missing exactly for a directory, and a directory
    /// reports no size.
    #[verifier::type_invariant]
    spec fn fits_its_kind(&self) -> bool {
        &&& (self.modified is None <==> self.file_type.is_directory)
        &&& self.file_type.is_directory ==> self.length == 0
    }

    /// Returns what the entry is.
    pub fn file_type(&self) -> (t: FileType)
        ensures
            t == self.spec_file_type(),
    {
        self.file_type
    }

    /// Returns true when the entry is a file.
    pub fn is_file(&self) -> (b: bool)
        ensures
            b == !self.spec_file_type().spec_is_directory(),
    {
        self.file_type.is_file()
    }

    /// Returns true when the entry is a directory.
    pub fn is_dir(&self) -> (b: bool)
        ensures
            b == self.spec_file_type().spec_is_directory(),
    {
        self.file_type.is_dir()
    }

    /// Always returns false,
    /// because the origin private file system has no symbolic links.
    pub fn is_symlink(&self) -> (b: bool)
        ensures
            !b,
    {
        false
    }

    /// Returns the size of the file in bytes, or zero for a directory.
    pub fn len(&self) -> (n: u64)
        ensures
            n == self.spec_len(),
            self.spec_file_type().spec_is_directory() ==> n == 0,
    {
        proof {
            use_type_invariant(self);
        }
        self.length
    }

    /// Returns true when the file holds nothing.
    pub fn is_empty(&self) -> (b: bool)
        ensures
            b == (self.spec_len() == 0),
    {
        self.length == 0
    }

    /// Returns when the file was last written to, counted from the Unix epoch.
    ///
    /// Directories carry no timestamp of their own,
    /// so asking one is an error rather than a made up time.
    pub fn modified(&self) -> (when: Result<Duration, IoError>)
        ensures
            match self.spec_modified() {
                Some(d) => when == Ok::<Duration, IoError>(d),
                None => when matches Err(e) && e.spec_kind() == ErrorKind::Unsupported
                    && e.spec_message() == spec_no_timestamp_message(),
            },
            (when is Err) <==> self.spec_file_type().spec_is_directory(),
    {
        proof {
            use_type_invariant(self);
        }
        match self.modified {
            Some(d) => Ok(d),
            None => Err(
                IoError::new(
                    ErrorKind::Unsupported,
                    "the origin private file system keeps no timestamp for a directory",
                ),
            ),
        }
    }
}

/// Describes a file from its size and its `lastModified`, which counts
/// milliseconds from the same epoch as the standard library's system time.
pub fn file_metadata(length: u64, last_modified_millis: u64) -> (about: Metadata)
    ensures
        !about.spec_file_type().spec_is_directory(),
        about.spec_len() == length,
        about.spec_modified() matches Some(d) && d@ == last_modified_millis * NANOS_PER_MILLI,
{
    Metadata {
        file_type: FileType { is_directory: false },
        length,
        modified: Some(Duration::from_millis(last_modified_millis)),
    }
}

/// Describes a directory, which has nothing to report but its kind.
pub fn directory_metadata() -> (about: Metadata)
    ensures
        about.spec_file_type().spec_is_directory(),
        about.spec_len() == 0,
        about.spec_modified() is None,
{
    Metadata { file_type: FileType { is_directory: true }, length: 0, modified: None }
}

} // verus!
