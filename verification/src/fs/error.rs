//! Errors of the file system, and how JavaScript exceptions turn
//! into them.

use vstd::prelude::*;

verus! {

/// What was being asked for when a call failed.
///
/// The file system API reports "you asked for the wrong kind" with one
/// exception name for both directions, while the standard library has a
/// separate error for each, so the caller has to say which it wanted.
#[derive(Clone, Copy, Debug, PartialEq, Eq, Structural)]
pub enum Wanted {
    File,
    Directory,
    /// Neither, for calls that do not name a kind.
    Either,
}

/// The kinds of failure that the file system reports,
/// matching those of `std::io::ErrorKind` that it needs.
#[derive(Clone, Copy, Debug, PartialEq, Eq, Structural)]
pub enum ErrorKind {
    NotFound,
    PermissionDenied,
    AlreadyExists,
    IsADirectory,
    NotADirectory,
    DirectoryNotEmpty,
    InvalidInput,
    InvalidData,
    ResourceBusy,
    QuotaExceeded,
    Unsupported,
    TimedOut,
    Other,
}

/// A failed file system operation: its kind and a message for people.
#[derive(Debug)]
pub struct IoError {
    kind: ErrorKind,
    message: String,
}

/// A failure as plain values.
pub ghost struct ErrorView {
    pub kind: ErrorKind,
    pub message: Seq<char>,
}

impl View for IoError {
    type V = ErrorView;

    open spec fn view(&self) -> ErrorView {
        ErrorView { kind: self.spec_kind(), message: self.spec_message() }
    }
}

impl IoError {
    /// The kind of the failure.
    pub closed spec fn spec_kind(&self) -> ErrorKind {
        self.kind
    }

    /// The message of the failure.
    pub closed spec fn spec_message(&self) -> Seq<char> {
        self.message@
    }

    /// Creates an error of `kind` that says `message`.
    pub fn new(kind: ErrorKind, message: &str) -> (e: IoError)
        ensures
            e.spec_kind() == kind,
            e.spec_message() == message@,
    {
        IoError { kind, message: message.to_owned() }
    }

    /// Creates an error of `kind` that says `message`.
    pub fn from_string(kind: ErrorKind, message: String) -> (e: IoError)
        ensures
            e.spec_kind() == kind,
            e.spec_message() == message@,
    {
        IoError { kind, message }
    }

    /// Returns the kind of the failure.
    pub fn kind(&self) -> (kind: ErrorKind)
        ensures
            kind == self.spec_kind(),
    {
        self.kind
    }

    /// Returns the message of the failure.
    pub fn message(&self) -> (message: &str)
        ensures
            message@ == self.spec_message(),
    {
        self.message.as_str()
    }
}

/// Compares two strings character by character.
pub fn same_text(a: &str, b: &str) -> (same: bool)
    ensures
        same == (a@ == b@),
{
    a.to_owned() == b.to_owned()
}

/// The kind of failure that a `DOMException` called `name` stands for,
/// when the call that threw it asked for `wanted`.
pub open spec fn spec_error_kind(name: Seq<char>, wanted: Wanted) -> ErrorKind {
    if name == "NotFoundError"@ {
        ErrorKind::NotFound
    } else if name == "NotAllowedError"@ || name == "SecurityError"@ {
        ErrorKind::PermissionDenied
    } else if name == "TypeMismatchError"@ {
        match wanted {
            Wanted::File => ErrorKind::IsADirectory,
            Wanted::Directory => ErrorKind::NotADirectory,
            Wanted::Either => ErrorKind::InvalidInput,
        }
    } else if name == "InvalidModificationError"@ {
        ErrorKind::DirectoryNotEmpty
    } else if name == "NoModificationAllowedError"@ {
        ErrorKind::ResourceBusy
    } else if name == "QuotaExceededError"@ {
        ErrorKind::QuotaExceeded
    } else {
        ErrorKind::Other
    }
}

/// Returns the kind of failure that a `DOMException` called `name` stands
/// for, when the call that threw it asked for `wanted`.
///
/// The entry being the other kind maps to the error that matches what was
/// asked for; removing a directory that still holds something, another
/// handle holding the file open and a full quota each have their own kind.
pub fn error_kind_for(name: &str, wanted: Wanted) -> (kind: ErrorKind)
    ensures
        kind == spec_error_kind(name@, wanted),
{
    if same_text(name, "NotFoundError") {
        ErrorKind::NotFound
    } else if same_text(name, "NotAllowedError") || same_text(name, "SecurityError") {
        ErrorKind::PermissionDenied
    } else if same_text(name, "TypeMismatchError") {
        match wanted {
            Wanted::File => ErrorKind::IsADirectory,
            Wanted::Directory => ErrorKind::NotADirectory,
            Wanted::Either => ErrorKind::InvalidInput,
        }
    } else if same_text(name, "InvalidModificationError") {
        ErrorKind::DirectoryNotEmpty
    } else if same_text(name, "NoModificationAllowedError") {
        ErrorKind::ResourceBusy
    } else if same_text(name, "QuotaExceededError") {
        ErrorKind::QuotaExceeded
    } else {
        ErrorKind::Other
    }
}

/// What a failed call is reported as depends on the kind of entry it
/// asked for only when the entry turned out to be the other kind: any other
/// exception means the same whatever was wanted. So a missing entry is
/// `NotFound` whether a file, a directory or either was wanted.
pub proof fn lemma_only_a_type_mismatch_depends_on_what_was_wanted(
    name: Seq<char>,
    first: Wanted,
    second: Wanted,
)
    requires
        name != "TypeMismatchError"@,
    ensures
        spec_error_kind(name, first) == spec_error_kind(name, second),
        spec_error_kind("NotFoundError"@, first) == ErrorKind::NotFound,
{
}

/// An entry is reported missing exactly when the exception says it is
/// missing, whatever kind of entry was wanted.
pub proof fn lemma_not_found_exactly_for_a_missing_entry(name: Seq<char>, wanted: Wanted)
    ensures
        spec_error_kind(name, wanted) == ErrorKind::NotFound <==> name == "NotFoundError"@,
{
}

/// An entry of the other kind is reported as what it is: a directory where
/// a file was wanted, a file where a directory was wanted, and bad input
/// where either would have done.
pub proof fn lemma_the_other_kind_is_named_for_what_it_is(wanted: Wanted)
    ensures
        wanted == Wanted::File ==> spec_error_kind("TypeMismatchError"@, wanted)
            == ErrorKind::IsADirectory,
        wanted == Wanted::Directory ==> spec_error_kind("TypeMismatchError"@, wanted)
            == ErrorKind::NotADirectory,
        wanted == Wanted::Either ==> spec_error_kind("TypeMismatchError"@, wanted)
            == ErrorKind::InvalidInput,
{
    reveal_strlit("TypeMismatchError");
    reveal_strlit("NotFoundError");
    reveal_strlit("NotAllowedError");
    reveal_strlit("SecurityError");
    assert("TypeMismatchError"@.len() != "NotFoundError"@.len());
    assert("TypeMismatchError"@.len() != "NotAllowedError"@.len());
    assert("TypeMismatchError"@.len() != "SecurityError"@.len());
}

/// The message of the error that a `DOMException` called `name`, carrying
/// `message`, turns into: the message alone when the exception has no name,
/// and prefixed with the name otherwise.
pub open spec fn spec_error_message(name: Seq<char>, message: Seq<char>) -> Seq<char> {
    if name.len() == 0 {
        message
    } else {
        name + ": "@ + message
    }
}

/// Turns a rejected promise into the error that the matching `tokio` call
/// would have returned.
///
/// `name` is the `name` of the `DOMException` the promise rejected with,
/// empty when it has none, and `message` is its `message`, or a rendering
/// of the whole rejection when it has none.
pub fn to_io_error(name: &str, message: &str, wanted: Wanted) -> (e: IoError)
    ensures
        e.spec_kind() == spec_error_kind(name@, wanted),
        e.spec_message() == spec_error_message(name@, message@),
{
    let kind = error_kind_for(name, wanted);
    if name.unicode_len() == 0 {
        IoError::new(kind, message)
    } else {
        let mut text = name.to_owned();
        text.append(": ");
        text.append(message);
        IoError::from_string(kind, text)
    }
}

} // verus!
