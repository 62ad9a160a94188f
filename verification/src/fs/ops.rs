//! What the file system calls decide from the answers of the lookups they
//! make.

use vstd::prelude::*;
use crate::fs::error::{ErrorKind, IoError};

verus! {

/// The answer of `try_exists` to the lookup of what lives at its path:
/// something being there is `true`, nothing being there is `false`, and
/// any other failure is passed on.
pub fn existence(lookup: Result<(), IoError>) -> (exists: Result<bool, IoError>)
    ensures
        match lookup {
            Ok(()) => exists == Ok::<bool, IoError>(true),
            Err(failure) => if failure.spec_kind() == ErrorKind::NotFound {
                exists == Ok::<bool, IoError>(false)
            } else {
                exists matches Err(passed) && passed@ == failure@
            },
        },
{
    match lookup {
        Ok(()) => Ok(true),
        Err(failure) => {
            if failure.kind() == ErrorKind::NotFound {
                Ok(false)
            } else {
                Err(failure)
            }
        },
    }
}

/// The message of the error that creating a directory under a taken name
/// gives.
pub open spec fn spec_taken_message() -> Seq<char> {
    "the name is already taken"@
}

/// Whether `answer` is the error that creating a directory under a taken
/// name gives.
pub open spec fn spec_is_taken_error(answer: Result<(), IoError>) -> bool {
    answer matches Err(e) && e.spec_kind() == ErrorKind::AlreadyExists && e.spec_message()
        == spec_taken_message()
}

/// Decides whether `create_dir` may create its directory, from the lookup
/// of a directory under the same name. The web API hands back a directory
/// that is already there rather than refusing, so the lookup comes first.
/// A directory there, or a file sitting on the name, means the name is
/// taken; nothing there means it is free; any other failure is passed on.
pub fn name_is_free(lookup: Result<(), IoError>) -> (free: Result<(), IoError>)
    ensures
        match lookup {
            Ok(()) => spec_is_taken_error(free),
            Err(failure) => if failure.spec_kind() == ErrorKind::NotADirectory {
                spec_is_taken_error(free)
            } else if failure.spec_kind() == ErrorKind::NotFound {
                free is Ok
            } else {
                free matches Err(passed) && passed@ == failure@
            },
        },
{
    let taken = match lookup {
        Ok(()) => true,
        Err(failure) => {
            let kind = failure.kind();
            if kind == ErrorKind::NotADirectory {
                true
            } else if kind == ErrorKind::NotFound {
                false
            } else {
                return Err(failure);
            }
        },
    };
    if taken {
        return Err(IoError::new(ErrorKind::AlreadyExists, "the name is already taken"));
    }
    Ok(())
}

/// What a lookup that does not know the kind of its entry does after
/// asking for a file.
pub enum EntryStep {
    /// The entry is a file.
    IsFile,
    /// Nothing is there, which rules out a directory as well.
    Missing(IoError),
    /// The entry is not a file that could be had; ask for a directory.
    TryDirectory,
}

/// Decides what a lookup of an entry of either kind does after asking for
/// a file under the name. Only a missing entry rules out the other kind,
/// so nothing else is read out of which exception came back: browsers
/// agree on what a successful lookup means far more than on what they name
/// a failure.
pub fn after_file_lookup(lookup: Result<(), IoError>) -> (step: EntryStep)
    ensures
        match lookup {
            Ok(()) => step is IsFile,
            Err(failure) => if failure.spec_kind() == ErrorKind::NotFound {
                step matches EntryStep::Missing(passed) && passed@ == failure@
            } else {
                step is TryDirectory
            },
        },
{
    match lookup {
        Ok(()) => EntryStep::IsFile,
        Err(failure) => {
            if failure.kind() == ErrorKind::NotFound {
                EntryStep::Missing(failure)
            } else {
                EntryStep::TryDirectory
            }
        },
    }
}

/// The error that reaching the file system gives where the browser hands
/// out no storage manager.
pub fn storage_missing() -> (e: IoError)
    ensures
        e.spec_kind() == ErrorKind::Unsupported,
        e.spec_message() == "`navigator.storage` is missing, so there is no file system to reach; it is only handed out in a secure context"@,
{
    IoError::new(
        ErrorKind::Unsupported,
        "`navigator.storage` is missing, so there is no file system to reach; it is only handed out in a secure context",
    )
}

/// The error that opening a file that must be new gives when the file is
/// already there.
pub fn file_already_there() -> (e: IoError)
    ensures
        e.spec_kind() == ErrorKind::AlreadyExists,
        e.spec_message() == "the file is already there"@,
{
    IoError::new(ErrorKind::AlreadyExists, "the file is already there")
}

/// The error that reading a file into a string gives when the file is not
/// UTF-8.
pub fn not_utf8() -> (e: IoError)
    ensures
        e.spec_kind() == ErrorKind::InvalidData,
        e.spec_message() == "file is not UTF-8"@,
{
    IoError::new(ErrorKind::InvalidData, "file is not UTF-8")
}

} // verus!
