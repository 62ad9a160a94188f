//! Files in the origin private file system: the options they open with,
//! and the state machine that buffers their reads and writes.
//!
//! Writes reach a file only once the stream carrying them closes, because
//! the web API commits a write then. Bytes written are held back here until
//! they have to go out, and pushed to an open stream in runs; reads look
//! ahead so that a run of small reads costs one round trip. Every call into
//! JavaScript that this needs is one [`Job`] at a time: the state machine
//! asks for it, and is told how it went with a [`Progress`].

use vstd::prelude::*;
use crate::fs::error::{ErrorKind, IoError};

verus! {

/// How many bytes a file holds in memory before pushing them to the stream.
pub const WRITE_BUFFER_LIMIT: usize = 1_048_576usize;

/// How much a file reads at once, however little was asked for.
///
/// Every read is a round trip through JavaScript, so a run of small reads
/// would otherwise pay for one each.
pub const READ_AHEAD: usize = 262_144usize;

/// How a file should be opened, mirroring `tokio::fs::OpenOptions`.
#[derive(Clone, Copy, Debug)]
pub struct OpenOptions {
    read: bool,
    write: bool,
    append: bool,
    truncate: bool,
    create: bool,
    create_new: bool,
}

/// The options as plain values.
pub ghost struct OpenFlags {
    pub read: bool,
    pub write: bool,
    pub append: bool,
    pub truncate: bool,
    pub create: bool,
    pub create_new: bool,
}

impl View for OpenOptions {
    type V = OpenFlags;

    closed spec fn view(&self) -> OpenFlags {
        OpenFlags {
            read: self.read,
            write: self.write,
            append: self.append,
            truncate: self.truncate,
            create: self.create,
            create_new: self.create_new,
        }
    }
}

impl Default for OpenOptions {
    fn default() -> (options: OpenOptions)
        ensures
            options@ == (OpenFlags {
                read: false,
                write: false,
                append: false,
                truncate: false,
                create: false,
                create_new: false,
            }),
    {
        OpenOptions {
            read: false,
            write: false,
            append: false,
            truncate: false,
            create: false,
            create_new: false,
        }
    }
}

/// Why a set of options cannot open a file.
#[derive(Clone, Copy, Debug, PartialEq, Eq, Structural)]
pub enum OptionsFailure {
    /// Neither reading, writing nor appending was asked for.
    NoAccess,
    /// Creating or emptying was asked for without writing.
    CreateWithoutWrite,
    /// Emptying and appending were both asked for.
    TruncateAndAppend,
}

/// What opening a file with these options does first:
/// check that nothing is there, look the file up (creating it if need be),
/// empty it, and move to its end.
#[derive(Clone, Copy, Debug, PartialEq, Eq, Structural)]
pub struct OpenPlan {
    /// Fail with `AlreadyExists` if the file is already there.
    pub must_be_absent: bool,
    /// Create the file when it is missing.
    pub create: bool,
    /// Empty the file once it is found.
    pub empty: bool,
    /// Start at the end of the file rather than at its start.
    pub start_at_end: bool,
}

/// The first thing wrong with a set of options, if anything is.
pub open spec fn spec_options_failure(o: OpenFlags) -> Option<OptionsFailure> {
    if !o.read && !o.write && !o.append {
        Some(OptionsFailure::NoAccess)
    } else if (o.truncate || o.create || o.create_new) && !o.write && !o.append {
        Some(OptionsFailure::CreateWithoutWrite)
    } else if o.truncate && o.append {
        Some(OptionsFailure::TruncateAndAppend)
    } else {
        None
    }
}

/// The message of the error for each way the options can be wrong.
pub open spec fn spec_options_message(failure: OptionsFailure) -> Seq<char> {
    match failure {
        OptionsFailure::NoAccess => "a file has to be opened for reading, writing, or appending"@,
        OptionsFailure::CreateWithoutWrite => "creating or emptying a file needs it opened for writing"@,
        OptionsFailure::TruncateAndAppend => "a file cannot be emptied and appended to at once"@,
    }
}

impl OpenOptions {
    /// Starts from a set of options that opens nothing.
    pub fn new() -> (options: OpenOptions)
        ensures
            options@ == (OpenFlags {
                read: false,
                write: false,
                append: false,
                truncate: false,
                create: false,
                create_new: false,
            }),
    {
        OpenOptions::default()
    }

    /// Allows reading.
    pub fn read(&mut self, value: bool) -> (options: &mut OpenOptions)
        ensures
            options@ == (OpenFlags { read: value, ..old(self)@ }),
            final(self)@ == final(options)@,
    {
        self.read = value;
        self
    }

    /// Allows writing.
    pub fn write(&mut self, value: bool) -> (options: &mut OpenOptions)
        ensures
            options@ == (OpenFlags { write: value, ..old(self)@ }),
            final(self)@ == final(options)@,
    {
        self.write = value;
        self
    }

    /// Sends every write to the end of the file rather than to the cursor.
    ///
    /// The end is looked up again whenever a run of writes starts, so an
    /// append that another handle flushed in the meantime is written past
    /// rather than over.
    pub fn append(&mut self, value: bool) -> (options: &mut OpenOptions)
        ensures
            options@ == (OpenFlags { append: value, ..old(self)@ }),
            final(self)@ == final(options)@,
    {
        self.append = value;
        self
    }

    /// Empties the file when it is opened.
    pub fn truncate(&mut self, value: bool) -> (options: &mut OpenOptions)
        ensures
            options@ == (OpenFlags { truncate: value, ..old(self)@ }),
            final(self)@ == final(options)@,
    {
        self.truncate = value;
        self
    }

    /// Creates the file if it is missing.
    /// The directories leading to it still have to be there.
    pub fn create(&mut self, value: bool) -> (options: &mut OpenOptions)
        ensures
            options@ == (OpenFlags { create: value, ..old(self)@ }),
            final(self)@ == final(options)@,
    {
        self.create = value;
        self
    }

    /// Creates the file, and fails if it is already there.
    ///
    /// The web API cannot look and create in one step, so this checks first
    /// and creates after.
    pub fn create_new(&mut self, value: bool) -> (options: &mut OpenOptions)
        ensures
            options@ == (OpenFlags { create_new: value, ..old(self)@ }),
            final(self)@ == final(options)@,
    {
        self.create_new = value;
        self
    }

    /// Checks the options and says what opening a file with them does.
    ///
    /// A file has to be opened for reading, writing or appending; creating
    /// or emptying it needs writing or appending; and it cannot be emptied
    /// and appended to at once.
    pub fn plan(&self) -> (plan: Result<OpenPlan, IoError>)
        ensures
            match spec_options_failure(self@) {
                Some(failure) => plan matches Err(e) && e.spec_kind() == ErrorKind::InvalidInput
                    && e.spec_message() == spec_options_message(failure),
                None => plan == Ok::<OpenPlan, IoError>(
                    OpenPlan {
                        must_be_absent: self@.create_new,
                        create: self@.create || self@.create_new,
                        empty: self@.truncate,
                        start_at_end: self@.append,
                    },
                ),
            },
    {
        if !self.read && !self.write && !self.append {
            return Err(
                IoError::new(
                    ErrorKind::InvalidInput,
                    "a file has to be opened for reading, writing, or appending",
                ),
            );
        }
        if (self.truncate || self.create || self.create_new) && !self.write && !self.append {
            return Err(
                IoError::new(
                    ErrorKind::InvalidInput,
                    "creating or emptying a file needs it opened for writing",
                ),
            );
        }
        if self.truncate && self.append {
            return Err(
                IoError::new(
                    ErrorKind::InvalidInput,
                    "a file cannot be emptied and appended to at once",
                ),
            );
        }
        Ok(
            OpenPlan {
                must_be_absent: self.create_new,
                create: self.create || self.create_new,
                empty: self.truncate,
                start_at_end: self.append,
            },
        )
    }

    /// Whether the file opens for reading.
    pub fn reads(&self) -> (b: bool)
        ensures
            b == self@.read,
    {
        self.read
    }

    /// Whether the file opens for writing, at the cursor or at the end.
    pub fn writes(&self) -> (b: bool)
        ensures
            b == (self@.write || self@.append),
    {
        self.write || self.append
    }

    /// Whether every write goes to the end of the file.
    pub fn appends(&self) -> (b: bool)
        ensures
            b == self@.append,
    {
        self.append
    }
}

/// The range of bytes, from its start up to its end, that a read of at
/// most `length` bytes from `start` covers in a file of `size` bytes: up to
/// the end of the file at most, and nothing when `start` lies at or past it.
pub fn read_window(size: u64, start: u64, length: usize) -> (window: Option<(u64, u64)>)
    ensures
        start >= size ==> window is None,
        start < size ==> window == Some(
            (start, if start + length <= size { (start + length) as u64 } else { size }),
        ),
{
    if start >= size {
        return None;
    }
    let room = size - start;
    let end = if (length as u64) <= room {
        start + length as u64
    } else {
        size
    };
    Some((start, end))
}

/// Where a seek goes, mirroring `std::io::SeekFrom`.
#[derive(Clone, Copy, Debug, PartialEq, Eq, Structural)]
pub enum SeekFrom {
    /// That many bytes from the start of the file.
    Start(u64),
    /// That many bytes from the end of the file.
    End(i64),
    /// That many bytes from where the cursor is.
    Current(i64),
}

/// The message of the error for a seek that lands outside of the file.
pub open spec fn spec_outside_message() -> Seq<char> {
    "seek lands outside of the file"@
}

/// Moves a position, refusing to land before the start of the file or
/// past what a position can hold.
pub fn shifted(base: u64, offset: i64) -> (landed: Result<u64, IoError>)
    ensures
        0 <= base + offset <= u64::MAX ==> landed == Ok::<u64, IoError>((base + offset) as u64),
        !(0 <= base + offset <= u64::MAX) ==> (landed matches Err(e) && e.spec_kind()
            == ErrorKind::InvalidInput && e.spec_message() == spec_outside_message()),
{
    let landed = if offset >= 0 {
        base.checked_add(offset as u64)
    } else {
        let magnitude: u64 = if offset == i64::MIN {
            9_223_372_036_854_775_808u64
        } else {
            (-offset) as u64
        };
        base.checked_sub(magnitude)
    };
    match landed {
        Some(position) => Ok(position),
        None => Err(IoError::new(ErrorKind::InvalidInput, "seek lands outside of the file")),
    }
}

/// Emptying a file conflicts with appending to it and with nothing else:
/// options are refused for asking both exactly when they ask to empty and
/// to append, and options that open for writing without appending are
/// never refused at all, whatever they ask about creating or emptying.
pub proof fn lemma_only_appending_conflicts_with_emptying(o: OpenFlags)
    ensures
        spec_options_failure(o) == Some(OptionsFailure::TruncateAndAppend) <==> o.truncate
            && o.append,
        o.write && !o.append ==> spec_options_failure(o) is None,
        o.write ==> (spec_options_failure(o) is None <==> !(o.truncate && o.append)),
{
}

/// Refusals are about access alone: a set of options that asks for no
/// access is refused for that, and one that asks to create or empty with
/// reading only is refused for that; nothing else refuses options.
pub proof fn lemma_access_decides_the_other_refusals(o: OpenFlags)
    ensures
        spec_options_failure(o) == Some(OptionsFailure::NoAccess) <==> !o.read && !o.write
            && !o.append,
        spec_options_failure(o) == Some(OptionsFailure::CreateWithoutWrite) <==> o.read && !o.write
            && !o.append && (o.truncate || o.create || o.create_new),
{
}

} // verus!
