//! The buffering state machine of an open file.

use vstd::prelude::*;
use crate::fs::error::{ErrorKind, ErrorView, IoError};
use crate::fs::file::{
    OpenOptions, READ_AHEAD, SeekFrom, WRITE_BUFFER_LIMIT, shifted, spec_outside_message,
};

verus! {

/// The one call into JavaScript that a file can have in flight.
#[derive(Clone, Copy, Debug, PartialEq, Eq, Structural)]
pub enum Work {
    /// Reading a range of the file.
    Reading,
    /// Opening the stream that carries writes.
    Opening,
    /// Writing held back bytes into the open stream; the stream's cursor
    /// ends up at the given offset.
    Pushing(u64),
    /// Closing the stream, which commits what it carries.
    Closing,
    /// Measuring how long the file is.
    Sizing,
}

/// A seek that has been asked for but not reported back yet.
#[derive(Clone, Copy, Debug, PartialEq, Eq, Structural)]
pub enum Seek {
    /// The new position is already known.
    Settled(u64),
    /// The new position is that many bytes from the end of the file.
    FromEnd(i64),
}

/// A call into JavaScript that the state machine asks for.
#[derive(Debug)]
pub enum Job {
    /// Read at most `length` bytes from `start` onwards.
    Read { start: u64, length: usize },
    /// Open the stream that carries writes, keeping what the file holds.
    Open,
    /// Write `bytes` into the open stream, moving its cursor to `seek_to`
    /// first when that is given.
    Push { seek_to: Option<u64>, bytes: Vec<u8> },
    /// Close the stream.
    Close,
    /// Measure how long the file is.
    Size,
}

/// How the call in flight is doing, as seen by one poll of it.
#[derive(Debug)]
pub enum Progress {
    /// Nothing is in flight.
    Idle,
    /// The call in flight has not finished yet.
    Pending,
    /// The read finished, with the bytes it found.
    Read(Result<Vec<u8>, IoError>),
    /// The stream was opened.
    Opened(Result<(), IoError>),
    /// The bytes were written into the stream.
    Pushed(Result<(), IoError>),
    /// The stream was closed.
    Closed(Result<(), IoError>),
    /// The file was measured.
    Sized(Result<u64, IoError>),
}

/// What a poll does next.
#[derive(Debug)]
pub enum Step<T> {
    /// Wait: the call in flight has not finished.
    Pending,
    /// The poll is done, with this outcome.
    Ready(Result<T, IoError>),
    /// Start this call, then keep polling.
    Start(Job),
    /// Keep polling.
    Again,
}

/// A result with its value and error taken as plain values.
pub open spec fn result_view<T: View>(r: Result<T, IoError>) -> Result<T::V, ErrorView> {
    match r {
        Ok(value) => Ok(value@),
        Err(e) => Err(e@),
    }
}

/// [`Progress`] as plain values.
pub ghost enum ProgressView {
    Idle,
    Pending,
    Read(Result<Seq<u8>, ErrorView>),
    Opened(Result<(), ErrorView>),
    Pushed(Result<(), ErrorView>),
    Closed(Result<(), ErrorView>),
    Sized(Result<u64, ErrorView>),
}

impl View for Progress {
    type V = ProgressView;

    open spec fn view(&self) -> ProgressView {
        match self {
            Progress::Idle => ProgressView::Idle,
            Progress::Pending => ProgressView::Pending,
            Progress::Read(r) => ProgressView::Read(result_view(*r)),
            Progress::Opened(r) => ProgressView::Opened(result_view(*r)),
            Progress::Pushed(r) => ProgressView::Pushed(result_view(*r)),
            Progress::Closed(r) => ProgressView::Closed(result_view(*r)),
            Progress::Sized(r) => ProgressView::Sized(result_view(*r)),
        }
    }
}

/// [`Job`] as plain values.
pub ghost enum JobView {
    Read { start: u64, length: usize },
    Open,
    Push { seek_to: Option<u64>, bytes: Seq<u8> },
    Close,
    Size,
}

impl View for Job {
    type V = JobView;

    open spec fn view(&self) -> JobView {
        match self {
            Job::Read { start, length } => JobView::Read { start: *start, length: *length },
            Job::Open => JobView::Open,
            Job::Push { seek_to, bytes } => JobView::Push { seek_to: *seek_to, bytes: bytes@ },
            Job::Close => JobView::Close,
            Job::Size => JobView::Size,
        }
    }
}

/// [`Step`] as plain values.
pub ghost enum Next<T> {
    Wait,
    Finish(Result<T, ErrorView>),
    Begin(JobView),
    Continue,
}

impl<T: View> View for Step<T> {
    type V = Next<T::V>;

    open spec fn view(&self) -> Next<T::V> {
        match self {
            Step::Pending => Next::Wait,
            Step::Ready(r) => Next::Finish(result_view(*r)),
            Step::Start(job) => Next::Begin(job@),
            Step::Again => Next::Continue,
        }
    }
}

/// What an enclosing poll does after an inner one took a step: a finished
/// inner poll lets the enclosing one keep going, a failed one fails it too,
/// and waiting and starting calls carry over.
pub open spec fn spec_continue_after<T>(next: Next<()>) -> Next<T> {
    match next {
        Next::Wait => Next::Wait,
        Next::Finish(Ok(())) => Next::Continue,
        Next::Finish(Err(e)) => Next::Finish(Err(e)),
        Next::Begin(job) => Next::Begin(job),
        Next::Continue => Next::Continue,
    }
}

/// The outcome of a finished call, without its value.
pub open spec fn spec_without_value<T>(r: Result<T, ErrorView>) -> Result<(), ErrorView> {
    match r {
        Ok(_) => Ok(()),
        Err(e) => Err(e),
    }
}

/// Whether a poll of the call in flight can have seen `progress`.
pub open spec fn fits(work: Option<Work>, progress: ProgressView) -> bool {
    match progress {
        ProgressView::Idle => work is None,
        ProgressView::Pending => work is Some,
        ProgressView::Read(_) => work == Some(Work::Reading),
        ProgressView::Opened(_) => work == Some(Work::Opening),
        ProgressView::Pushed(_) => work matches Some(Work::Pushing(_)),
        ProgressView::Closed(_) => work == Some(Work::Closing),
        ProgressView::Sized(_) => work == Some(Work::Sizing),
    }
}

/// The state of an open file, as plain values.
pub ghost struct FileView {
    /// Where the next read or write lands.
    pub position: u64,
    /// Bytes written but not yet pushed to the stream.
    pub buffer: Seq<u8>,
    /// Where the first byte of `buffer` belongs in the file.
    pub buffer_start: u64,
    /// Bytes read ahead of what was asked for.
    pub read_buffer: Seq<u8>,
    /// Where the first byte of `read_buffer` sits in the file.
    pub read_start: u64,
    /// The cursor of the open stream, when one is open and not in use.
    pub writer: Option<u64>,
    /// The call in flight.
    pub work: Option<Work>,
    /// The seek asked for and not yet reported.
    pub seek: Option<Seek>,
    pub readable: bool,
    pub writable: bool,
    /// Whether every write goes to the end rather than to the cursor.
    pub appending: bool,
}

/// Whether the bytes `served` are what `read_buffer` holds for the
/// cursor `position`, `served.len()` of them.
pub open spec fn serves(v: FileView, served: Seq<u8>) -> bool {
    served == v.read_buffer.subrange(
        v.position - v.read_start,
        v.position - v.read_start + served.len(),
    )
}

/// How many bytes read ahead still sit at the cursor, if the cursor lies
/// inside them.
pub open spec fn spec_read_ahead(v: FileView) -> Option<nat> {
    let end = v.read_start + v.read_buffer.len();
    if v.position < v.read_start || v.position >= end {
        None
    } else {
        Some((end - v.position) as nat)
    }
}

/// Whether nothing is held back from the file: no bytes in memory and no
/// stream carrying uncommitted writes.
pub open spec fn nothing_held(v: FileView) -> bool {
    v.buffer.len() == 0 && v.writer is None
}

/// The buffering state of an open file.
#[derive(Debug)]
pub struct FileState {
    position: u64,
    buffer: Vec<u8>,
    buffer_start: u64,
    read_buffer: Vec<u8>,
    read_start: u64,
    writer: Option<u64>,
    work: Option<Work>,
    seek: Option<Seek>,
    readable: bool,
    writable: bool,
    appending: bool,
}

impl View for FileState {
    type V = FileView;

    closed spec fn view(&self) -> FileView {
        FileView {
            position: self.position,
            buffer: self.buffer@,
            buffer_start: self.buffer_start,
            read_buffer: self.read_buffer@,
            read_start: self.read_start,
            writer: self.writer,
            work: self.work,
            seek: self.seek,
            readable: self.readable,
            writable: self.writable,
            appending: self.appending,
        }
    }
}

/// The invariant of a file's state: held back and read-ahead bytes stay
/// within the offsets a file can have, and a stream that is being opened,
/// written to or closed is not also sitting idle.
pub open spec fn file_wf(v: FileView) -> bool {
    &&& v.buffer_start + v.buffer.len() <= u64::MAX
    &&& v.read_start + v.read_buffer.len() <= u64::MAX
    &&& match v.work {
        Some(Work::Opening) | Some(Work::Pushing(_)) | Some(Work::Closing) => v.writer is None,
        _ => true,
    }
}

/// Appends `data` to `buffer`.
fn append_bytes(buffer: &mut Vec<u8>, data: &[u8])
    ensures
        final(buffer)@ == old(buffer)@ + data@,
{
    let ghost before = buffer@;
    let mut i: usize = 0;
    while i < data.len()
        invariant
            i <= data@.len(),
            buffer@ == before + data@.subrange(0, i as int),
        decreases data@.len() - i,
    {
        buffer.push(data[i]);
        assert(buffer@ =~= before + data@.subrange(0, i + 1));
        i = i + 1;
    }
    assert(data@.subrange(0, data@.len() as int) =~= data@);
}

/// Copies `bytes[from..from + count]`.
fn copy_range(bytes: &Vec<u8>, from: usize, count: usize) -> (copied: Vec<u8>)
    requires
        from + count <= bytes@.len(),
    ensures
        copied@ == bytes@.subrange(from as int, from + count),
{
    let mut copied: Vec<u8> = Vec::new();
    let mut i: usize = 0;
    let total = bytes.len();
    while i < count
        invariant
            from + count <= bytes@.len(),
            total == bytes@.len(),
            i <= count,
            copied@ == bytes@.subrange(from as int, from + i),
        decreases count - i,
    {
        copied.push(bytes[from + i]);
        assert(copied@ =~= bytes@.subrange(from as int, from + i + 1));
        i = i + 1;
    }
    copied
}

impl FileState {
    /// The invariant of the state.
    pub open spec fn wf(&self) -> bool {
        file_wf(self@)
    }

    /// A file that was just looked up: readable and writable,
    /// with its cursor at the start and nothing held back.
    pub fn new() -> (state: FileState)
        ensures
            state.wf(),
            state@ == (FileView {
                position: 0,
                buffer: Seq::empty(),
                buffer_start: 0,
                read_buffer: Seq::empty(),
                read_start: 0,
                writer: None,
                work: None,
                seek: None,
                readable: true,
                writable: true,
                appending: false,
            }),
    {
        FileState {
            position: 0,
            buffer: Vec::new(),
            buffer_start: 0,
            read_buffer: Vec::new(),
            read_start: 0,
            writer: None,
            work: None,
            seek: None,
            readable: true,
            writable: true,
            appending: false,
        }
    }

    /// A file opened with `options`, which holds `length` bytes.
    /// An appending file starts at its end; any other at its start.
    pub fn opened(options: &OpenOptions, length: u64) -> (state: FileState)
        ensures
            state.wf(),
            state@ == (FileView {
                position: if options@.append { length } else { 0 },
                buffer: Seq::empty(),
                buffer_start: 0,
                read_buffer: Seq::empty(),
                read_start: 0,
                writer: None,
                work: None,
                seek: None,
                readable: options@.read,
                writable: options@.write || options@.append,
                appending: options@.append,
            }),
    {
        let mut state = FileState::new();
        state.readable = options.reads();
        state.writable = options.writes();
        state.appending = options.appends();
        if options.appends() {
            state.position = length;
        }
        state
    }

    /// Returns where the next read or write lands.
    pub fn position(&self) -> (position: u64)
        ensures
            position == self@.position,
    {
        self.position
    }

    /// Returns whether `p` can be what a poll of the call in flight saw:
    /// the answer of that very call, `Pending` while one is in flight, or
    /// `Idle` when none is. Every step expects such a progress.
    pub fn expects(&self, p: &Progress) -> (expected: bool)
        ensures
            expected == fits(self@.work, p@),
    {
        match p {
            Progress::Idle => self.work.is_none(),
            Progress::Pending => self.work.is_some(),
            Progress::Read(_) => match self.work {
                Some(Work::Reading) => true,
                _ => false,
            },
            Progress::Opened(_) => match self.work {
                Some(Work::Opening) => true,
                _ => false,
            },
            Progress::Pushed(_) => match self.work {
                Some(Work::Pushing(_)) => true,
                _ => false,
            },
            Progress::Closed(_) => match self.work {
                Some(Work::Closing) => true,
                _ => false,
            },
            Progress::Sized(_) => match self.work {
                Some(Work::Sizing) => true,
                _ => false,
            },
        }
    }

    /// Returns whether nothing is held back from the file.
    pub fn is_settled(&self) -> (settled: bool)
        ensures
            settled == (nothing_held(self@) && self@.work is None),
    {
        self.buffer.len() == 0 && self.writer.is_none() && self.work.is_none()
    }

    /// How much of what was read ahead still sits at the cursor.
    pub fn read_ahead(&self) -> (waiting: Option<usize>)
        requires
            self.wf(),
        ensures
            match spec_read_ahead(self@) {
                Some(n) => waiting == Some(n as usize),
                None => waiting is None,
            },
    {
        let end = self.read_start + self.read_buffer.len() as u64;
        if self.position < self.read_start || self.position >= end {
            return None;
        }
        Some((end - self.position) as usize)
    }

    /// Lets go of what was read ahead, because the file has moved on from it.
    pub fn forget_read_ahead(&mut self)
        ensures
            final(self)@ == (FileView { read_buffer: Seq::empty(), read_start: 0, ..old(self)@ }),
    {
        self.read_buffer = Vec::new();
        self.read_start = 0;
    }

    /// Checks that the file may be read, and answers an empty read right away.
    pub fn read_gate(&self, room: usize) -> (answer: Option<Result<Vec<u8>, IoError>>)
        ensures
            !self@.readable ==> (answer matches Some(Err(e)) && e.spec_kind()
                == ErrorKind::PermissionDenied && e.spec_message()
                == "the file was not opened for reading"@),
            self@.readable && room == 0 ==> (answer matches Some(Ok(bytes)) && bytes@.len() == 0),
            self@.readable && room > 0 ==> answer is None,
    {
        if !self.readable {
            return Some(
                Err(IoError::new(ErrorKind::PermissionDenied, "the file was not opened for reading")),
            );
        }
        if room == 0 {
            return Some(Ok(Vec::new()));
        }
        None
    }

    /// Serves a read of at most `room` bytes from what was read ahead,
    /// when the cursor lies inside it, and moves the cursor past them.
    pub fn serve_read_ahead(&mut self, room: usize) -> (served: Option<Vec<u8>>)
        requires
            old(self).wf(),
            room > 0,
        ensures
            final(self).wf(),
            match spec_read_ahead(old(self)@) {
                None => served is None && final(self)@ == old(self)@,
                Some(waiting) => served matches Some(bytes) && {
                    &&& bytes@.len() == if waiting < room { waiting } else { room as nat }
                    &&& serves(old(self)@, bytes@)
                    &&& final(self)@ == (FileView {
                        position: (old(self)@.position + bytes@.len()) as u64,
                        ..old(self)@
                    })
                },
            },
    {
        match self.read_ahead() {
            None => None,
            Some(waiting) => {
                let taken = if waiting < room { waiting } else { room };
                let held = self.read_buffer.len();
                assert(self.position - self.read_start < held);
                let from = (self.position - self.read_start) as usize;
                assert(from + taken <= self.read_buffer@.len());
                let bytes = copy_range(&self.read_buffer, from, taken);
                assert(self.position + taken <= u64::MAX);
                self.position = self.position + taken as u64;
                Some(bytes)
            },
        }
    }

    /// Checks that the file may be written to.
    pub fn write_gate(&self) -> (allowed: Result<(), IoError>)
        ensures
            self@.writable ==> allowed is Ok,
            !self@.writable ==> (allowed matches Err(e) && e.spec_kind()
                == ErrorKind::PermissionDenied && e.spec_message()
                == "the file was not opened for writing"@),
    {
        if !self.writable {
            return Err(IoError::new(ErrorKind::PermissionDenied, "the file was not opened for writing"));
        }
        Ok(())
    }

    /// Whether a write has to find the end of the file first: an appending
    /// file writes to the end as it stands, and only the start of a run has
    /// to look it up, because once bytes are held back the end is wherever
    /// they finish.
    pub fn needs_end(&self) -> (needed: bool)
        ensures
            needed == (self@.appending && nothing_held(self@)),
    {
        self.appending && self.buffer.len() == 0 && self.writer.is_none()
    }

    /// Whether held back bytes have to go out before a write: bytes that do
    /// not carry on from the ones already held back cannot join them, and a
    /// buffer that has grown far enough goes out on its own.
    pub fn needs_push(&self) -> (needed: bool)
        requires
            self.wf(),
        ensures
            needed == !(self@.buffer.len() == 0 || self@.position == self@.buffer_start
                + self@.buffer.len()) || self@.buffer.len() >= WRITE_BUFFER_LIMIT,
    {
        let carries_on = self.buffer.len() == 0 || self.position == self.buffer_start
            + self.buffer.len() as u64;
        !carries_on || self.buffer.len() >= WRITE_BUFFER_LIMIT
    }

    /// Takes `data` into the held back bytes at the cursor and moves the
    /// cursor past it. What was read ahead describes a file that no longer
    /// holds, so it is let go of.
    pub fn accept(&mut self, data: &[u8]) -> (written: usize)
        requires
            old(self).wf(),
            old(self)@.buffer.len() == 0 || old(self)@.position == old(self)@.buffer_start
                + old(self)@.buffer.len(),
            old(self)@.position + data@.len() <= u64::MAX,
        ensures
            final(self).wf(),
            written == data@.len(),
            final(self)@ == (FileView {
                position: (old(self)@.position + data@.len()) as u64,
                buffer: old(self)@.buffer + data@,
                buffer_start: if old(self)@.buffer.len() == 0 {
                    old(self)@.position
                } else {
                    old(self)@.buffer_start
                },
                read_buffer: Seq::empty(),
                read_start: 0,
                ..old(self)@
            }),
    {
        if self.buffer.len() == 0 {
            self.buffer_start = self.position;
        }
        append_bytes(&mut self.buffer, data);
        self.position = self.position + data.len() as u64;
        self.forget_read_ahead();
        data.len()
    }

    /// Starts a seek, which [`FileState::resolve_seek`] and
    /// [`FileState::complete_step`] report back.
    pub fn start_seek(&mut self, position: SeekFrom) -> (started: Result<(), IoError>)
        ensures
            old(self)@.seek is Some ==> (started matches Err(e) && e.spec_kind() == ErrorKind::Other
                && e.spec_message() == "a seek is already under way"@ && final(self)@ == old(self)@),
            old(self)@.seek is None ==> match position {
                SeekFrom::Start(offset) => started is Ok && final(self)@ == (FileView {
                    seek: Some(Seek::Settled(offset)),
                    ..old(self)@
                }),
                SeekFrom::End(offset) => started is Ok && final(self)@ == (FileView {
                    seek: Some(Seek::FromEnd(offset)),
                    ..old(self)@
                }),
                SeekFrom::Current(offset) => if 0 <= old(self)@.position + offset <= u64::MAX {
                    started is Ok && final(self)@ == (FileView {
                        seek: Some(Seek::Settled((old(self)@.position + offset) as u64)),
                        ..old(self)@
                    })
                } else {
                    started matches Err(e) && e.spec_kind() == ErrorKind::InvalidInput
                        && e.spec_message() == spec_outside_message() && final(self)@ == old(self)@
                },
            },
    {
        if self.seek.is_some() {
            return Err(IoError::new(ErrorKind::Other, "a seek is already under way"));
        }
        let seek = match position {
            SeekFrom::Start(offset) => Seek::Settled(offset),
            SeekFrom::Current(offset) => match shifted(self.position, offset) {
                Ok(landed) => Seek::Settled(landed),
                Err(e) => return Err(e),
            },
            SeekFrom::End(offset) => Seek::FromEnd(offset),
        };
        self.seek = Some(seek);
        Ok(())
    }

    /// Reports a seek whose position is already known: with none under way
    /// the cursor stays where it is, and a settled one moves it.
    /// A seek from the end still has to measure the file; see
    /// [`FileState::complete_step`].
    pub fn resolve_seek(&mut self) -> (resolved: Option<u64>)
        ensures
            match old(self)@.seek {
                None => resolved == Some(old(self)@.position) && final(self)@ == old(self)@,
                Some(Seek::Settled(offset)) => resolved == Some(offset) && final(self)@ == (FileView {
                    position: offset,
                    seek: None,
                    ..old(self)@
                }),
                Some(Seek::FromEnd(_)) => resolved is None && final(self)@ == old(self)@,
            },
    {
        match self.seek {
            None => Some(self.position),
            Some(Seek::Settled(offset)) => {
                self.position = offset;
                self.seek = None;
                Some(offset)
            },
            Some(Seek::FromEnd(_)) => None,
        }
    }

    /// One poll of the call in flight, by a poll that did not ask for it;
    /// see [`spec_settle`].
    pub fn settle_step(&mut self, p: Progress) -> (step: Step<()>)
        requires
            old(self).wf(),
            fits(old(self)@.work, p@),
        ensures
            final(self).wf(),
            (final(self)@, step@) == spec_settle(old(self)@, p@),
    {
        match self.work {
            None => Step::Ready(Ok(())),
            Some(w) => match p {
                Progress::Pending => Step::Pending,
                Progress::Read(r) => {
                    self.work = None;
                    match r {
                        Ok(_) => Step::Ready(Ok(())),
                        Err(e) => Step::Ready(Err(e)),
                    }
                },
                Progress::Opened(r) => {
                    self.work = None;
                    match r {
                        Ok(()) => {
                            self.writer = Some(0);
                            Step::Ready(Ok(()))
                        },
                        Err(e) => Step::Ready(Err(e)),
                    }
                },
                Progress::Pushed(r) => {
                    self.work = None;
                    match r {
                        Ok(()) => {
                            if let Work::Pushing(cursor) = w {
                                self.writer = Some(cursor);
                            }
                            Step::Ready(Ok(()))
                        },
                        Err(e) => Step::Ready(Err(e)),
                    }
                },
                Progress::Closed(r) => {
                    self.work = None;
                    Step::Ready(r)
                },
                Progress::Sized(r) => {
                    self.work = None;
                    match r {
                        Ok(_) => Step::Ready(Ok(())),
                        Err(e) => Step::Ready(Err(e)),
                    }
                },
                Progress::Idle => Step::Ready(Ok(())),
            },
        }
    }

    /// One step of getting every held back byte into the open stream;
    /// see [`spec_push`].
    pub fn push_step(&mut self, p: Progress) -> (step: Step<()>)
        requires
            old(self).wf(),
            fits(old(self)@.work, p@),
        ensures
            final(self).wf(),
            (final(self)@, step@) == spec_push(old(self)@, p@),
    {
        if self.work.is_some() {
            let step = self.settle_step(p);
            return continue_after(step);
        }
        if self.buffer.len() == 0 {
            return Step::Ready(Ok(()));
        }
        match self.writer {
            None => {
                self.work = Some(Work::Opening);
                Step::Start(Job::Open)
            },
            Some(cursor) => {
                let mut bytes: Vec<u8> = Vec::new();
                std::mem::swap(&mut bytes, &mut self.buffer);
                let end = self.buffer_start + bytes.len() as u64;
                let seek_to = if cursor != self.buffer_start {
                    Some(self.buffer_start)
                } else {
                    None
                };
                self.writer = None;
                self.work = Some(Work::Pushing(end));
                Step::Start(Job::Push { seek_to, bytes })
            },
        }
    }

    /// One step of moving the cursor to the end of the file;
    /// see [`spec_at_end`].
    pub fn at_end_step(&mut self, p: Progress) -> (step: Step<()>)
        requires
            old(self).wf(),
            fits(old(self)@.work, p@),
        ensures
            final(self).wf(),
            (final(self)@, step@) == spec_at_end(old(self)@, p@),
    {
        match self.work {
            Some(Work::Sizing) => match p {
                Progress::Sized(Ok(size)) => {
                    self.work = None;
                    self.position = size;
                    Step::Ready(Ok(()))
                },
                Progress::Sized(Err(e)) => {
                    self.work = None;
                    Step::Ready(Err(e))
                },
                _ => Step::Pending,
            },
            Some(_) => {
                let step = self.settle_step(p);
                continue_after(step)
            },
            None => {
                self.work = Some(Work::Sizing);
                Step::Start(Job::Size)
            },
        }
    }

    /// One step of getting every held back byte all the way into the file;
    /// see [`spec_closed`].
    pub fn closed_step(&mut self, p: Progress) -> (step: Step<()>)
        requires
            old(self).wf(),
            fits(old(self)@.work, p@),
        ensures
            final(self).wf(),
            (final(self)@, step@) == spec_closed(old(self)@, p@),
    {
        match self.work {
            Some(Work::Closing) => match p {
                Progress::Closed(r) => {
                    self.work = None;
                    Step::Ready(r)
                },
                _ => Step::Pending,
            },
            Some(_) => {
                let step = self.push_step(p);
                continue_after(step)
            },
            None => {
                if self.buffer.len() > 0 {
                    let step = self.push_step(p);
                    return continue_after(step);
                }
                match self.writer {
                    None => Step::Ready(Ok(())),
                    Some(_) => {
                        self.writer = None;
                        self.work = Some(Work::Closing);
                        Step::Start(Job::Close)
                    },
                }
            },
        }
    }

    /// One step of a read of at most `room` bytes, once what was read ahead
    /// is used up; see [`spec_read`].
    pub fn read_step(&mut self, room: usize, p: Progress) -> (step: Step<Vec<u8>>)
        requires
            old(self).wf(),
            fits(old(self)@.work, p@),
            p@ matches ProgressView::Read(Ok(bytes)) ==> old(self)@.position + bytes.len()
                <= u64::MAX,
        ensures
            final(self).wf(),
            (final(self)@, step@) == spec_read(old(self)@, room, p@),
    {
        match self.work {
            Some(Work::Reading) => match p {
                Progress::Read(Err(e)) => {
                    self.work = None;
                    Step::Ready(Err(e))
                },
                Progress::Read(Ok(bytes)) => {
                    self.work = None;
                    if bytes.len() == 0 {
                        Step::Ready(Ok(Vec::new()))
                    } else {
                        self.read_start = self.position;
                        self.read_buffer = bytes;
                        Step::Again
                    }
                },
                _ => Step::Pending,
            },
            Some(_) => {
                let step = self.closed_step(p);
                continue_after(step)
            },
            None => {
                if self.buffer.len() == 0 && self.writer.is_none() {
                    let length = if room < READ_AHEAD {
                        READ_AHEAD
                    } else {
                        room
                    };
                    self.work = Some(Work::Reading);
                    Step::Start(Job::Read { start: self.position, length })
                } else {
                    let step = self.closed_step(p);
                    continue_after(step)
                }
            },
        }
    }

    /// One step of a seek from the end of the file;
    /// see [`spec_complete`].
    pub fn complete_step(&mut self, p: Progress) -> (step: Step<u64>)
        requires
            old(self).wf(),
            fits(old(self)@.work, p@),
            old(self)@.seek matches Some(Seek::FromEnd(_)),
        ensures
            final(self).wf(),
            old(self)@.seek matches Some(Seek::FromEnd(offset)) && (final(self)@, step@)
                == spec_complete(old(self)@, offset, p@),
    {
        let offset = match self.seek {
            Some(Seek::FromEnd(offset)) => offset,
            _ => 0,
        };
        match self.work {
            Some(Work::Sizing) => match p {
                Progress::Sized(Err(e)) => {
                    self.work = None;
                    self.seek = None;
                    Step::Ready(Err(e))
                },
                Progress::Sized(Ok(size)) => {
                    self.work = None;
                    match shifted(size, offset) {
                        Ok(landed) => {
                            self.seek = Some(Seek::Settled(landed));
                            Step::Again
                        },
                        Err(e) => Step::Ready(Err(e)),
                    }
                },
                _ => Step::Pending,
            },
            Some(_) => {
                let step = self.closed_step(p);
                continue_after(step)
            },
            None => {
                if self.buffer.len() == 0 && self.writer.is_none() {
                    self.work = Some(Work::Sizing);
                    Step::Start(Job::Size)
                } else {
                    let step = self.closed_step(p);
                    continue_after(step)
                }
            },
        }
    }

    /// Takes what a dropped file still has to land: nothing when nothing is
    /// held back; otherwise the held back bytes, where they belong, and
    /// whether the open stream can carry them. The stream, if any, is given
    /// up, because whoever lands the bytes closes it.
    pub fn take_leftover(&mut self) -> (leftover: Option<Leftover>)
        requires
            old(self).wf(),
        ensures
            final(self).wf(),
            nothing_held(old(self)@) ==> leftover is None && final(self)@ == old(self)@,
            !nothing_held(old(self)@) ==> (leftover matches Some(l) && {
                &&& l.bytes@ == old(self)@.buffer
                &&& l.reuse_writer == old(self)@.writer is Some
                &&& l.seek_to == if old(self)@.buffer.len() > 0 && (match old(self)@.writer {
                    Some(cursor) => cursor,
                    None => 0,
                }) != old(self)@.buffer_start {
                    Some(old(self)@.buffer_start)
                } else {
                    None::<u64>
                }
                &&& final(self)@ == (FileView { buffer: Seq::empty(), writer: None, ..old(self)@ })
            }),
    {
        if self.buffer.len() == 0 && self.writer.is_none() {
            return None;
        }
        let mut bytes: Vec<u8> = Vec::new();
        std::mem::swap(&mut bytes, &mut self.buffer);
        let cursor = match self.writer {
            Some(cursor) => cursor,
            None => 0,
        };
        let seek_to = if bytes.len() > 0 && cursor != self.buffer_start {
            Some(self.buffer_start)
        } else {
            None
        };
        let reuse_writer = self.writer.is_some();
        self.writer = None;
        Some(Leftover { reuse_writer, seek_to, bytes })
    }
}


/// One poll of the call in flight, by a poll that did not ask for it:
/// a read or a measurement that finishes is let go of, because it never
/// reported anything and never moved the cursor; an opened stream or a
/// finished push leaves the stream ready for more.
pub open spec fn spec_settle(v: FileView, p: ProgressView) -> (FileView, Next<()>) {
    match v.work {
        None => (v, Next::Finish(Ok(()))),
        Some(w) => match p {
            ProgressView::Pending => (v, Next::Wait),
            ProgressView::Read(r) => (FileView { work: None, ..v }, Next::Finish(spec_without_value(r))),
            ProgressView::Opened(Ok(())) => (
                FileView { work: None, writer: Some(0), ..v },
                Next::Finish(Ok(())),
            ),
            ProgressView::Opened(Err(e)) => (FileView { work: None, ..v }, Next::Finish(Err(e))),
            ProgressView::Pushed(Ok(())) => (
                FileView {
                    work: None,
                    writer: match w {
                        Work::Pushing(cursor) => Some(cursor),
                        _ => v.writer,
                    },
                    ..v
                },
                Next::Finish(Ok(())),
            ),
            ProgressView::Pushed(Err(e)) => (FileView { work: None, ..v }, Next::Finish(Err(e))),
            ProgressView::Closed(r) => (FileView { work: None, ..v }, Next::Finish(r)),
            ProgressView::Sized(r) => (FileView { work: None, ..v }, Next::Finish(spec_without_value(r))),
            ProgressView::Idle => (v, Next::Finish(Ok(()))),
        },
    }
}

/// One step of getting every held back byte into the open stream: finish
/// the call in flight, then open a stream if there is none, then push the
/// held back bytes where they belong.
pub open spec fn spec_push(v: FileView, p: ProgressView) -> (FileView, Next<()>) {
    if v.work is Some {
        let (after, next) = spec_settle(v, p);
        (after, spec_continue_after(next))
    } else if v.buffer.len() == 0 {
        (v, Next::Finish(Ok(())))
    } else {
        match v.writer {
            None => (FileView { work: Some(Work::Opening), ..v }, Next::Begin(JobView::Open)),
            Some(cursor) => (
                FileView {
                    buffer: Seq::empty(),
                    writer: None,
                    work: Some(Work::Pushing((v.buffer_start + v.buffer.len()) as u64)),
                    ..v
                },
                Next::Begin(
                    JobView::Push {
                        seek_to: if cursor != v.buffer_start {
                            Some(v.buffer_start)
                        } else {
                            None
                        },
                        bytes: v.buffer,
                    },
                ),
            ),
        }
    }
}

/// One step of moving the cursor to the end of the file as it stands:
/// finish the call in flight, then measure the file.
pub open spec fn spec_at_end(v: FileView, p: ProgressView) -> (FileView, Next<()>) {
    match v.work {
        Some(Work::Sizing) => match p {
            ProgressView::Sized(Ok(size)) => (
                FileView { work: None, position: size, ..v },
                Next::Finish(Ok(())),
            ),
            ProgressView::Sized(Err(e)) => (FileView { work: None, ..v }, Next::Finish(Err(e))),
            _ => (v, Next::Wait),
        },
        Some(_) => {
            let (after, next) = spec_settle(v, p);
            (after, spec_continue_after(next))
        },
        None => (FileView { work: Some(Work::Sizing), ..v }, Next::Begin(JobView::Size)),
    }
}

/// One step of getting every held back byte all the way into the file:
/// push what is held back, then close the stream, which commits it.
pub open spec fn spec_closed(v: FileView, p: ProgressView) -> (FileView, Next<()>) {
    match v.work {
        Some(Work::Closing) => match p {
            ProgressView::Closed(r) => (FileView { work: None, ..v }, Next::Finish(r)),
            _ => (v, Next::Wait),
        },
        Some(_) => {
            let (after, next) = spec_push(v, p);
            (after, spec_continue_after(next))
        },
        None => if v.buffer.len() > 0 {
            let (after, next) = spec_push(v, p);
            (after, spec_continue_after(next))
        } else {
            match v.writer {
                None => (v, Next::Finish(Ok(()))),
                Some(_) => (
                    FileView { writer: None, work: Some(Work::Closing), ..v },
                    Next::Begin(JobView::Close),
                ),
            }
        },
    }
}

/// One step of a read of at most `room` bytes, once what was read ahead is
/// used up: a read has to see what was written, and a write reaches the file
/// only when the stream carrying it closes, so everything held back goes
/// into the file before a read is started; a read asks for at least
/// [`READ_AHEAD`] bytes, and what it finds is kept to be served.
pub open spec fn spec_read(v: FileView, room: usize, p: ProgressView) -> (FileView, Next<Seq<u8>>) {
    match v.work {
        Some(Work::Reading) => match p {
            ProgressView::Read(Err(e)) => (FileView { work: None, ..v }, Next::Finish(Err(e))),
            ProgressView::Read(Ok(bytes)) => if bytes.len() == 0 {
                (FileView { work: None, ..v }, Next::Finish(Ok(Seq::empty())))
            } else {
                (
                    FileView { work: None, read_start: v.position, read_buffer: bytes, ..v },
                    Next::Continue,
                )
            },
            _ => (v, Next::Wait),
        },
        Some(_) => {
            let (after, next) = spec_closed(v, p);
            (after, spec_continue_after(next))
        },
        None => if nothing_held(v) {
            (
                FileView { work: Some(Work::Reading), ..v },
                Next::Begin(
                    JobView::Read {
                        start: v.position,
                        length: if room < READ_AHEAD {
                            READ_AHEAD
                        } else {
                            room
                        },
                    },
                ),
            )
        } else {
            let (after, next) = spec_closed(v, p);
            (after, spec_continue_after(next))
        },
    }
}

/// The error of a seek that lands outside of the file.
pub open spec fn spec_outside_error() -> ErrorView {
    ErrorView { kind: ErrorKind::InvalidInput, message: spec_outside_message() }
}

/// One step of a seek `offset` bytes from the end of the file: the end has
/// to account for held back bytes, so they reach the file before it is
/// measured.
pub open spec fn spec_complete(v: FileView, offset: i64, p: ProgressView) -> (FileView, Next<u64>) {
    match v.work {
        Some(Work::Sizing) => match p {
            ProgressView::Sized(Err(e)) => (
                FileView { work: None, seek: None, ..v },
                Next::Finish(Err(e)),
            ),
            ProgressView::Sized(Ok(size)) => if 0 <= size + offset <= u64::MAX {
                (
                    FileView {
                        work: None,
                        seek: Some(Seek::Settled((size + offset) as u64)),
                        ..v
                    },
                    Next::Continue,
                )
            } else {
                (FileView { work: None, ..v }, Next::Finish(Err(spec_outside_error())))
            },
            _ => (v, Next::Wait),
        },
        Some(_) => {
            let (after, next) = spec_closed(v, p);
            (after, spec_continue_after(next))
        },
        None => if nothing_held(v) {
            (FileView { work: Some(Work::Sizing), ..v }, Next::Begin(JobView::Size))
        } else {
            let (after, next) = spec_closed(v, p);
            (after, spec_continue_after(next))
        },
    }
}

/// Turns the step of an inner poll into the step of the poll around it;
/// see [`spec_continue_after`].
fn continue_after<T: View>(step: Step<()>) -> (next: Step<T>)
    ensures
        next@ == spec_continue_after::<T::V>(step@),
{
    match step {
        Step::Pending => Step::Pending,
        Step::Ready(Ok(())) => Step::Again,
        Step::Ready(Err(e)) => Step::Ready(Err(e)),
        Step::Start(job) => Step::Start(job),
        Step::Again => Step::Again,
    }
}

/// What a dropped file still has to land: the held back bytes, where they
/// belong, and whether the stream that is open can carry them.
#[derive(Debug)]
pub struct Leftover {
    /// Whether a stream is open to carry the bytes; otherwise one is opened.
    pub reuse_writer: bool,
    /// Where to move the stream's cursor before writing, when it is
    /// elsewhere.
    pub seek_to: Option<u64>,
    /// The held back bytes.
    pub bytes: Vec<u8>,
}


/// No step of getting held back bytes into the file starts a read or a
/// measurement.
proof fn lemma_closing_starts_only_writes(v: FileView, p: ProgressView)
    ensures
        spec_settle(v, p).1 matches Next::Finish(_) || spec_settle(v, p).1 is Wait,
        spec_push(v, p).1 matches Next::Begin(job) ==> (job is Open || job is Push),
        spec_closed(v, p).1 matches Next::Begin(job) ==> (job is Open || job is Push
            || job is Close),
{
}

/// A read has to see what was written: a file only starts reading from
/// JavaScript when nothing is held back from it, and it reads at its cursor,
/// at least [`READ_AHEAD`] bytes at a time.
pub proof fn lemma_reads_start_only_when_nothing_is_held(v: FileView, room: usize, p: ProgressView)
    ensures
        spec_read(v, room, p).1 matches Next::Begin(JobView::Read { start, length }) ==> {
            &&& nothing_held(v)
            &&& v.work is None
            &&& start == v.position
            &&& length >= READ_AHEAD
            &&& length >= room
        },
{
    lemma_closing_starts_only_writes(v, p);
}

/// The end of a file accounts for held back bytes: a seek from the end only
/// measures the file when nothing is held back from it.
pub proof fn lemma_the_end_is_measured_only_when_nothing_is_held(
    v: FileView,
    offset: i64,
    p: ProgressView,
)
    ensures
        spec_complete(v, offset, p).1 matches Next::Begin(JobView::Size) ==> nothing_held(v)
            && v.work is None,
{
    lemma_closing_starts_only_writes(v, p);
}

/// Flushing makes writes visible: once getting everything into the file
/// finishes without error, nothing is held back and nothing is in flight,
/// for a file that took no writes while its stream was closing.
pub proof fn lemma_a_finished_flush_holds_nothing_back(v: FileView, p: ProgressView)
    requires
        file_wf(v),
        fits(v.work, p),
        v.work == Some(Work::Closing) ==> v.buffer.len() == 0,
    ensures
        spec_closed(v, p).1 == Next::<()>::Finish(Ok(())) ==> nothing_held(spec_closed(v, p).0)
            && spec_closed(v, p).0.work is None,
{
}

/// Bytes are pushed exactly where they were written: a run of writes that
/// starts at the cursor, once pushed, carries those bytes to that offset,
/// and leaves the stream's cursor just past them.
pub proof fn lemma_writes_are_pushed_where_they_were_written(v: FileView, data: Seq<u8>)
    requires
        file_wf(v),
        v.work is None,
        v.buffer.len() == 0,
        v.writer is Some,
        data.len() > 0,
        v.position + data.len() <= u64::MAX,
    ensures
        ({
            let written = FileView {
                position: (v.position + data.len()) as u64,
                buffer: data,
                buffer_start: v.position,
                read_buffer: Seq::empty(),
                read_start: 0,
                ..v
            };
            let (after, next) = spec_push(written, ProgressView::Idle);
            &&& next matches Next::Begin(JobView::Push { seek_to, bytes }) && bytes == data && (
            seek_to is None ==> v.writer == Some(v.position)) && (seek_to matches Some(
                offset,
            ) ==> offset == v.position)
            &&& after.work == Some(Work::Pushing((v.position + data.len()) as u64))
            &&& after.buffer.len() == 0
        }),
{
}

/// A stream that has just opened stands at the start of the file, so bytes
/// held back for elsewhere are moved there first: from a state with no
/// stream and nothing in flight, getting held back bytes into the file
/// opens a stream, and once it has opened pushes exactly those bytes with
/// a seek to where they belong, unless that is the start of the file. This
/// holds both for pushing them and for getting them all the way into the
/// file.
pub proof fn lemma_a_fresh_stream_is_moved_to_the_held_bytes(v: FileView)
    requires
        v.work is None,
        v.writer is None,
        v.buffer.len() > 0,
    ensures
        ({
            let (v1, n1) = spec_push(v, ProgressView::Idle);
            let (v2, n2) = spec_push(v1, ProgressView::Opened(Ok(())));
            let (v3, n3) = spec_push(v2, ProgressView::Idle);
            &&& n1 == Next::<()>::Begin(JobView::Open)
            &&& n2 == Next::<()>::Continue
            &&& n3 == Next::<()>::Begin(
                JobView::Push {
                    seek_to: if v.buffer_start == 0 {
                        None
                    } else {
                        Some(v.buffer_start)
                    },
                    bytes: v.buffer,
                },
            )
        }),
        ({
            let (v1, n1) = spec_closed(v, ProgressView::Idle);
            let (v2, n2) = spec_closed(v1, ProgressView::Opened(Ok(())));
            let (v3, n3) = spec_closed(v2, ProgressView::Idle);
            &&& n1 == Next::<()>::Begin(JobView::Open)
            &&& n2 == Next::<()>::Continue
            &&& n3 == Next::<()>::Begin(
                JobView::Push {
                    seek_to: if v.buffer_start == 0 {
                        None
                    } else {
                        Some(v.buffer_start)
                    },
                    bytes: v.buffer,
                },
            )
        }),
{
}

} // verus!
