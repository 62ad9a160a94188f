use tokio_with_wasm::fs::error::{error_kind_for, same_text};
use tokio_with_wasm::fs::file::{OpenPlan, READ_AHEAD, WRITE_BUFFER_LIMIT};
use tokio_with_wasm::fs::state::Leftover;
use tokio_with_wasm::fs::{
    EntryStep, ErrorKind, FileState, FileType, IoError, Job, OpenOptions, PathComponent, Progress,
    SeekFrom, Step, Wanted, after_file_lookup, directory_metadata, existence, file_metadata,
    join_names, name_is_free, not_utf8, shifted, split_parent, split_path, storage_missing,
};
use tokio_with_wasm::fs::error::to_io_error;
use tokio_with_wasm::fs::{file_already_there, read_window};
use tokio_with_wasm::time::Duration;

fn name(text: &str) -> PathComponent {
    PathComponent::Normal(text.to_owned())
}

fn names(texts: &[&str]) -> Vec<String> {
    texts.iter().map(|text| text.to_string()).collect()
}

#[test]
fn paths_resolve_dots_against_the_root() {
    let path = vec![
        PathComponent::RootDir,
        name("a"),
        PathComponent::CurDir,
        name("b"),
        PathComponent::ParentDir,
        name("c"),
    ];
    assert_eq!(split_path(&path).unwrap(), names(&["a", "c"]));
    assert_eq!(split_path(&vec![PathComponent::RootDir]).unwrap(), names(&[]));
    assert_eq!(split_path(&vec![name("x"), name("y")]).unwrap(), names(&["x", "y"]));
}

#[test]
fn paths_that_leave_the_root_are_refused() {
    let error = split_path(&vec![name("a"), PathComponent::ParentDir, PathComponent::ParentDir])
        .unwrap_err();
    assert_eq!(error.kind(), ErrorKind::InvalidInput);
    assert_eq!(error.message(), "path leads out of the origin private file system");
    let error = split_path(&vec![PathComponent::Prefix, name("a")]).unwrap_err();
    assert_eq!(
        error.message(),
        "path carries a drive prefix, which the origin private file system has no room for"
    );
    let error = split_path(&vec![name("a"), PathComponent::NotUnicode]).unwrap_err();
    assert_eq!(error.message(), "path is not valid UTF-8");
}

#[test]
fn a_parent_and_a_name_come_apart() {
    let path = vec![PathComponent::RootDir, name("a"), name("b"), name("file.txt")];
    let (directories, last) = split_parent(&path).unwrap();
    assert_eq!(directories, names(&["a", "b"]));
    assert_eq!(last, "file.txt");
    let error = split_parent(&vec![PathComponent::RootDir]).unwrap_err();
    assert_eq!(error.kind(), ErrorKind::InvalidInput);
    assert_eq!(error.message(), "path names the root itself, not an entry in it");
}

#[test]
fn names_join_with_slashes_from_the_root() {
    assert_eq!(join_names(&names(&["a", "b", "c"])), "/a/b/c");
    assert_eq!(join_names(&names(&[])), "/");
    assert_eq!(join_names(&names(&["only"])), "/only");
}

fn components_of(path: &str) -> Vec<PathComponent> {
    std::path::Path::new(path)
        .components()
        .map(|component| match component {
            std::path::Component::RootDir => PathComponent::RootDir,
            std::path::Component::CurDir => PathComponent::CurDir,
            std::path::Component::ParentDir => PathComponent::ParentDir,
            std::path::Component::Normal(text) => match text.to_str() {
                Some(text) => PathComponent::Normal(text.to_owned()),
                None => PathComponent::NotUnicode,
            },
            std::path::Component::Prefix(_) => PathComponent::Prefix,
        })
        .collect()
}

#[test]
fn joined_names_split_back() {
    for list in [&["canonicalize", "here.txt"][..], &[][..], &["a", "b", "c"][..]] {
        let joined = join_names(&names(list));
        assert_eq!(split_path(&components_of(&joined)).unwrap(), names(list));
    }
    assert_eq!(join_names(&names(&["canonicalize", "here.txt"])), "/canonicalize/here.txt");
}

#[test]
fn exceptions_map_to_error_kinds() {
    assert_eq!(error_kind_for("NotFoundError", Wanted::Either), ErrorKind::NotFound);
    assert_eq!(error_kind_for("NotAllowedError", Wanted::File), ErrorKind::PermissionDenied);
    assert_eq!(error_kind_for("SecurityError", Wanted::File), ErrorKind::PermissionDenied);
    assert_eq!(error_kind_for("TypeMismatchError", Wanted::File), ErrorKind::IsADirectory);
    assert_eq!(error_kind_for("TypeMismatchError", Wanted::Directory), ErrorKind::NotADirectory);
    assert_eq!(error_kind_for("TypeMismatchError", Wanted::Either), ErrorKind::InvalidInput);
    assert_eq!(
        error_kind_for("InvalidModificationError", Wanted::Directory),
        ErrorKind::DirectoryNotEmpty
    );
    assert_eq!(
        error_kind_for("NoModificationAllowedError", Wanted::File),
        ErrorKind::ResourceBusy
    );
    assert_eq!(error_kind_for("QuotaExceededError", Wanted::File), ErrorKind::QuotaExceeded);
    assert_eq!(error_kind_for("AbortError", Wanted::File), ErrorKind::Other);
}

#[test]
fn exception_messages_carry_their_name() {
    let named = to_io_error("NotFoundError", "no such entry", Wanted::File);
    assert_eq!(named.kind(), ErrorKind::NotFound);
    assert_eq!(named.message(), "NotFoundError: no such entry");
    let bare = to_io_error("", "something broke", Wanted::Either);
    assert_eq!(bare.kind(), ErrorKind::Other);
    assert_eq!(bare.message(), "something broke");
    assert!(same_text("abc", "abc"));
    assert!(!same_text("abc", "abd"));
}

#[test]
fn open_options_are_checked_before_anything_opens() {
    let mut options = OpenOptions::new();
    let error = options.plan().unwrap_err();
    assert_eq!(error.message(), "a file has to be opened for reading, writing, or appending");
    options.read(true).create(true);
    let error = options.plan().unwrap_err();
    assert_eq!(error.message(), "creating or emptying a file needs it opened for writing");
    options.append(true).truncate(true);
    let error = options.plan().unwrap_err();
    assert_eq!(error.kind(), ErrorKind::InvalidInput);
    assert_eq!(error.message(), "a file cannot be emptied and appended to at once");
    options.truncate(false);
    assert_eq!(
        options.plan().unwrap(),
        OpenPlan { must_be_absent: false, create: true, empty: false, start_at_end: true }
    );
    let mut fresh = OpenOptions::new();
    fresh.write(true).create_new(true);
    assert_eq!(
        fresh.plan().unwrap(),
        OpenPlan { must_be_absent: true, create: true, empty: false, start_at_end: false }
    );
    assert!(fresh.writes() && !fresh.reads() && !fresh.appends());
}

#[test]
fn seeks_stay_inside_the_file() {
    assert_eq!(shifted(10, -4).unwrap(), 6);
    assert_eq!(shifted(10, 5).unwrap(), 15);
    let error = shifted(3, -4).unwrap_err();
    assert_eq!(error.kind(), ErrorKind::InvalidInput);
    assert_eq!(error.message(), "seek lands outside of the file");
    assert!(shifted(u64::MAX, 1).is_err());
    assert_eq!(shifted(u64::MAX, i64::MIN).unwrap(), u64::MAX - (1u64 << 63));
}

#[test]
fn metadata_tells_files_from_directories() {
    let file = file_metadata(42, 1_000);
    assert!(file.is_file() && !file.is_dir() && !file.is_symlink());
    assert_eq!(file.len(), 42);
    assert!(!file.is_empty());
    assert_eq!(file.modified().unwrap(), Duration::from_millis(1_000));
    assert_eq!(file.file_type(), FileType::of(false));
    let directory = directory_metadata();
    assert!(directory.is_dir() && !directory.is_file());
    assert!(directory.is_empty());
    let error = directory.modified().unwrap_err();
    assert_eq!(error.kind(), ErrorKind::Unsupported);
    assert!(FileType::of(true).is_dir());
    assert!(!FileType::of(true).is_symlink());
}

#[test]
fn lookups_decide_what_the_calls_answer() {
    assert_eq!(existence(Ok(())).unwrap(), true);
    assert_eq!(existence(Err(IoError::new(ErrorKind::NotFound, "gone"))).unwrap(), false);
    let passed = existence(Err(IoError::new(ErrorKind::PermissionDenied, "no"))).unwrap_err();
    assert_eq!(passed.kind(), ErrorKind::PermissionDenied);
    let taken = name_is_free(Ok(())).unwrap_err();
    assert_eq!(taken.kind(), ErrorKind::AlreadyExists);
    assert_eq!(taken.message(), "the name is already taken");
    let file_there = name_is_free(Err(IoError::new(ErrorKind::NotADirectory, "file"))).unwrap_err();
    assert_eq!(file_there.kind(), ErrorKind::AlreadyExists);
    assert!(name_is_free(Err(IoError::new(ErrorKind::NotFound, "free"))).is_ok());
    let other = name_is_free(Err(IoError::new(ErrorKind::QuotaExceeded, "full"))).unwrap_err();
    assert_eq!(other.kind(), ErrorKind::QuotaExceeded);
    assert!(matches!(after_file_lookup(Ok(())), EntryStep::IsFile));
    assert!(matches!(
        after_file_lookup(Err(IoError::new(ErrorKind::NotFound, "gone"))),
        EntryStep::Missing(_)
    ));
    assert!(matches!(
        after_file_lookup(Err(IoError::new(ErrorKind::IsADirectory, "dir"))),
        EntryStep::TryDirectory
    ));
    assert_eq!(not_utf8().kind(), ErrorKind::InvalidData);
    assert_eq!(not_utf8().message(), "file is not UTF-8");
    assert_eq!(storage_missing().kind(), ErrorKind::Unsupported);
}

#[test]
fn writes_are_held_back_then_pushed_and_committed() {
    let mut state = FileState::new();
    assert!(state.write_gate().is_ok());
    assert!(!state.needs_end());
    assert!(!state.needs_push());
    assert_eq!(state.accept(b"hello"), 5);
    assert_eq!(state.position(), 5);
    assert!(!state.is_settled());
    assert!(matches!(state.closed_step(Progress::Idle), Step::Start(Job::Open)));
    assert!(matches!(state.closed_step(Progress::Opened(Ok(()))), Step::Again));
    match state.closed_step(Progress::Idle) {
        Step::Start(Job::Push { seek_to, bytes }) => {
            assert_eq!(seek_to, None);
            assert_eq!(bytes, b"hello".to_vec());
        }
        other => panic!("expected a push, got {other:?}"),
    }
    assert!(matches!(state.closed_step(Progress::Pending), Step::Pending));
    assert!(matches!(state.closed_step(Progress::Pushed(Ok(()))), Step::Again));
    assert!(matches!(state.closed_step(Progress::Idle), Step::Start(Job::Close)));
    assert!(matches!(state.closed_step(Progress::Closed(Ok(()))), Step::Ready(Ok(()))));
    assert!(state.is_settled());
}

#[test]
fn writes_elsewhere_push_the_held_back_bytes_first() {
    let mut state = FileState::new();
    state.accept(b"ab");
    assert!(state.start_seek(SeekFrom::Start(10)).is_ok());
    assert_eq!(state.resolve_seek(), Some(10));
    assert!(state.needs_push());
    assert!(matches!(state.push_step(Progress::Idle), Step::Start(Job::Open)));
    assert!(matches!(state.push_step(Progress::Opened(Ok(()))), Step::Again));
    assert!(matches!(state.push_step(Progress::Idle), Step::Start(Job::Push { .. })));
    assert!(matches!(state.push_step(Progress::Pushed(Ok(()))), Step::Again));
    assert!(matches!(state.push_step(Progress::Idle), Step::Ready(Ok(()))));
    assert!(!state.needs_push());
    state.accept(b"cd");
    match state.push_step(Progress::Idle) {
        Step::Start(Job::Push { seek_to, bytes }) => {
            // The stream stands at 2, where the first push ended.
            assert_eq!(seek_to, Some(10));
            assert_eq!(bytes, b"cd".to_vec());
        }
        other => panic!("expected a push, got {other:?}"),
    }
}

#[test]
fn reads_look_ahead_and_serve_from_what_they_found() {
    let mut state = FileState::new();
    assert!(state.read_gate(4).is_none());
    assert!(state.read_gate(0).unwrap().unwrap().is_empty());
    match state.read_step(4, Progress::Idle) {
        Step::Start(Job::Read { start, length }) => {
            assert_eq!(start, 0);
            assert_eq!(length, READ_AHEAD);
        }
        other => panic!("expected a read, got {other:?}"),
    }
    assert!(matches!(state.read_step(4, Progress::Read(Ok(vec![1, 2, 3, 4, 5, 6]))), Step::Again));
    assert_eq!(state.read_ahead(), Some(6));
    assert_eq!(state.serve_read_ahead(4), Some(vec![1, 2, 3, 4]));
    assert_eq!(state.position(), 4);
    assert_eq!(state.serve_read_ahead(4), Some(vec![5, 6]));
    assert_eq!(state.read_ahead(), None);
    assert_eq!(state.serve_read_ahead(4), None);
    state.forget_read_ahead();
    assert!(state.is_settled());
}

#[test]
fn a_read_at_the_end_finds_nothing() {
    let mut state = FileState::new();
    assert!(matches!(state.read_step(8, Progress::Idle), Step::Start(Job::Read { .. })));
    match state.read_step(8, Progress::Read(Ok(Vec::new()))) {
        Step::Ready(Ok(bytes)) => assert!(bytes.is_empty()),
        other => panic!("expected an empty read, got {other:?}"),
    }
}

#[test]
fn files_refuse_what_they_were_not_opened_for() {
    let mut options = OpenOptions::new();
    options.read(true);
    let reader = FileState::opened(&options, 100);
    assert_eq!(reader.position(), 0);
    let error = reader.write_gate().unwrap_err();
    assert_eq!(error.kind(), ErrorKind::PermissionDenied);
    assert_eq!(error.message(), "the file was not opened for writing");
    let mut options = OpenOptions::new();
    options.append(true);
    let appender = FileState::opened(&options, 100);
    assert_eq!(appender.position(), 100);
    assert!(appender.needs_end());
    let error = appender.read_gate(1).unwrap().unwrap_err();
    assert_eq!(error.message(), "the file was not opened for reading");
}

#[test]
fn seeks_from_the_end_measure_the_file() {
    let mut state = FileState::new();
    assert!(state.start_seek(SeekFrom::End(-3)).is_ok());
    let error = state.start_seek(SeekFrom::Start(0)).unwrap_err();
    assert_eq!(error.message(), "a seek is already under way");
    assert_eq!(state.resolve_seek(), None);
    assert!(matches!(state.complete_step(Progress::Idle), Step::Start(Job::Size)));
    assert!(matches!(state.complete_step(Progress::Sized(Ok(10))), Step::Again));
    assert_eq!(state.resolve_seek(), Some(7));
    assert_eq!(state.position(), 7);
    assert!(state.start_seek(SeekFrom::Current(-8)).is_err());
    assert!(state.start_seek(SeekFrom::Current(-7)).is_ok());
    assert_eq!(state.resolve_seek(), Some(0));
}

#[test]
fn appends_find_the_end_first() {
    let mut options = OpenOptions::new();
    options.append(true);
    let mut state = FileState::opened(&options, 0);
    assert!(matches!(state.at_end_step(Progress::Idle), Step::Start(Job::Size)));
    assert!(matches!(state.at_end_step(Progress::Pending), Step::Pending));
    assert!(matches!(state.at_end_step(Progress::Sized(Ok(42))), Step::Ready(Ok(()))));
    assert_eq!(state.position(), 42);
}

#[test]
fn a_dropped_file_hands_over_what_it_held_back() {
    let mut state = FileState::new();
    assert!(state.take_leftover().is_none());
    state.accept(b"tail");
    let leftover: Leftover = state.take_leftover().unwrap();
    assert!(!leftover.reuse_writer);
    assert_eq!(leftover.seek_to, None);
    assert_eq!(leftover.bytes, b"tail".to_vec());
    assert!(state.is_settled());
    assert!(WRITE_BUFFER_LIMIT > READ_AHEAD);
}

#[test]
fn reads_stop_at_the_end_of_the_file() {
    assert_eq!(read_window(100, 0, 10), Some((0, 10)));
    assert_eq!(read_window(100, 95, 10), Some((95, 100)));
    assert_eq!(read_window(100, 100, 10), None);
    assert_eq!(read_window(100, 150, 10), None);
    assert_eq!(read_window(u64::MAX, u64::MAX - 1, usize::MAX), Some((u64::MAX - 1, u64::MAX)));
}

#[test]
fn a_new_file_must_not_be_there_yet() {
    let error = file_already_there();
    assert_eq!(error.kind(), ErrorKind::AlreadyExists);
    assert_eq!(error.message(), "the file is already there");
}

#[test]
fn a_step_expects_what_the_call_in_flight_can_answer() {
    let mut state = FileState::new();
    assert!(state.expects(&Progress::Idle));
    assert!(!state.expects(&Progress::Pending));
    assert!(!state.expects(&Progress::Read(Ok(Vec::new()))));
    assert!(matches!(state.read_step(4, Progress::Idle), Step::Start(Job::Read { .. })));
    assert!(state.expects(&Progress::Pending));
    assert!(state.expects(&Progress::Read(Ok(vec![1]))));
    assert!(!state.expects(&Progress::Idle));
    assert!(!state.expects(&Progress::Sized(Ok(3))));
}
