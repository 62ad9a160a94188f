//! Asynchronous file system access, over the origin private file system:
//! the logic that does not need the browser.

pub mod error;

pub use error::{ErrorKind, IoError, Wanted};
pub mod path;

pub use path::{PathComponent, join_names, split_parent, split_path};
pub mod dir;

pub use dir::{FileType, Metadata, directory_metadata, file_metadata};
pub mod file;

pub use file::{OpenOptions, SeekFrom, read_window, shifted};
pub mod state;

pub use state::{FileState, Job, Progress, Step, Work};
pub mod ops;

pub use ops::{
    EntryStep, after_file_lookup, existence, file_already_there, name_is_free, not_utf8,
    storage_missing,
};
