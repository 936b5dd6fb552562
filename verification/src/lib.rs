//! State core of a terminal directory browser: a navigable snapshot of one
//! directory, a prefix-filtered displayed list with an always-valid cursor,
//! and the confirm/cancel logic of the user commands (search, create, delete,
//! rename, copy). All filesystem and terminal work is performed by the caller,
//! which hands plain values in and carries the requested actions out.

pub mod app;
pub mod events;
pub mod file;
pub mod fsops;
pub mod filetype;
pub mod paths;
pub mod permissions;
pub mod text;
pub mod userinput;
pub mod workingdir;

pub use app::{App, InputMode, ListState};
pub use events::{Action, Key};
pub use file::{File, FileMeta};
pub use filetype::FileType;
pub use fsops::{FsError, FsRequest};
pub use permissions::Permissions;
pub use userinput::{Command, FileCopy, FileCreate, FileDelete, FileRename, Search};
pub use workingdir::WorkingDir;
