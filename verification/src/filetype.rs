//! Classification of directory entries.

use vstd::prelude::*;

verus! {

/// What kind of filesystem object an entry is. Classification checks, in
/// order: symlink, directory, owner execute bit, and otherwise a regular
/// file.
#[derive(Debug, PartialEq, Eq, Clone, Copy, Structural)]
pub enum FileType {
    File,
    Directory,
    Symlink,
    Executable,
}

} // verus!
