//! The filesystem vocabulary between the state core and its caller: the
//! mutations the core asks for, and the failures the caller reports back.

use vstd::prelude::*;

verus! {

/// Why a filesystem step failed. `Unexpected` carries the raw operating
/// system error text.
#[derive(Debug)]
pub enum FsError {
    NotFound,
    AlreadyExists,
    PermissionDenied,
    UndecodableName,
    EmptyDirectory,
    Unexpected(String),
}

impl FsError {
    /// The human-readable message shown for this failure.
    pub open spec fn spec_message(self) -> Seq<char> {
        match self {
            FsError::NotFound => "Not Found"@,
            FsError::AlreadyExists => "Already Exists"@,
            FsError::PermissionDenied => "Permission Denied"@,
            FsError::UndecodableName => "Undecodable Name"@,
            FsError::EmptyDirectory => "Empty Directory"@,
            FsError::Unexpected(s) => s@,
        }
    }

    /// Renders the failure as its message.
    pub fn message(&self) -> (r: String)
        ensures
            r@ == self.spec_message(),
    {
        match self {
            FsError::NotFound => "Not Found".to_owned(),
            FsError::AlreadyExists => "Already Exists".to_owned(),
            FsError::PermissionDenied => "Permission Denied".to_owned(),
            FsError::UndecodableName => "Undecodable Name".to_owned(),
            FsError::EmptyDirectory => "Empty Directory".to_owned(),
            FsError::Unexpected(s) => s.clone(),
        }
    }
}

/// One filesystem mutation the core asks its caller to carry out. All paths
/// are absolute, already joined against the snapshot's directory.
#[derive(Debug)]
pub enum FsRequest {
    /// Create a regular file, or a directory when `dir` holds; refused by
    /// the caller with `AlreadyExists` when the path is occupied.
    Create { path: String, dir: bool },
    /// Remove the entry; recursively when it is a directory.
    Delete { path: String, recursive: bool },
    /// Move the entry to a new path.
    Rename { from: String, to: String },
    /// Copy the entry to a new path, leaving the source in place.
    Copy { from: String, to: String },
}

} // verus!
