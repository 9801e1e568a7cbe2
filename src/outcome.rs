//! Outcome codes that callers branch on.
use vstd::prelude::*;

verus! {

/// The outcome of an operation on a map of databases or of documents.
#[derive(Clone, Copy, Debug, PartialEq, Eq, Structural)]
pub enum DbOps {
    /// A new entry was inserted.
    Inserted,
    /// An entry under that key is already there; nothing changed.
    AlreadyExists,
    /// The entry under that key was replaced.
    Modified,
    /// The entry under that key was removed.
    Deleted,
    /// No entry under that key; nothing changed.
    KeyNotFound,
    /// No map was ever created; nothing changed.
    Empty,
}

/// The outcome of an operation on the storage directory or the snapshot file.
#[derive(Clone, Copy, Debug, PartialEq, Eq, Structural)]
pub enum FileOps {
    /// The directory was created.
    CreateTrue,
    /// The directory is already there.
    AlreadyExists,
    /// Permission to create it was denied.
    WriteDenied,
    /// The operation was interrupted.
    Interrupted,
    /// The snapshot was written and flushed.
    WriteTrue,
}

/// What kind of failure the file system reported for a directory creation.
#[derive(Clone, Copy, Debug, PartialEq, Eq, Structural)]
pub enum DirFault {
    PermissionDenied,
    AlreadyExists,
    Interrupted,
    /// Any other I/O failure.
    Other,
}

} // verus!
