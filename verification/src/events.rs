//! The filesystem events that drive the operations. The caller performs
//! each filesystem step and reports what happened as one of these
//! values; the operations decide everything else.

use vstd::prelude::*;

verus! {

/// What the filesystem reported for "open this file and read it whole".
#[derive(Debug)]
pub enum FileReadOutcome {
    /// The file was opened and read to its end.
    Content(Vec<u8>),
    /// Opening failed; holds the OS error text.
    OpenFailed(String),
    /// Reading failed; holds the OS error text.
    ReadFailed(String),
}

/// What the filesystem reported for "create this file and write these
/// bytes whole".
#[derive(Debug)]
pub enum FileWriteOutcome {
    /// The file was created (or overwritten) and fully written.
    Written,
    /// Creating failed; holds the OS error text.
    CreateFailed(String),
    /// Writing failed; holds the OS error text.
    WriteFailed(String),
}

/// What the filesystem reported for "remove this file".
#[derive(Debug)]
pub enum FileRemoveOutcome {
    /// The file was removed.
    Removed,
    /// Removal failed; holds the OS error text.
    RemoveFailed(String),
}

} // verus!
