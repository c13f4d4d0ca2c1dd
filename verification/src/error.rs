//! The failure taxonomy shared by all operations. A declined delete
//! confirmation is not a failure and does not appear here.

use vstd::prelude::*;

verus! {

/// Why an operation failed.
#[derive(Debug, PartialEq, Eq)]
pub enum OpError {
    /// A path argument carried a parent-directory marker.
    InvalidPath,
    /// The backup source does not exist or is not a regular file.
    NotFound,
    /// An open, read, write or delete failed; holds the underlying OS
    /// error text.
    Io(String),
}

impl OpError {
    /// The human-readable message reported to the operator.
    pub open spec fn message_spec(self) -> Seq<char> {
        match self {
            OpError::InvalidPath => "Invalid file path"@,
            OpError::NotFound => "Source file does not exist or is not a file"@,
            OpError::Io(e) => e@,
        }
    }

    pub fn message(&self) -> (r: String)
        ensures
            r@ == self.message_spec(),
    {
        match self {
            OpError::InvalidPath => String::from_str("Invalid file path"),
            OpError::NotFound => String::from_str("Source file does not exist or is not a file"),
            OpError::Io(e) => String::from_str(e.as_str()),
        }
    }
}

} // verus!
