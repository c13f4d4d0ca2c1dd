//! A safe file-custody library: path validation against directory
//! traversal, an append-only audit log, and the decision logic of three
//! file operations (backup, retrieve, delete) expressed as linear state
//! machines whose filesystem steps are supplied by the caller as events.

pub mod audit;
pub mod backup;
pub mod delete;
pub mod error;
pub mod events;
pub mod paths;
pub mod retrieve;
pub mod validator;
