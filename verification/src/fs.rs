//! Local state and workspace filesystem rules: which entries are safe for
//! their owner, and how a refusal about a directory is worded.

pub mod permission;
pub mod policy;
pub mod mount;
pub mod read;
pub mod names;
pub mod lock;
