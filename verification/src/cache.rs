//! The cache side of the read/write path: how entries are named, which of
//! them a write must clear, and how a whole namespace is swept.

pub mod keys;
pub mod policy;
pub mod sweep;
