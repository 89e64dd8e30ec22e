//! Resolves, increments and persists the semantic version that a package
//! manifest declares, and plans the git commit and tag that record the bump.
//!
//! The library is free of I/O: callers hand it the manifest text they read and
//! carry out the git requests it issues.

pub mod document;
pub mod error;
pub mod manifest;
pub mod message;
pub mod project;
pub mod release;
pub mod version;
