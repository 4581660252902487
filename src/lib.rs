//! Maintains a semantic version kept as plain text, and bumps it by the
//! rules of semantic versioning.
pub mod action;
pub mod command;
pub mod error;
pub mod version;
pub mod version_file;
pub mod version_increment;
