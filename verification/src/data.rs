//! The records the tool reports on: files, directories, and the flat
//! summaries.

pub mod directory;
pub mod file;
pub mod laws;
pub mod models;
