//! Verified core of a small file and directory inspection tool: size
//! scaling, text statistics, bottom-up directory aggregation and the lines
//! that report them.

pub mod constants;
pub mod data;
pub mod diagnostic;
pub mod program;
pub mod render;
