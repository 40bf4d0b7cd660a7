//! Rename a file after its modification time: the decisions and the names,
//! without the file system.
//!
//! The caller performs each file-system query and hands the observation in;
//! every function here is a verified function on plain values.

pub mod args;
pub mod error;
pub mod name;
pub mod plan;
pub mod resolve;
pub mod stamp;
