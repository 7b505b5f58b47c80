//! The records that leave the pipeline: a file's metadata and the log of a
//! run.

pub mod log;
pub mod metadata;
pub mod tag;
