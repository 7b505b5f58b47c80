//! What is recorded about a run.

use crate::interface::metadata::Metadata;
use vstd::prelude::*;

verus! {

/// The kind of job that a record is about.
#[derive(Clone, Copy, Debug, PartialEq, Eq, Structural)]
pub enum LogType {
    Scan,
    Fix,
}

impl LogType {
    /// The number under which the kind is stored.
    pub open spec fn code_spec(self) -> i32 {
        match self {
            LogType::Scan => 0i32,
            LogType::Fix => 1i32,
        }
    }

    /// The number under which the kind is stored.
    pub fn code(&self) -> (c: i32)
        ensures
            c == self.code_spec(),
    {
        match self {
            LogType::Scan => 0,
            LogType::Fix => 1,
        }
    }
}

/// One record of the log, as it is handed to whoever stores it.
///
/// `acoustid_score` is in millionths.
#[derive(Debug)]
pub struct LogEntry {
    pub success: bool,
    pub log_type: LogType,
    pub message: String,
    pub old_metadata: Option<Metadata>,
    pub new_metadata: Option<Metadata>,
    pub source_path: String,
    pub target_path: Option<String>,
    pub acoustid_score: Option<u32>,
    pub retry_count: u8,
}

} // verus!
