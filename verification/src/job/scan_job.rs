//! What becomes of one scan task: whether it runs at all, and what follows
//! from its result.

use crate::error::ScanError;
use crate::interface::log::{LogEntry, LogType};
use crate::interface::metadata::Metadata;
use crate::job::JobTask;
use vstd::prelude::*;

verus! {

/// How often a failed scan is tried again.
pub const MAX_RETRIES: u8 = 1;

/// Which lookup found the candidates.
#[derive(Clone, Copy, Debug, PartialEq, Eq, Structural)]
pub enum ScannerInfo {
    /// The fingerprint lookup, with the score of its best candidate in
    /// millionths.
    AcoustId { score: u32 },
    /// The search of the catalog by the title in the file's tags.
    MusicbrainzSearch,
}

/// What a scan achieved.
#[derive(Debug)]
pub struct ScanSuccessLog {
    pub old_metadata: Metadata,
    pub new_metadata: Metadata,
    pub scanner_info: ScannerInfo,
    pub target_path: String,
}

/// What is to be done once a scan task has ended.
#[derive(Debug)]
pub enum ScanJobOutcome {
    /// Record the result; the task is over.
    Report(LogEntry),
    /// Enqueue the task again.
    Retry(JobTask),
}

/// The message of a successful scan.
pub open spec fn scanner_message(info: ScannerInfo) -> Seq<char> {
    match info {
        ScannerInfo::AcoustId { .. } => "Scanner: AcoustId"@,
        ScannerInfo::MusicbrainzSearch => "Scanner: MusicBrainz Search"@,
    }
}

/// The score that is recorded for a successful scan.
pub open spec fn scanner_score(info: ScannerInfo) -> Option<u32> {
    match info {
        ScannerInfo::AcoustId { score } => Some(score),
        ScannerInfo::MusicbrainzSearch => None,
    }
}

/// Whether a file with the extension `ext` is scanned: whether `ext` is one
/// of the allowed extensions, letter for letter.
pub fn is_allowed_extension(ext: &str, allowed_extensions: &Vec<String>) -> (b: bool)
    ensures
        b == allowed_extensions.deep_view().contains(ext@),
{
    let wanted = String::from_str(ext);
    let ghost list = allowed_extensions.deep_view();
    let mut i: usize = 0;
    while i < allowed_extensions.len()
        invariant
            i <= allowed_extensions.len(),
            list == allowed_extensions.deep_view(),
            wanted@ == ext@,
            forall|k: int| 0 <= k < i ==> #[trigger] list[k] != ext@,
        decreases allowed_extensions.len() - i,
    {
        assert(list[i as int] == allowed_extensions@[i as int]@);
        if allowed_extensions[i] == wanted {
            return true;
        }
        i = i + 1;
    }
    false
}

/// Whether a scan that failed after `retry_count` earlier failures is tried
/// again.
pub open spec fn retries(retry_count: u8) -> bool {
    retry_count < MAX_RETRIES
}

/// Decides what follows from the result of a scan of `path` that had failed
/// `retry_count` times before.
///
/// A success is reported with both sets of metadata, the target path, the
/// scanner and its score. A first failure sends the task back to the queue
/// with one more failure behind it; any failure after that is reported with
/// its cause and ends the task. No kind of failure is exempt.
pub fn scan_job_outcome(path: &str, retry_count: u8, result: Result<ScanSuccessLog, ScanError>) -> (r:
    ScanJobOutcome)
    ensures
        match result {
            Ok(log) => {
                &&& r matches ScanJobOutcome::Report(entry)
                &&& entry.success
                &&& entry.log_type == LogType::Scan
                &&& entry.message@ == scanner_message(log.scanner_info)
                &&& entry.old_metadata == Some(log.old_metadata)
                &&& entry.new_metadata == Some(log.new_metadata)
                &&& entry.source_path@ == path@
                &&& entry.target_path == Some(log.target_path)
                &&& entry.acoustid_score == scanner_score(log.scanner_info)
                &&& entry.retry_count == retry_count
            },
            Err(e) => if retries(retry_count) {
                &&& r matches ScanJobOutcome::Retry(JobTask::Scan { path: again, retry_count: count })
                &&& again@ == path@
                &&& count == retry_count + 1
            } else {
                &&& r matches ScanJobOutcome::Report(entry)
                &&& !entry.success
                &&& entry.log_type == LogType::Scan
                &&& entry.message@ == e.message_spec()
                &&& entry.old_metadata is None
                &&& entry.new_metadata is None
                &&& entry.source_path@ == path@
                &&& entry.target_path is None
                &&& entry.acoustid_score is None
                &&& entry.retry_count == retry_count
            },
        },
{
    match result {
        Ok(log) => {
            let (acoustid_score, message) = match log.scanner_info {
                ScannerInfo::AcoustId { score } => (Some(score), "Scanner: AcoustId"),
                ScannerInfo::MusicbrainzSearch => (None, "Scanner: MusicBrainz Search"),
            };
            ScanJobOutcome::Report(
                LogEntry {
                    success: true,
                    log_type: LogType::Scan,
                    message: String::from_str(message),
                    old_metadata: Some(log.old_metadata),
                    new_metadata: Some(log.new_metadata),
                    source_path: String::from_str(path),
                    target_path: Some(log.target_path),
                    acoustid_score,
                    retry_count,
                },
            )
        },
        Err(e) => {
            if retry_count < MAX_RETRIES {
                ScanJobOutcome::Retry(
                    JobTask::Scan { path: String::from_str(path), retry_count: retry_count + 1 },
                )
            } else {
                ScanJobOutcome::Report(
                    LogEntry {
                        success: false,
                        log_type: LogType::Scan,
                        message: e.message(),
                        old_metadata: None,
                        new_metadata: None,
                        source_path: String::from_str(path),
                        target_path: None,
                        acoustid_score: None,
                        retry_count,
                    },
                )
            }
        },
    }
}

/// A task is sent back to the queue at most `MAX_RETRIES` times: the task
/// that a failure sends back has one more failure behind it, and a task
/// with `MAX_RETRIES` failures behind it is never sent back.
pub proof fn lemma_retry_bound(retry_count: u8)
    ensures
        retries(retry_count) ==> retry_count + 1 <= MAX_RETRIES,
        retry_count >= MAX_RETRIES ==> !retries(retry_count),
{
}

} // verus!
