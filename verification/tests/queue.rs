use tagbrain::error::{MissingField, ScanError};
use tagbrain::interface::log::LogType;
use tagbrain::interface::metadata::Metadata;
use tagbrain::job::fix_job::{fix_job_outcome, removes_source, FixJobRes};
use tagbrain::job::scan_job::{
    is_allowed_extension, scan_job_outcome, ScanJobOutcome, ScanSuccessLog, ScannerInfo,
    MAX_RETRIES,
};
use tagbrain::job::{CommandEffect, Dispatcher, JobCommand, JobTask, Queue, MAX_RUNNING};

fn scan(path: &str, retry_count: u8) -> JobTask {
    JobTask::Scan { path: path.to_string(), retry_count }
}

fn path_of(task: &JobTask) -> &str {
    match task {
        JobTask::Scan { path, .. } => path,
        JobTask::Fix { path, .. } => path,
    }
}

fn paths(tasks: &[JobTask]) -> Vec<&str> {
    tasks.iter().map(path_of).collect()
}

#[test]
fn queue_hands_out_the_newest_task_first() {
    let mut queue = Queue::new();
    assert_eq!(queue.len(), 0);
    assert!(queue.dequeue().is_none());
    queue.enqueue(scan("a", 0));
    queue.enqueue(scan("b", 0));
    queue.enqueue(scan("c", 0));
    assert_eq!(queue.len(), 3);
    assert_eq!(paths(&queue.tasks()), vec!["a", "b", "c"]);
    assert_eq!(path_of(&queue.dequeue().unwrap()), "c");
    assert_eq!(path_of(&queue.dequeue().unwrap()), "b");
    queue.enqueue(scan("d", 1));
    assert_eq!(path_of(&queue.dequeue().unwrap()), "d");
    assert_eq!(path_of(&queue.dequeue().unwrap()), "a");
    assert!(queue.dequeue().is_none());
    assert!(queue.dequeue().is_none());
}

#[test]
fn enqueue_then_dequeue_leaves_the_queue_as_it_was() {
    let mut queue = Queue::new();
    queue.enqueue(scan("a", 0));
    queue.enqueue(scan("b", 0));
    queue.enqueue(scan("x", 0));
    let task = queue.dequeue().unwrap();
    assert_eq!(path_of(&task), "x");
    assert_eq!(paths(&queue.tasks()), vec!["a", "b"]);
}

#[test]
fn clear_empties_the_queue() {
    let mut queue = Queue::new();
    queue.clear();
    assert_eq!(queue.len(), 0);
    queue.enqueue(scan("a", 0));
    queue.enqueue(scan("b", 0));
    queue.clear();
    assert_eq!(queue.len(), 0);
    assert!(queue.dequeue().is_none());
    queue.enqueue(scan("c", 0));
    assert_eq!(path_of(&queue.dequeue().unwrap()), "c");
}

#[test]
fn one_task_runs_at_a_time() {
    assert_eq!(MAX_RUNNING, 1);
    let mut dispatcher = Dispatcher::new();
    assert_eq!(dispatcher.running_count(), 0);
    assert!(dispatcher.dispatch().is_none());
    assert!(matches!(dispatcher.enqueue(scan("a", 0)), CommandEffect::Enqueued));
    dispatcher.enqueue(scan("b", 0));
    dispatcher.enqueue(scan("c", 0));
    let first = dispatcher.dispatch().unwrap();
    assert_eq!(path_of(&first), "c");
    assert_eq!(dispatcher.running_count(), 1);
    for _ in 0..3 {
        assert!(dispatcher.dispatch().is_none());
        assert_eq!(dispatcher.running_count(), 1);
    }
    dispatcher.finished();
    assert_eq!(dispatcher.running_count(), 0);
    let second = dispatcher.dispatch().unwrap();
    assert_eq!(path_of(&second), "b");
    assert_eq!(dispatcher.running_count(), 1);
    dispatcher.finished();
    assert_eq!(path_of(&dispatcher.dispatch().unwrap()), "a");
    dispatcher.finished();
    assert!(dispatcher.dispatch().is_none());
    assert_eq!(dispatcher.running_count(), 0);
}

#[test]
fn the_task_that_waits_for_the_permit_keeps_its_turn() {
    let mut dispatcher = Dispatcher::new();
    dispatcher.enqueue(scan("a", 0));
    dispatcher.enqueue(scan("b", 0));
    assert_eq!(path_of(&dispatcher.dispatch().unwrap()), "b");
    // "a" is taken from the queue while "b" runs.
    assert!(dispatcher.dispatch().is_none());
    assert_eq!(dispatcher.info().tasks.len(), 0);
    // A retry of "b" comes in behind it.
    dispatcher.enqueue(scan("b", 1));
    dispatcher.finished();
    assert_eq!(path_of(&dispatcher.dispatch().unwrap()), "a");
    dispatcher.finished();
    let retry = dispatcher.dispatch().unwrap();
    assert!(matches!(retry, JobTask::Scan { ref path, retry_count: 1 } if path == "b"));
}

#[test]
fn clearing_spares_the_running_and_the_waiting_task() {
    let mut dispatcher = Dispatcher::new();
    dispatcher.enqueue(scan("a", 0));
    dispatcher.enqueue(scan("b", 0));
    dispatcher.enqueue(scan("c", 0));
    assert_eq!(path_of(&dispatcher.dispatch().unwrap()), "c");
    assert!(dispatcher.dispatch().is_none());
    assert!(matches!(dispatcher.handle(JobCommand::ClearQueue), CommandEffect::Cleared));
    assert_eq!(dispatcher.running_count(), 1);
    assert_eq!(dispatcher.info().tasks.len(), 0);
    dispatcher.finished();
    assert_eq!(path_of(&dispatcher.dispatch().unwrap()), "b");
    dispatcher.finished();
    assert!(dispatcher.dispatch().is_none());
}

#[test]
fn finishing_without_a_running_task_changes_nothing() {
    let mut dispatcher = Dispatcher::new();
    dispatcher.finished();
    assert_eq!(dispatcher.running_count(), 0);
    dispatcher.enqueue(scan("a", 0));
    dispatcher.finished();
    assert_eq!(path_of(&dispatcher.dispatch().unwrap()), "a");
}

#[test]
fn commands_become_tasks() {
    let mut dispatcher = Dispatcher::new();
    let effect = dispatcher.handle(JobCommand::Scan { path: "s".to_string(), retry_count: 0 });
    assert!(matches!(effect, CommandEffect::Enqueued));
    let effect = dispatcher.handle(JobCommand::Fix {
        target_path: "t".to_string(),
        release_id: "rel".to_string(),
        recording_id: "rec".to_string(),
    });
    assert!(matches!(effect, CommandEffect::Enqueued));
    let effect = dispatcher.handle(JobCommand::FixFailed {
        source_path: "f".to_string(),
        release_id: "rel2".to_string(),
        recording_id: "rec2".to_string(),
    });
    assert!(matches!(effect, CommandEffect::Enqueued));
    assert!(matches!(dispatcher.handle(JobCommand::ScanAll), CommandEffect::WalkSourceDir));
    let info = match dispatcher.handle(JobCommand::GetQueueInfo) {
        CommandEffect::Info(info) => info,
        other => panic!("{:?}", other),
    };
    assert_eq!(info.running_count, 0);
    assert_eq!(paths(&info.tasks), vec!["s", "t", "f"]);
    assert!(matches!(&info.tasks[0], JobTask::Scan { retry_count: 0, .. }));
    match &info.tasks[1] {
        JobTask::Fix { release_id, recording_id, copy_to_target, .. } => {
            assert_eq!(release_id, "rel");
            assert_eq!(recording_id, "rec");
            assert!(!copy_to_target);
        }
        other => panic!("{:?}", other),
    }
    match &info.tasks[2] {
        JobTask::Fix { release_id, recording_id, copy_to_target, .. } => {
            assert_eq!(release_id, "rel2");
            assert_eq!(recording_id, "rec2");
            assert!(copy_to_target);
        }
        other => panic!("{:?}", other),
    }
    let _ = dispatcher.dispatch();
    let info = dispatcher.info();
    assert_eq!(info.running_count, 1);
    assert_eq!(paths(&info.tasks), vec!["s", "t"]);
}

#[test]
fn a_scan_that_fails_is_retried_once() {
    assert_eq!(MAX_RETRIES, 1);
    let mut dispatcher = Dispatcher::new();
    dispatcher.handle(JobCommand::Scan { path: "/source/a.mp3".to_string(), retry_count: 0 });
    let (path, retry_count) = match dispatcher.dispatch().unwrap() {
        JobTask::Scan { path, retry_count } => (path, retry_count),
        other => panic!("{:?}", other),
    };
    assert_eq!(retry_count, 0);
    let retry = match scan_job_outcome(&path, retry_count, Err(ScanError::NoMatchFound)) {
        ScanJobOutcome::Retry(task) => task,
        other => panic!("{:?}", other),
    };
    assert!(matches!(retry, JobTask::Scan { ref path, retry_count: 1 } if path == "/source/a.mp3"));
    dispatcher.enqueue(retry);
    dispatcher.finished();
    let (path, retry_count) = match dispatcher.dispatch().unwrap() {
        JobTask::Scan { path, retry_count } => (path, retry_count),
        other => panic!("{:?}", other),
    };
    assert_eq!(retry_count, 1);
    let entry = match scan_job_outcome(&path, retry_count, Err(ScanError::NoMatchFound)) {
        ScanJobOutcome::Report(entry) => entry,
        other => panic!("{:?}", other),
    };
    dispatcher.finished();
    assert!(!entry.success);
    assert_eq!(entry.log_type, LogType::Scan);
    assert_eq!(entry.message, "Failed to find best match");
    assert_eq!(entry.source_path, "/source/a.mp3");
    assert_eq!(entry.retry_count, 1);
    assert!(entry.old_metadata.is_none());
    assert!(entry.new_metadata.is_none());
    assert!(entry.target_path.is_none());
    assert!(entry.acoustid_score.is_none());
    assert!(dispatcher.dispatch().is_none());
    assert_eq!(dispatcher.info().tasks.len(), 0);
}

#[test]
fn every_kind_of_failure_is_retried_and_then_reported() {
    let errors = [
        (ScanError::ExternalToolError, "Failed to calc fingerprint"),
        (ScanError::NoMatch, "No acoustid match found."),
        (ScanError::NoTitleTag, "No title tag"),
        (ScanError::CatalogRequestError, "Catalog request failed"),
        (ScanError::NoMatchFound, "Failed to find best match"),
        (ScanError::InconsistentCatalogData, "No media found"),
        (ScanError::IncompleteMetadata(MissingField::Artist), "artist not found"),
        (ScanError::IncompleteMetadata(MissingField::Album), "album not found"),
        (ScanError::IncompleteMetadata(MissingField::Title), "title not found"),
        (ScanError::AlreadyExists, "File already exists! Skipping..."),
        (ScanError::FileError, "Failed to read or write file"),
    ];
    for (error, message) in errors {
        assert_eq!(error.message(), message);
        match scan_job_outcome("p", 0, Err(error)) {
            ScanJobOutcome::Retry(JobTask::Scan { path, retry_count }) => {
                assert_eq!(path, "p");
                assert_eq!(retry_count, 1);
            }
            other => panic!("{:?}", other),
        }
        for retry_count in [1u8, 2, 200, u8::MAX] {
            match scan_job_outcome("p", retry_count, Err(error)) {
                ScanJobOutcome::Report(entry) => {
                    assert!(!entry.success);
                    assert_eq!(entry.message, message);
                    assert_eq!(entry.retry_count, retry_count);
                }
                other => panic!("{:?}", other),
            }
        }
    }
}

fn success(info: ScannerInfo) -> ScanSuccessLog {
    ScanSuccessLog {
        old_metadata: Metadata { title: Some("old".to_string()), ..Metadata::default() },
        new_metadata: Metadata { title: Some("new".to_string()), ..Metadata::default() },
        scanner_info: info,
        target_path: "/target/a/b/c.mp3".to_string(),
    }
}

#[test]
fn a_success_is_reported_with_its_scanner() {
    let entry = match scan_job_outcome("/s/c.mp3", 1, Ok(success(ScannerInfo::AcoustId { score: 912_345 }))) {
        ScanJobOutcome::Report(entry) => entry,
        other => panic!("{:?}", other),
    };
    assert!(entry.success);
    assert_eq!(entry.log_type, LogType::Scan);
    assert_eq!(entry.message, "Scanner: AcoustId");
    assert_eq!(entry.acoustid_score, Some(912_345));
    assert_eq!(entry.source_path, "/s/c.mp3");
    assert_eq!(entry.target_path.as_deref(), Some("/target/a/b/c.mp3"));
    assert_eq!(entry.old_metadata.unwrap().title.as_deref(), Some("old"));
    assert_eq!(entry.new_metadata.unwrap().title.as_deref(), Some("new"));
    assert_eq!(entry.retry_count, 1);

    let entry = match scan_job_outcome("/s/c.mp3", 0, Ok(success(ScannerInfo::MusicbrainzSearch))) {
        ScanJobOutcome::Report(entry) => entry,
        other => panic!("{:?}", other),
    };
    assert!(entry.success);
    assert_eq!(entry.message, "Scanner: MusicBrainz Search");
    assert_eq!(entry.acoustid_score, None);
    assert_eq!(entry.retry_count, 0);
}

#[test]
fn only_allowed_extensions_are_scanned() {
    let allowed: Vec<String> = ["flac", "mp3", "m4a"].iter().map(|s| s.to_string()).collect();
    assert!(is_allowed_extension("flac", &allowed));
    assert!(is_allowed_extension("mp3", &allowed));
    assert!(is_allowed_extension("m4a", &allowed));
    assert!(!is_allowed_extension("MP3", &allowed));
    assert!(!is_allowed_extension("mp", &allowed));
    assert!(!is_allowed_extension("mp33", &allowed));
    assert!(!is_allowed_extension("", &allowed));
    assert!(!is_allowed_extension("txt", &allowed));
    assert!(!is_allowed_extension("mp3", &Vec::new()));
}

#[test]
fn log_types_have_their_numbers() {
    assert_eq!(LogType::Scan.code(), 0);
    assert_eq!(LogType::Fix.code(), 1);
}

#[test]
fn a_fix_is_reported_and_never_retried() {
    let res = FixJobRes {
        old_metadata: Metadata { title: Some("old".to_string()), ..Metadata::default() },
        new_metadata: Metadata { title: Some("new".to_string()), ..Metadata::default() },
        target_path: "/target/x.mp3".to_string(),
    };
    let entry = fix_job_outcome("/source/x.mp3", Ok(res));
    assert!(entry.success);
    assert_eq!(entry.log_type, LogType::Fix);
    assert_eq!(entry.message, "");
    assert_eq!(entry.source_path, "/source/x.mp3");
    assert_eq!(entry.target_path.as_deref(), Some("/target/x.mp3"));
    assert_eq!(entry.old_metadata.unwrap().title.as_deref(), Some("old"));
    assert_eq!(entry.new_metadata.unwrap().title.as_deref(), Some("new"));
    assert_eq!(entry.acoustid_score, None);
    assert_eq!(entry.retry_count, 0);

    let entry = fix_job_outcome("/source/x.mp3", Err(ScanError::InconsistentCatalogData));
    assert!(!entry.success);
    assert_eq!(entry.log_type, LogType::Fix);
    assert_eq!(entry.message, "No media found");
    assert!(entry.target_path.is_none());
    assert!(entry.old_metadata.is_none());
}

#[test]
fn the_source_of_a_fix_is_removed_unless_it_is_a_kept_original() {
    assert!(removes_source(false, false));
    assert!(removes_source(false, true));
    assert!(removes_source(true, true));
    assert!(!removes_source(true, false));
}
