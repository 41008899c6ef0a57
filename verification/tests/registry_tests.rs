use job_hub::registry::{
    ApiState, GsLogToLocustConverterError, JobKind, RETENTION_SECS,
};
use job_hub::task::{DownloadZipFileStatus, ProcessStatus, Status};

fn fresh() -> ApiState {
    ApiState::new("SECRET-REDACTED".to_string(), "projects".to_string())
}

#[test]
fn token_validation_is_exact() {
    let state = fresh();
    assert!(state.api_token_valid("SECRET-REDACTED"));
    assert!(!state.api_token_valid("SECRET-REDACTED "));
    assert!(!state.api_token_valid(""));
}

#[test]
fn ids_count_up_from_zero() {
    let mut state = fresh();
    let a = state.submit("c1".to_string(), JobKind::Process, 0);
    let b = state.submit("c1".to_string(), JobKind::Download, 0);
    let c = state.submit("c2".to_string(), JobKind::Process, 0);
    assert_eq!((a, b, c), (0, 1, 2));
}

#[test]
fn submission_is_visible_before_running() {
    let mut state = fresh();
    state.submit("c1".to_string(), JobKind::Process, 0);
    assert_eq!(
        state.task_status("0", "c1"),
        Some(Status::Process(ProcessStatus::Created))
    );
}

#[test]
fn wrong_chat_id_is_not_found() {
    let mut state = fresh();
    state.submit("c1".to_string(), JobKind::Process, 0);
    assert_eq!(state.task_status("0", "c2"), None);
    assert_eq!(state.task_status("1", "c1"), None);
    assert_eq!(state.cancel_task("0", "c2"), None);
    // Non-canonical spellings of an id never match either.
    assert_eq!(state.task_status("00", "c1"), None);
    assert_eq!(state.task_status("+0", "c1"), None);
}

#[test]
fn cancel_is_idempotent_and_owned() {
    let mut state = fresh();
    state.submit("c1".to_string(), JobKind::Process, 0);
    assert_eq!(state.cancel_task("0", "c1"), Some("0"));
    assert_eq!(state.cancel_task("0", "c1"), Some("0"));
    assert!(state.cancel_requested(0));
    assert!(!state.cancel_requested(1));
}

#[test]
fn status_writes_follow_the_state_machine() {
    let mut state = fresh();
    state.submit("c1".to_string(), JobKind::Process, 0);
    state.record_status(0, Status::Process(ProcessStatus::Running), 1);
    assert_eq!(
        state.task_status("0", "c1"),
        Some(Status::Process(ProcessStatus::Running))
    );
    state.record_status(0, Status::Process(ProcessStatus::Timeout), 2);
    assert_eq!(
        state.task_status("0", "c1"),
        Some(Status::Process(ProcessStatus::Timeout))
    );
    // A terminal status is never overwritten.
    state.record_status(0, Status::Process(ProcessStatus::Canceled), 3);
    assert_eq!(
        state.task_status("0", "c1"),
        Some(Status::Process(ProcessStatus::Timeout))
    );
    // A write of the wrong kind is refused.
    let mut other = fresh();
    other.submit("c1".to_string(), JobKind::Download, 0);
    other.record_status(0, Status::Process(ProcessStatus::Running), 1);
    assert_eq!(
        other.task_status("0", "c1"),
        Some(Status::Download(DownloadZipFileStatus::Created))
    );
}

#[test]
fn retention_keeps_then_evicts() {
    let mut state = fresh();
    state.submit("c1".to_string(), JobKind::Process, 0);
    state.record_status(0, Status::Process(ProcessStatus::Running), 5);
    state.record_status(0, Status::Process(ProcessStatus::Timeout), 10);
    // Before the retention delay the record stays.
    state.evict_task(0, 10 + RETENTION_SECS - 1);
    assert_eq!(
        state.task_status("0", "c1"),
        Some(Status::Process(ProcessStatus::Timeout))
    );
    // A record that is not terminal is never evicted.
    state.submit("c1".to_string(), JobKind::Process, 0);
    state.evict_task(1, u64::MAX);
    assert_eq!(
        state.task_status("1", "c1"),
        Some(Status::Process(ProcessStatus::Created))
    );
    // At the delay the record goes and the id reports not-found.
    state.evict_task(0, 10 + RETENTION_SECS);
    assert_eq!(state.task_status("0", "c1"), None);
}

#[test]
fn download_submission_returns_id_string() {
    let mut state = fresh();
    let id = state.run_download_task("c9".to_string(), 3);
    assert_eq!(id, "0");
    assert_eq!(
        state.task_status("0", "c9"),
        Some(Status::Download(DownloadZipFileStatus::Created))
    );
}

#[test]
fn converter_submission_requires_the_project() {
    let mut state = fresh();
    assert_eq!(
        state.run_gs_log_to_locust_converter_task("c1".to_string(), false, 0),
        Err(GsLogToLocustConverterError::NotFound)
    );
    assert_eq!(
        state.run_gs_log_to_locust_converter_task("c1".to_string(), true, 0),
        Ok("0".to_string())
    );
}

#[test]
fn converter_command_line() {
    let state = fresh();
    let dir = state.project_dir("proj");
    assert_eq!(dir, "projects/proj");
    assert_eq!(state.converter_command(), "python3");
    let args = state.converter_args(dir);
    assert_eq!(
        args,
        vec![
            "ML_ETL/GS/Logfiles/GSLogToLocustConverter.py".to_string(),
            "--directory".to_string(),
            "projects/proj".to_string(),
            "--force".to_string(),
        ]
    );
}

#[test]
fn file_decisions() {
    let state = fresh();
    assert!(state.list_files(false, None).is_err());
    assert_eq!(
        state.list_files(true, Some(vec!["a.log".to_string()])),
        Ok(vec!["a.log".to_string()])
    );
    assert!(state.list_files(true, None).is_err());
    assert!(state.get_file(false, true, None).is_err());
    assert!(state.get_file(true, false, None).is_err());
    assert_eq!(
        state.get_file(true, true, Some("text".to_string())),
        Ok("text".to_string())
    );
    assert!(state.get_file(true, true, None).is_err());
}

#[test]
fn chat_ids_are_uuid_shaped() {
    let state = fresh();
    let a = state.generate_random_chat_id();
    let b = state.generate_random_chat_id();
    assert_eq!(a.chars().count(), 36);
    for (i, c) in a.chars().enumerate() {
        if i == 8 || i == 13 || i == 18 || i == 23 {
            assert_eq!(c, '-');
        } else {
            assert!(c.is_ascii_digit() || ('a'..='f').contains(&c));
        }
    }
    assert_ne!(a, b);
}
