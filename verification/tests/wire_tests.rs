use job_hub::task::{DownloadZipFileStatus, ExitedStatus, FailOperation, ProcessStatus, Status};
use job_hub::wire::{error_body, status_json};

fn render(s: &Status) -> String {
    String::from_utf8(status_json(s)).unwrap()
}

#[test]
fn process_status_payloads() {
    assert_eq!(
        render(&Status::Process(ProcessStatus::Running)),
        "{\"type\":\"Process\",\"content\":{\"status\":\"Running\"}}"
    );
    assert_eq!(
        render(&Status::Process(ProcessStatus::Exited {
            exit_status: ExitedStatus::Success
        })),
        "{\"type\":\"Process\",\"content\":{\"status\":\"Exited\",\"content\":{\"exit_status\":\"Success\"}}}"
    );
    assert_eq!(
        render(&Status::Process(ProcessStatus::Exited {
            exit_status: ExitedStatus::Failure { code: Some(-3) }
        })),
        "{\"type\":\"Process\",\"content\":{\"status\":\"Exited\",\"content\":{\"exit_status\":\"Failure\",\"content\":{\"code\":-3}}}}"
    );
    assert_eq!(
        render(&Status::Process(ProcessStatus::Exited {
            exit_status: ExitedStatus::Failure { code: None }
        })),
        "{\"type\":\"Process\",\"content\":{\"status\":\"Exited\",\"content\":{\"exit_status\":\"Failure\",\"content\":{\"code\":null}}}}"
    );
    assert_eq!(
        render(&Status::Process(ProcessStatus::Failed {
            operation: FailOperation::AfterTimeoutOnKill
        })),
        "{\"type\":\"Process\",\"content\":{\"status\":\"Failed\",\"content\":{\"operation\":\"AfterTimeoutOnKill\"}}}"
    );
}

#[test]
fn download_status_payloads() {
    assert_eq!(
        render(&Status::Download(DownloadZipFileStatus::Timeout)),
        "{\"type\":\"Download\",\"content\":{\"status\":\"Timeout\"}}"
    );
    assert_eq!(
        render(&Status::Download(DownloadZipFileStatus::Failed {
            reason: "bad \"zip\"\n".to_string()
        })),
        "{\"type\":\"Download\",\"content\":{\"status\":\"Failed\",\"content\":{\"reason\":\"bad \\\"zip\\\"\\n\"}}}"
    );
}

#[test]
fn error_bodies_have_kind_and_msg() {
    let body = error_body("NotFound", "Not found");
    assert_eq!(
        String::from_utf8(body).unwrap(),
        "{\"type\":\"NotFound\",\"msg\":\"Not found\"}"
    );
}

#[test]
fn exit_classification() {
    assert_eq!(ExitedStatus::from_exit(true, None), ExitedStatus::Success);
    assert_eq!(
        ExitedStatus::from_exit(false, Some(2)),
        ExitedStatus::Failure { code: Some(2) }
    );
    assert_eq!(
        ProcessStatus::from_exit(false, None),
        ProcessStatus::Exited {
            exit_status: ExitedStatus::Failure { code: None }
        }
    );
}
