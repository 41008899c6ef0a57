use job_hub::runner::{
    download_step, process_step, DownloadEvent, DownloadRunnerState, ProcessEvent,
    ProcessRunnerState,
};
use job_hub::task::{DownloadZipFileStatus, ExitedStatus, FailOperation, ProcessStatus};

#[test]
fn happy_path_process_run() {
    let (s, w) = process_step(ProcessRunnerState::Starting, ProcessEvent::SpawnSucceeded);
    assert_eq!(s, ProcessRunnerState::Supervising);
    assert_eq!(w, Some(ProcessStatus::Running));
    let (s, w) = process_step(
        s,
        ProcessEvent::ChildExited {
            success: true,
            code: Some(0),
        },
    );
    let expected = ProcessStatus::Exited {
        exit_status: ExitedStatus::Success,
    };
    assert_eq!(s, ProcessRunnerState::Done { status: expected });
    assert_eq!(w, Some(expected));
}

#[test]
fn child_exits_before_any_output() {
    // A child may exit before producing a byte: the terminal status is the
    // exit classification, reached in one step, with no other writes.
    let (s, _) = process_step(ProcessRunnerState::Starting, ProcessEvent::SpawnSucceeded);
    let (s, w) = process_step(
        s,
        ProcessEvent::ChildExited {
            success: false,
            code: Some(7),
        },
    );
    let expected = ProcessStatus::Exited {
        exit_status: ExitedStatus::Failure { code: Some(7) },
    };
    assert_eq!(s, ProcessRunnerState::Done { status: expected });
    assert_eq!(w, Some(expected));
}

#[test]
fn spawn_failure_is_terminal_at_once() {
    let (s, w) = process_step(ProcessRunnerState::Starting, ProcessEvent::SpawnFailed);
    let expected = ProcessStatus::Failed {
        operation: FailOperation::OnSpawn,
    };
    assert_eq!(s, ProcessRunnerState::Done { status: expected });
    assert_eq!(w, Some(expected));
}

#[test]
fn timeout_kills_then_waits() {
    let (s, _) = process_step(ProcessRunnerState::Starting, ProcessEvent::SpawnSucceeded);
    let (s, w) = process_step(s, ProcessEvent::TimeoutElapsed);
    assert_eq!(s, ProcessRunnerState::KillingAfterTimeout);
    assert_eq!(w, None);
    let (s, w) = process_step(s, ProcessEvent::KillSucceeded);
    assert_eq!(s, ProcessRunnerState::WaitingAfterTimeout);
    assert_eq!(w, None);
    let (s, w) = process_step(s, ProcessEvent::WaitSucceeded);
    assert_eq!(
        s,
        ProcessRunnerState::Done {
            status: ProcessStatus::Timeout
        }
    );
    assert_eq!(w, Some(ProcessStatus::Timeout));
}

#[test]
fn timeout_zero_still_wins_over_natural_exit() {
    // With a zero timeout the deadline fires first: once the timeout branch
    // is entered, a natural exit can no longer claim the outcome.
    let (s, _) = process_step(ProcessRunnerState::Starting, ProcessEvent::SpawnSucceeded);
    let (s, _) = process_step(s, ProcessEvent::TimeoutElapsed);
    let (s, w) = process_step(
        s,
        ProcessEvent::ChildExited {
            success: true,
            code: Some(0),
        },
    );
    // A stale exit report is not an expected event in the kill phase.
    assert_eq!(s, ProcessRunnerState::KillingAfterTimeout);
    assert_eq!(w, None);
    let (s, _) = process_step(s, ProcessEvent::KillSucceeded);
    let (s, w) = process_step(s, ProcessEvent::WaitSucceeded);
    assert_eq!(
        s,
        ProcessRunnerState::Done {
            status: ProcessStatus::Timeout
        }
    );
    assert_eq!(w, Some(ProcessStatus::Timeout));
}

#[test]
fn cancel_during_run_reaches_canceled() {
    let (s, _) = process_step(ProcessRunnerState::Starting, ProcessEvent::SpawnSucceeded);
    let (s, _) = process_step(s, ProcessEvent::CancelReceived);
    assert_eq!(s, ProcessRunnerState::KillingAfterCancel);
    let (s, _) = process_step(s, ProcessEvent::KillSucceeded);
    let (s, w) = process_step(s, ProcessEvent::WaitSucceeded);
    assert_eq!(
        s,
        ProcessRunnerState::Done {
            status: ProcessStatus::Canceled
        }
    );
    assert_eq!(w, Some(ProcessStatus::Canceled));
}

#[test]
fn cancel_failure_sites_are_attributed() {
    let (s, _) = process_step(ProcessRunnerState::Starting, ProcessEvent::SpawnSucceeded);
    let (s, _) = process_step(s, ProcessEvent::CancelReceived);
    let (s, w) = process_step(s, ProcessEvent::KillFailed);
    let expected = ProcessStatus::Failed {
        operation: FailOperation::AfterCancelOnKill,
    };
    assert_eq!(s, ProcessRunnerState::Done { status: expected });
    assert_eq!(w, Some(expected));
}

#[test]
fn wait_failures_after_kills_are_attributed() {
    let (s, _) = process_step(ProcessRunnerState::Starting, ProcessEvent::SpawnSucceeded);
    let (s, _) = process_step(s, ProcessEvent::TimeoutElapsed);
    let (s, _) = process_step(s, ProcessEvent::KillSucceeded);
    let (_, w) = process_step(s, ProcessEvent::WaitFailed);
    assert_eq!(
        w,
        Some(ProcessStatus::Failed {
            operation: FailOperation::AfterTimeoutOnWait
        })
    );
    let (s, _) = process_step(ProcessRunnerState::Starting, ProcessEvent::SpawnSucceeded);
    let (s, _) = process_step(s, ProcessEvent::CancelReceived);
    let (s, _) = process_step(s, ProcessEvent::KillSucceeded);
    let (_, w) = process_step(s, ProcessEvent::WaitFailed);
    assert_eq!(
        w,
        Some(ProcessStatus::Failed {
            operation: FailOperation::AfterCancelOnWait
        })
    );
    let (s, _) = process_step(ProcessRunnerState::Starting, ProcessEvent::SpawnSucceeded);
    let (s, _) = process_step(s, ProcessEvent::TimeoutElapsed);
    let (_, w) = process_step(s, ProcessEvent::KillFailed);
    assert_eq!(
        w,
        Some(ProcessStatus::Failed {
            operation: FailOperation::AfterTimeoutOnKill
        })
    );
}

#[test]
fn wait_failure_during_supervision() {
    let (s, _) = process_step(ProcessRunnerState::Starting, ProcessEvent::SpawnSucceeded);
    let (_, w) = process_step(s, ProcessEvent::WaitFailed);
    assert_eq!(
        w,
        Some(ProcessStatus::Failed {
            operation: FailOperation::OnWait
        })
    );
}

#[test]
fn done_ignores_every_event() {
    let done = ProcessRunnerState::Done {
        status: ProcessStatus::Timeout,
    };
    for event in [
        ProcessEvent::SpawnSucceeded,
        ProcessEvent::CancelReceived,
        ProcessEvent::WaitFailed,
    ] {
        let (s, w) = process_step(done, event);
        assert_eq!(s, done);
        assert_eq!(w, None);
    }
}

#[test]
fn download_happy_path() {
    let (s, w) = download_step(DownloadRunnerState::Starting, DownloadEvent::Started);
    assert_eq!(s, DownloadRunnerState::Fetching);
    assert_eq!(w, Some(DownloadZipFileStatus::Running));
    let (s, w) = download_step(s, DownloadEvent::PipelineSucceeded);
    assert_eq!(
        s,
        DownloadRunnerState::Done {
            status: DownloadZipFileStatus::Exited
        }
    );
    assert_eq!(w, Some(DownloadZipFileStatus::Exited));
}

#[test]
fn download_timeout_cancel_and_failure() {
    let fetching = DownloadRunnerState::Fetching;
    let (_, w) = download_step(fetching.clone(), DownloadEvent::TimeoutElapsed);
    assert_eq!(w, Some(DownloadZipFileStatus::Timeout));
    let (_, w) = download_step(fetching.clone(), DownloadEvent::CancelReceived);
    assert_eq!(w, Some(DownloadZipFileStatus::Canceled));
    let (_, w) = download_step(
        fetching,
        DownloadEvent::PipelineFailed {
            reason: "no route".to_string(),
        },
    );
    assert_eq!(
        w,
        Some(DownloadZipFileStatus::Failed {
            reason: "no route".to_string()
        })
    );
}
