//! The per-job runners as event-driven state machines.
//!
//! A runner's decisions are pure, total step functions from a runner state
//! and an observed event to the next state and the status to record, so every
//! path of the protocol is checked: the unverified loop around them only
//! spawns, kills, waits, sleeps, and feeds the outcome back in.
//!
//! A process runner spawns, then races its child against a timeout and a
//! cancel signal; whichever branch is entered first owns the outcome. A
//! download runner races its pipeline against the same two signals.
use crate::task::{DownloadZipFileStatus, ExitedStatus, FailOperation, ProcessStatus, Status};
use vstd::prelude::*;

verus! {

/// Where a process runner stands.
#[derive(Debug, Clone, Copy, PartialEq, Eq, Structural)]
pub enum ProcessRunnerState {
    /// The child has not been spawned yet.
    Starting,
    /// The child is running; the runner races natural exit, the timeout and
    /// the cancel signal.
    Supervising,
    /// The timeout elapsed first; the runner is killing the child.
    KillingAfterTimeout,
    /// The cancel signal arrived first; the runner is killing the child.
    KillingAfterCancel,
    /// The kill after a timeout succeeded; the runner awaits the child.
    WaitingAfterTimeout,
    /// The kill after a cancel succeeded; the runner awaits the child.
    WaitingAfterCancel,
    /// The run is over; `status` is the terminal status that was recorded.
    Done { status: ProcessStatus },
}

/// What the unverified loop observed since the last step.
#[derive(Debug, Clone, Copy, PartialEq, Eq, Structural)]
pub enum ProcessEvent {
    /// The spawn call returned a child handle.
    SpawnSucceeded,
    /// The spawn call failed.
    SpawnFailed,
    /// The elapsed-time deadline fired before anything else.
    TimeoutElapsed,
    /// The cancel channel yielded before anything else.
    CancelReceived,
    /// The child exited naturally and waiting returned its exit status.
    ChildExited { success: bool, code: Option<i32> },
    /// A kill request succeeded.
    KillSucceeded,
    /// A kill request failed.
    KillFailed,
    /// Waiting for the child after a kill succeeded.
    WaitSucceeded,
    /// Waiting for the child failed.
    WaitFailed,
}

impl ProcessRunnerState {
    /// The job status the registry shows while the runner is in this state.
    pub open spec fn current_status(self) -> ProcessStatus {
        match self {
            ProcessRunnerState::Starting => ProcessStatus::Created,
            ProcessRunnerState::Done { status } => status,
            _ => ProcessStatus::Running,
        }
    }

    /// Which events the protocol expects in this state. Anything else is a
    /// stale signal and is ignored by the step function.
    pub open spec fn expects(self, event: ProcessEvent) -> bool {
        match self {
            ProcessRunnerState::Starting => event == ProcessEvent::SpawnSucceeded || event
                == ProcessEvent::SpawnFailed,
            ProcessRunnerState::Supervising => event == ProcessEvent::TimeoutElapsed || event
                == ProcessEvent::CancelReceived || event is ChildExited || event
                == ProcessEvent::WaitFailed,
            ProcessRunnerState::KillingAfterTimeout | ProcessRunnerState::KillingAfterCancel =>
                event == ProcessEvent::KillSucceeded || event == ProcessEvent::KillFailed,
            ProcessRunnerState::WaitingAfterTimeout | ProcessRunnerState::WaitingAfterCancel =>
                event == ProcessEvent::WaitSucceeded || event == ProcessEvent::WaitFailed,
            ProcessRunnerState::Done { .. } => false,
        }
    }

    /// How many steps remain until the runner is done, at most.
    pub open spec fn rank(self) -> nat {
        match self {
            ProcessRunnerState::Starting => 4,
            ProcessRunnerState::Supervising => 3,
            ProcessRunnerState::KillingAfterTimeout | ProcessRunnerState::KillingAfterCancel => 2,
            ProcessRunnerState::WaitingAfterTimeout | ProcessRunnerState::WaitingAfterCancel => 1,
            ProcessRunnerState::Done { .. } => 0,
        }
    }
}

/// The process runner's transition table: the next state, and the status to
/// record now when the step changes the visible status. Unexpected events
/// leave the state alone.
pub open spec fn spec_process_step(state: ProcessRunnerState, event: ProcessEvent) -> (
    ProcessRunnerState,
    Option<ProcessStatus>,
) {
    if !state.expects(event) {
        (state, None)
    } else {
        match state {
            ProcessRunnerState::Starting => match event {
                ProcessEvent::SpawnSucceeded => (
                    ProcessRunnerState::Supervising,
                    Some(ProcessStatus::Running),
                ),
                _ => {
                    let st = ProcessStatus::Failed { operation: FailOperation::OnSpawn };
                    (ProcessRunnerState::Done { status: st }, Some(st))
                },
            },
            ProcessRunnerState::Supervising => match event {
                ProcessEvent::TimeoutElapsed => (ProcessRunnerState::KillingAfterTimeout, None),
                ProcessEvent::CancelReceived => (ProcessRunnerState::KillingAfterCancel, None),
                ProcessEvent::ChildExited { success, code } => {
                    let st = ProcessStatus::Exited {
                        exit_status: crate::task::exited_of(success, code),
                    };
                    (ProcessRunnerState::Done { status: st }, Some(st))
                },
                _ => {
                    let st = ProcessStatus::Failed { operation: FailOperation::OnWait };
                    (ProcessRunnerState::Done { status: st }, Some(st))
                },
            },
            ProcessRunnerState::KillingAfterTimeout => match event {
                ProcessEvent::KillSucceeded => (ProcessRunnerState::WaitingAfterTimeout, None),
                _ => {
                    let st = ProcessStatus::Failed { operation: FailOperation::AfterTimeoutOnKill };
                    (ProcessRunnerState::Done { status: st }, Some(st))
                },
            },
            ProcessRunnerState::KillingAfterCancel => match event {
                ProcessEvent::KillSucceeded => (ProcessRunnerState::WaitingAfterCancel, None),
                _ => {
                    let st = ProcessStatus::Failed { operation: FailOperation::AfterCancelOnKill };
                    (ProcessRunnerState::Done { status: st }, Some(st))
                },
            },
            ProcessRunnerState::WaitingAfterTimeout => match event {
                ProcessEvent::WaitSucceeded => {
                    let st = ProcessStatus::Timeout;
                    (ProcessRunnerState::Done { status: st }, Some(st))
                },
                _ => {
                    let st = ProcessStatus::Failed { operation: FailOperation::AfterTimeoutOnWait };
                    (ProcessRunnerState::Done { status: st }, Some(st))
                },
            },
            ProcessRunnerState::WaitingAfterCancel => match event {
                ProcessEvent::WaitSucceeded => {
                    let st = ProcessStatus::Canceled;
                    (ProcessRunnerState::Done { status: st }, Some(st))
                },
                _ => {
                    let st = ProcessStatus::Failed { operation: FailOperation::AfterCancelOnWait };
                    (ProcessRunnerState::Done { status: st }, Some(st))
                },
            },
            ProcessRunnerState::Done { .. } => (state, None),
        }
    }
}

/// One step of the process runner.
pub fn process_step(state: ProcessRunnerState, event: ProcessEvent) -> (r: (
    ProcessRunnerState,
    Option<ProcessStatus>,
))
    ensures
        r == spec_process_step(state, event),
{
    match (state, event) {
        (ProcessRunnerState::Starting, ProcessEvent::SpawnSucceeded) => (
            ProcessRunnerState::Supervising,
            Some(ProcessStatus::Running),
        ),
        (ProcessRunnerState::Starting, ProcessEvent::SpawnFailed) => {
            let st = ProcessStatus::Failed { operation: FailOperation::OnSpawn };
            (ProcessRunnerState::Done { status: st }, Some(st))
        },
        (ProcessRunnerState::Supervising, ProcessEvent::TimeoutElapsed) => (
            ProcessRunnerState::KillingAfterTimeout,
            None,
        ),
        (ProcessRunnerState::Supervising, ProcessEvent::CancelReceived) => (
            ProcessRunnerState::KillingAfterCancel,
            None,
        ),
        (ProcessRunnerState::Supervising, ProcessEvent::ChildExited { success, code }) => {
            let st = ProcessStatus::Exited { exit_status: ExitedStatus::from_exit(success, code) };
            (ProcessRunnerState::Done { status: st }, Some(st))
        },
        (ProcessRunnerState::Supervising, ProcessEvent::WaitFailed) => {
            let st = ProcessStatus::Failed { operation: FailOperation::OnWait };
            (ProcessRunnerState::Done { status: st }, Some(st))
        },
        (ProcessRunnerState::KillingAfterTimeout, ProcessEvent::KillSucceeded) => (
            ProcessRunnerState::WaitingAfterTimeout,
            None,
        ),
        (ProcessRunnerState::KillingAfterTimeout, ProcessEvent::KillFailed) => {
            let st = ProcessStatus::Failed { operation: FailOperation::AfterTimeoutOnKill };
            (ProcessRunnerState::Done { status: st }, Some(st))
        },
        (ProcessRunnerState::KillingAfterCancel, ProcessEvent::KillSucceeded) => (
            ProcessRunnerState::WaitingAfterCancel,
            None,
        ),
        (ProcessRunnerState::KillingAfterCancel, ProcessEvent::KillFailed) => {
            let st = ProcessStatus::Failed { operation: FailOperation::AfterCancelOnKill };
            (ProcessRunnerState::Done { status: st }, Some(st))
        },
        (ProcessRunnerState::WaitingAfterTimeout, ProcessEvent::WaitSucceeded) => {
            let st = ProcessStatus::Timeout;
            (ProcessRunnerState::Done { status: st }, Some(st))
        },
        (ProcessRunnerState::WaitingAfterTimeout, ProcessEvent::WaitFailed) => {
            let st = ProcessStatus::Failed { operation: FailOperation::AfterTimeoutOnWait };
            (ProcessRunnerState::Done { status: st }, Some(st))
        },
        (ProcessRunnerState::WaitingAfterCancel, ProcessEvent::WaitSucceeded) => {
            let st = ProcessStatus::Canceled;
            (ProcessRunnerState::Done { status: st }, Some(st))
        },
        (ProcessRunnerState::WaitingAfterCancel, ProcessEvent::WaitFailed) => {
            let st = ProcessStatus::Failed { operation: FailOperation::AfterCancelOnWait };
            (ProcessRunnerState::Done { status: st }, Some(st))
        },
        _ => (state, None),
    }
}

/// Every status the step function records is a write the lifecycle state
/// machine allows from the status shown before the step, and afterwards the
/// state shows exactly the recorded status. Feeding every runner step into
/// the registry therefore produces a valid status walk.
pub proof fn lemma_process_step_writes_allowed(state: ProcessRunnerState, event: ProcessEvent)
    ensures
        ({
            let (next, write) = spec_process_step(state, event);
            &&& write is Some ==> state.current_status().step_allowed(write.unwrap())
            &&& write is Some ==> next.current_status() == write.unwrap()
            &&& write is None ==> next.current_status() == state.current_status()
        }),
{
}

/// A finished runner never moves again and never writes again.
pub proof fn lemma_process_done_absorbing(status: ProcessStatus, event: ProcessEvent)
    ensures
        spec_process_step(ProcessRunnerState::Done { status }, event) == (
            ProcessRunnerState::Done { status },
            None::<ProcessStatus>,
        ),
{
}

/// Every expected event strictly lowers the runner's rank, so the protocol
/// reaches a terminal status after at most four observed events: a runner
/// never hangs in the model, whatever order signals arrive in.
pub proof fn lemma_process_step_progress(state: ProcessRunnerState, event: ProcessEvent)
    requires
        state.expects(event),
    ensures
        spec_process_step(state, event).0.rank() < state.rank(),
{
}

/// Once the timeout branch was entered first, the run ends in `Timeout` or a
/// timeout-attributed failure: natural exit can no longer claim the outcome,
/// even when the timeout was zero and the child would have exited at once,
/// and no cancel attribution is mixed in.
pub open spec fn in_timeout_protocol(state: ProcessRunnerState) -> bool {
    ||| state == ProcessRunnerState::KillingAfterTimeout
    ||| state == ProcessRunnerState::WaitingAfterTimeout
}

/// The statuses a timeout-owned run may end in.
pub open spec fn is_timeout_outcome(status: ProcessStatus) -> bool {
    ||| status == ProcessStatus::Timeout
    ||| status == (ProcessStatus::Failed { operation: FailOperation::AfterTimeoutOnKill })
    ||| status == (ProcessStatus::Failed { operation: FailOperation::AfterTimeoutOnWait })
}

pub proof fn lemma_timeout_owns_outcome(state: ProcessRunnerState, event: ProcessEvent)
    requires
        in_timeout_protocol(state),
    ensures
        ({
            let (next, write) = spec_process_step(state, event);
            &&& in_timeout_protocol(next) || (next matches ProcessRunnerState::Done { status }
                && is_timeout_outcome(status))
            &&& write is Some ==> is_timeout_outcome(write.unwrap())
        }),
{
}

/// Once the cancel branch was entered first, the run ends in `Canceled` or a
/// cancel-attributed failure; no timeout attribution is mixed in. A cancel
/// that arrived before the spawn completed is simply the cancel branch
/// entered straight from `Supervising`, so the record still reaches a
/// terminal status.
pub open spec fn in_cancel_protocol(state: ProcessRunnerState) -> bool {
    ||| state == ProcessRunnerState::KillingAfterCancel
    ||| state == ProcessRunnerState::WaitingAfterCancel
}

/// The statuses a cancel-owned run may end in.
pub open spec fn is_cancel_outcome(status: ProcessStatus) -> bool {
    ||| status == ProcessStatus::Canceled
    ||| status == (ProcessStatus::Failed { operation: FailOperation::AfterCancelOnKill })
    ||| status == (ProcessStatus::Failed { operation: FailOperation::AfterCancelOnWait })
}

pub proof fn lemma_cancel_owns_outcome(state: ProcessRunnerState, event: ProcessEvent)
    requires
        in_cancel_protocol(state),
    ensures
        ({
            let (next, write) = spec_process_step(state, event);
            &&& in_cancel_protocol(next) || (next matches ProcessRunnerState::Done { status }
                && is_cancel_outcome(status))
            &&& write is Some ==> is_cancel_outcome(write.unwrap())
        }),
{
}

/// The states a process runner passes through on a sequence of observed
/// events: the start state, then the state after each event in turn.
pub open spec fn process_trace(events: Seq<ProcessEvent>) -> Seq<ProcessRunnerState>
    decreases events.len(),
{
    if events.len() == 0 {
        seq![ProcessRunnerState::Starting]
    } else {
        let prev = process_trace(events.drop_last());
        prev.push(spec_process_step(prev.last(), events.last()).0)
    }
}

/// Whatever events arrive and in whatever order, the statuses a process
/// runner shows over a run are a valid lifecycle walk: they start at
/// `Created`, and every change is a write the status state machine allows.
pub proof fn lemma_process_trace_is_valid_walk(events: Seq<ProcessEvent>)
    ensures
        Status::is_valid_walk(
            process_trace(events).map(|i: int, s: ProcessRunnerState| Status::Process(s.current_status())),
        ),
    decreases events.len(),
{
    let trace = process_trace(events);
    let walk = trace.map(|i: int, s: ProcessRunnerState| Status::Process(s.current_status()));
    if events.len() == 0 {
        assert(trace =~= seq![ProcessRunnerState::Starting]);
        assert(walk[0] == Status::Process(ProcessStatus::Created));
    } else {
        lemma_process_trace_is_valid_walk(events.drop_last());
        let prev = process_trace(events.drop_last());
        let prev_walk = prev.map(
            |i: int, s: ProcessRunnerState| Status::Process(s.current_status()),
        );
        assert(walk.drop_last() =~= prev_walk);
        lemma_process_step_writes_allowed(prev.last(), events.last());
        assert(walk[walk.len() - 1] == walk[walk.len() - 2] || walk[walk.len()
            - 2].step_allowed(walk[walk.len() - 1]));
        assert forall|i: int|
            0 < i < walk.len() implies walk[i] == walk[i - 1] || #[trigger] walk[i
            - 1].step_allowed(walk[i]) by {
            if i < walk.len() - 1 {
                assert(prev_walk[i] == prev_walk[i - 1] || prev_walk[i - 1].step_allowed(
                    prev_walk[i],
                ));
            }
        }
    }
}

/// The states a download runner passes through on a sequence of observed
/// events.
pub open spec fn download_trace(events: Seq<DownloadEvent>) -> Seq<DownloadRunnerState>
    decreases events.len(),
{
    if events.len() == 0 {
        seq![DownloadRunnerState::Starting]
    } else {
        let prev = download_trace(events.drop_last());
        prev.push(spec_download_step(prev.last(), events.last()).0)
    }
}

/// The download runner's counterpart: every run's statuses are a valid
/// lifecycle walk.
pub proof fn lemma_download_trace_is_valid_walk(events: Seq<DownloadEvent>)
    ensures
        Status::is_valid_walk(
            download_trace(events).map(
                |i: int, s: DownloadRunnerState| Status::Download(s.current_status()),
            ),
        ),
    decreases events.len(),
{
    let trace = download_trace(events);
    let walk = trace.map(|i: int, s: DownloadRunnerState| Status::Download(s.current_status()));
    if events.len() == 0 {
        assert(trace =~= seq![DownloadRunnerState::Starting]);
        assert(walk[0] == Status::Download(DownloadZipFileStatus::Created));
    } else {
        lemma_download_trace_is_valid_walk(events.drop_last());
        let prev = download_trace(events.drop_last());
        let prev_walk = prev.map(
            |i: int, s: DownloadRunnerState| Status::Download(s.current_status()),
        );
        assert(walk.drop_last() =~= prev_walk);
        lemma_download_step_writes_allowed(prev.last(), events.last());
        assert(walk[walk.len() - 1] == walk[walk.len() - 2] || walk[walk.len()
            - 2].step_allowed(walk[walk.len() - 1]));
        assert forall|i: int|
            0 < i < walk.len() implies walk[i] == walk[i - 1] || #[trigger] walk[i
            - 1].step_allowed(walk[i]) by {
            if i < walk.len() - 1 {
                assert(prev_walk[i] == prev_walk[i - 1] || prev_walk[i - 1].step_allowed(
                    prev_walk[i],
                ));
            }
        }
    }
}

/// Where a download runner stands.
#[derive(Debug, Clone, PartialEq, Eq)]
pub enum DownloadRunnerState {
    /// The pipeline has not started yet.
    Starting,
    /// The pipeline runs, racing the timeout and the cancel signal.
    Fetching,
    /// The run is over; `status` is the terminal status that was recorded.
    Done { status: DownloadZipFileStatus },
}

/// What the unverified download loop observed.
#[derive(Debug, Clone, PartialEq, Eq)]
pub enum DownloadEvent {
    /// The runner was scheduled and the race begins.
    Started,
    /// The elapsed-time deadline fired before the pipeline finished.
    TimeoutElapsed,
    /// The cancel channel yielded before the pipeline finished.
    CancelReceived,
    /// The pipeline finished: every entry was extracted.
    PipelineSucceeded,
    /// The pipeline failed with a reason to report.
    PipelineFailed { reason: String },
}

impl DownloadRunnerState {
    /// The job status the registry shows while the runner is in this state.
    pub open spec fn current_status(self) -> DownloadZipFileStatus {
        match self {
            DownloadRunnerState::Starting => DownloadZipFileStatus::Created,
            DownloadRunnerState::Fetching => DownloadZipFileStatus::Running,
            DownloadRunnerState::Done { status } => status,
        }
    }

    /// Which events the protocol expects in this state.
    pub open spec fn expects(self, event: DownloadEvent) -> bool {
        match self {
            DownloadRunnerState::Starting => event == DownloadEvent::Started,
            DownloadRunnerState::Fetching => event != DownloadEvent::Started,
            DownloadRunnerState::Done { .. } => false,
        }
    }
}

/// The download runner's transition table: `Started` enters `Running`, then
/// whichever of the timeout, the cancel signal and the pipeline outcome is
/// observed first decides the terminal status.
pub open spec fn spec_download_step(state: DownloadRunnerState, event: DownloadEvent) -> (
    DownloadRunnerState,
    Option<DownloadZipFileStatus>,
) {
    if !state.expects(event) {
        (state, None)
    } else {
        match state {
            DownloadRunnerState::Starting => (
                DownloadRunnerState::Fetching,
                Some(DownloadZipFileStatus::Running),
            ),
            DownloadRunnerState::Fetching => {
                let st = match event {
                    DownloadEvent::TimeoutElapsed => DownloadZipFileStatus::Timeout,
                    DownloadEvent::CancelReceived => DownloadZipFileStatus::Canceled,
                    DownloadEvent::PipelineSucceeded => DownloadZipFileStatus::Exited,
                    DownloadEvent::PipelineFailed { reason } => DownloadZipFileStatus::Failed {
                        reason,
                    },
                    DownloadEvent::Started => DownloadZipFileStatus::Running,
                };
                (DownloadRunnerState::Done { status: st }, Some(st))
            },
            DownloadRunnerState::Done { .. } => (state, None),
        }
    }
}

/// One step of the download runner.
pub fn download_step(state: DownloadRunnerState, event: DownloadEvent) -> (r: (
    DownloadRunnerState,
    Option<DownloadZipFileStatus>,
))
    ensures
        r == spec_download_step(state, event),
{
    match (state, event) {
        (DownloadRunnerState::Starting, DownloadEvent::Started) => (
            DownloadRunnerState::Fetching,
            Some(DownloadZipFileStatus::Running),
        ),
        (DownloadRunnerState::Fetching, DownloadEvent::TimeoutElapsed) => (
            DownloadRunnerState::Done { status: DownloadZipFileStatus::Timeout },
            Some(DownloadZipFileStatus::Timeout),
        ),
        (DownloadRunnerState::Fetching, DownloadEvent::CancelReceived) => (
            DownloadRunnerState::Done { status: DownloadZipFileStatus::Canceled },
            Some(DownloadZipFileStatus::Canceled),
        ),
        (DownloadRunnerState::Fetching, DownloadEvent::PipelineSucceeded) => (
            DownloadRunnerState::Done { status: DownloadZipFileStatus::Exited },
            Some(DownloadZipFileStatus::Exited),
        ),
        (DownloadRunnerState::Fetching, DownloadEvent::PipelineFailed { reason }) => {
            let recorded = DownloadZipFileStatus::Failed { reason: reason.clone() };
            (DownloadRunnerState::Done { status: DownloadZipFileStatus::Failed { reason } }, Some(recorded))
        },
        (state, _) => (state, None),
    }
}

/// The download runner's writes are allowed by the lifecycle state machine,
/// and the state always shows the last recorded status.
pub proof fn lemma_download_step_writes_allowed(state: DownloadRunnerState, event: DownloadEvent)
    ensures
        ({
            let (next, write) = spec_download_step(state, event);
            &&& write is Some ==> state.current_status().step_allowed(write.unwrap())
            &&& write is Some ==> next.current_status() == write.unwrap()
            &&& write is None ==> next.current_status() == state.current_status()
        }),
{
}

/// A finished download runner never moves again.
pub proof fn lemma_download_done_absorbing(status: DownloadZipFileStatus, event: DownloadEvent)
    ensures
        spec_download_step(DownloadRunnerState::Done { status }, event) == (
            DownloadRunnerState::Done { status },
            None::<DownloadZipFileStatus>,
        ),
{
}

} // verus!
