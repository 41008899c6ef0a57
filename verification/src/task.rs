//! Job statuses and the lifecycle state machine.
//!
//! A job is either a `Process` job (a spawned OS child process) or a
//! `Download` job (a download-and-unzip pipeline). Each kind has its own
//! status enum; both walk `Created -> Running -> terminal`, except that a
//! process whose spawn fails goes straight from `Created` to
//! `Failed { OnSpawn }`. A terminal status is never left.
use vstd::prelude::*;

verus! {

/// Which step of running an OS process failed.
#[derive(Debug, Clone, Copy, PartialEq, Eq, Structural)]
pub enum FailOperation {
    /// Spawning the OS process failed.
    OnSpawn,
    /// Killing the OS process after its timeout elapsed failed.
    AfterTimeoutOnKill,
    /// Waiting for the OS process after a timeout-triggered kill failed.
    AfterTimeoutOnWait,
    /// Killing the OS process after a cancel signal failed.
    AfterCancelOnKill,
    /// Waiting for the OS process after a cancel-triggered kill failed.
    AfterCancelOnWait,
    /// Waiting for the OS process to exit naturally failed.
    OnWait,
}

/// How a process job's child exited.
#[derive(Debug, Clone, Copy, PartialEq, Eq, Structural)]
pub enum ExitedStatus {
    /// The child exited with success.
    Success,
    /// The child exited with failure, with its exit code when one exists.
    Failure { code: Option<i32> },
}

/// Status of a process job.
#[derive(Debug, Clone, Copy, PartialEq, Eq, Structural)]
pub enum ProcessStatus {
    /// Submitted; the runner has not started the child yet.
    Created,
    /// A step of the runner failed; `operation` says which.
    Failed { operation: FailOperation },
    /// The child was spawned and is being supervised.
    Running,
    /// A cancel signal arrived and the child was killed.
    Canceled,
    /// The child exited naturally.
    Exited { exit_status: ExitedStatus },
    /// The timeout elapsed and the child was killed.
    Timeout,
}

/// Status of a download-and-unzip job.
#[derive(Debug, PartialEq, Eq)]
pub enum DownloadZipFileStatus {
    /// Submitted; the pipeline has not started yet.
    Created,
    /// The pipeline failed; `reason` is a human-readable description.
    Failed { reason: String },
    /// The pipeline is running.
    Running,
    /// A cancel signal arrived before the pipeline finished.
    Canceled,
    /// The pipeline finished: every entry was extracted.
    Exited,
    /// The timeout elapsed before the pipeline finished.
    Timeout,
}

/// Status of a job of either kind.
#[derive(Debug, PartialEq, Eq)]
pub enum Status {
    Download(DownloadZipFileStatus),
    Process(ProcessStatus),
}

impl Clone for DownloadZipFileStatus {
    /// A clone is the same status, failure reason included.
    fn clone(&self) -> (r: Self)
        ensures
            r == *self,
    {
        match self {
            DownloadZipFileStatus::Created => DownloadZipFileStatus::Created,
            DownloadZipFileStatus::Failed { reason } => DownloadZipFileStatus::Failed {
                reason: reason.clone(),
            },
            DownloadZipFileStatus::Running => DownloadZipFileStatus::Running,
            DownloadZipFileStatus::Canceled => DownloadZipFileStatus::Canceled,
            DownloadZipFileStatus::Exited => DownloadZipFileStatus::Exited,
            DownloadZipFileStatus::Timeout => DownloadZipFileStatus::Timeout,
        }
    }
}

impl Clone for Status {
    /// A clone is the same status.
    fn clone(&self) -> (r: Self)
        ensures
            r == *self,
    {
        match self {
            Status::Download(d) => Status::Download(d.clone()),
            Status::Process(p) => Status::Process(*p),
        }
    }
}

impl ProcessStatus {
    /// A terminal status is never left.
    pub open spec fn is_terminal(self) -> bool {
        match self {
            ProcessStatus::Created => false,
            ProcessStatus::Running => false,
            _ => true,
        }
    }

    /// The status writes the runner may perform, as the lifecycle state
    /// machine allows them: `Created -> Running -> terminal`, with
    /// `Created -> Failed { OnSpawn }` as the only shortcut.
    pub open spec fn step_allowed(self, to: ProcessStatus) -> bool {
        match self {
            ProcessStatus::Created => to == ProcessStatus::Running || to
                == (ProcessStatus::Failed { operation: FailOperation::OnSpawn }),
            ProcessStatus::Running => to.is_terminal(),
            _ => false,
        }
    }
}

impl DownloadZipFileStatus {
    /// A terminal status is never left.
    pub open spec fn is_terminal(self) -> bool {
        match self {
            DownloadZipFileStatus::Created => false,
            DownloadZipFileStatus::Running => false,
            _ => true,
        }
    }

    /// The status writes the runner may perform: `Created -> Running ->
    /// terminal`.
    pub open spec fn step_allowed(self, to: DownloadZipFileStatus) -> bool {
        match self {
            DownloadZipFileStatus::Created => to == DownloadZipFileStatus::Running,
            DownloadZipFileStatus::Running => to.is_terminal(),
            _ => false,
        }
    }
}

impl Status {
    /// A terminal status is never left.
    pub open spec fn is_terminal(self) -> bool {
        match self {
            Status::Download(s) => s.is_terminal(),
            Status::Process(s) => s.is_terminal(),
        }
    }

    /// A status write never changes the kind of a job.
    pub open spec fn step_allowed(self, to: Status) -> bool {
        match (self, to) {
            (Status::Download(a), Status::Download(b)) => a.step_allowed(b),
            (Status::Process(a), Status::Process(b)) => a.step_allowed(b),
            _ => false,
        }
    }

    /// Whether a whole observed sequence of statuses is a valid walk: it
    /// starts at `Created`, and each later entry either repeats the previous
    /// one (the status was read twice) or is a write the state machine
    /// allows.
    pub open spec fn is_valid_walk(walk: Seq<Status>) -> bool {
        &&& walk.len() > 0
        &&& (walk[0] == Status::Process(ProcessStatus::Created) || walk[0] == Status::Download(
            DownloadZipFileStatus::Created,
        ))
        &&& forall|i: int|
            0 < i < walk.len() ==> walk[i] == walk[i - 1] || #[trigger] walk[i - 1].step_allowed(
                walk[i],
            )
    }
}

/// No status write leaves a terminal status: in any valid walk, everything
/// after a terminal status is that same status. This is the sense in which a
/// terminal status is entered at most once and never changes.
pub proof fn lemma_terminal_is_final(walk: Seq<Status>, i: int, j: int)
    requires
        Status::is_valid_walk(walk),
        0 <= i <= j < walk.len(),
        walk[i].is_terminal(),
    ensures
        walk[j] == walk[i],
    decreases j - i,
{
    if i < j {
        lemma_terminal_is_final(walk, i, j - 1);
        assert(walk[j] == walk[j - 1] || walk[j - 1].step_allowed(walk[j]));
    }
}

/// `Created` is never a step target, so once a walk has left it, it never
/// reads `Created` again.
pub proof fn lemma_created_never_reentered(walk: Seq<Status>, i: int, k: int)
    requires
        Status::is_valid_walk(walk),
        0 <= i <= k < walk.len(),
        walk[i] == Status::Process(ProcessStatus::Running) || walk[i] == Status::Download(
            DownloadZipFileStatus::Running,
        ),
    ensures
        walk[k] != Status::Process(ProcessStatus::Created),
        walk[k] != Status::Download(DownloadZipFileStatus::Created),
    decreases k - i,
{
    if i < k {
        lemma_created_never_reentered(walk, i, k - 1);
        assert(walk[k] == walk[k - 1] || walk[k - 1].step_allowed(walk[k]));
    }
}

/// `Running` is entered exactly once in a valid walk: between two reads of
/// `Running`, the status never changes. Together with
/// `lemma_terminal_is_final` this makes the whole lifecycle monotonic.
pub proof fn lemma_running_entered_once(walk: Seq<Status>, i: int, j: int)
    requires
        Status::is_valid_walk(walk),
        0 <= i < j < walk.len(),
        walk[i] == Status::Process(ProcessStatus::Running) || walk[i] == Status::Download(
            DownloadZipFileStatus::Running,
        ),
        walk[j] == walk[i],
    ensures
        forall|k: int| i <= k <= j ==> walk[k] == walk[i],
    decreases j - i,
{
    lemma_created_never_reentered(walk, i, j - 1);
    assert(walk[j] == walk[j - 1] || walk[j - 1].step_allowed(walk[j]));
    if walk[j - 1].step_allowed(walk[j]) {
        assert(false);
    }
    if i < j - 1 {
        lemma_running_entered_once(walk, i, j - 1);
    }
}

impl ExitedStatus {
    /// How a natural exit is classified: success when the exit status
    /// reports success, otherwise failure carrying the exit code when the OS
    /// reports one.
    pub fn from_exit(success: bool, code: Option<i32>) -> (r: ExitedStatus)
        ensures
            success ==> r == ExitedStatus::Success,
            !success ==> r == (ExitedStatus::Failure { code }),
    {
        if success {
            ExitedStatus::Success
        } else {
            ExitedStatus::Failure { code }
        }
    }
}

impl ProcessStatus {
    /// The terminal status a natural exit produces.
    pub fn from_exit(success: bool, code: Option<i32>) -> (r: ProcessStatus)
        ensures
            r == (ProcessStatus::Exited { exit_status: exited_of(success, code) }),
            r.is_terminal(),
    {
        ProcessStatus::Exited { exit_status: ExitedStatus::from_exit(success, code) }
    }
}

/// The exit classification of `ExitedStatus::from_exit`, as a spec value.
pub open spec fn exited_of(success: bool, code: Option<i32>) -> ExitedStatus {
    if success {
        ExitedStatus::Success
    } else {
        ExitedStatus::Failure { code }
    }
}

} // verus!
