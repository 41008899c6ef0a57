//! The job registry: the in-memory table of job records.
//!
//! The registry owns every record. It allocates monotonically increasing ids,
//! binds each job to the chat id that submitted it, answers status and cancel
//! requests only for the owning chat (a mismatch is indistinguishable from a
//! missing id), accepts status writes from the runner only when the lifecycle
//! state machine allows them, and evicts a record once the retention delay
//! has passed after its terminal status.
//!
//! Time is logical here: callers pass the current time in seconds. The
//! unverified adapter serialises access (one writer at a time) and supplies
//! the clock, the task spawning and the filesystem around these functions.
use crate::codec::{dec_digits, id_string, parse_dec_u32, parse_u32_dec, str_eq};
use crate::codec::lemma_dec_digits_canonical;
use crate::task::{DownloadZipFileStatus, ProcessStatus, Status};
use vstd::prelude::*;
use vstd::string::StringSliceAdditionalSpecFns;
use vstd::string::StringExecFns;
use vstd::utf8::encode_utf8;

verus! {

/// Jobs are evicted this many seconds after their terminal status is
/// recorded.
pub const RETENTION_SECS: u64 = 900;

/// Default elapsed-time deadline for both runner kinds, in seconds.
pub const DEFAULT_TIMEOUT_SECS: u64 = 600;

/// Which kind of job a submission creates.
#[derive(Debug, Clone, Copy, PartialEq, Eq, Structural)]
pub enum JobKind {
    Process,
    Download,
}

impl JobKind {
    /// The status a fresh record of this kind starts in.
    pub open spec fn created_status(self) -> Status {
        match self {
            JobKind::Process => Status::Process(ProcessStatus::Created),
            JobKind::Download => Status::Download(DownloadZipFileStatus::Created),
        }
    }
}

/// Submitting a converter job fails when the project directory is missing.
#[derive(Debug, Clone, Copy, PartialEq, Eq, Structural)]
pub enum GsLogToLocustConverterError {
    /// The project was not found.
    NotFound,
}

/// Listing a project's files fails when the project is missing or reading
/// the directory fails.
#[derive(Debug, Clone, Copy, PartialEq, Eq, Structural)]
pub enum ListFilesError {
    /// The project was not found.
    NotFound,
    /// Reading the directory failed.
    IoError,
}

/// Reading a project file fails when the project or the file is missing or
/// reading fails.
#[derive(Debug, Clone, Copy, PartialEq, Eq, Structural)]
pub enum GetFileError {
    /// The project or the file was not found.
    NotFound,
    /// Reading the file failed.
    IoError,
}

/// One job record.
pub struct JobEntry {
    /// The job id, unique per registry lifetime.
    pub id: u32,
    /// The owning chat id; immutable after creation.
    pub chat_id: String,
    /// The current status; the runner is its only writer.
    pub status: Status,
    /// Whether a cancel signal has been sent. Duplicate cancels coalesce
    /// into this one flag, like a capacity-one signal channel.
    pub cancel_requested: bool,
    /// Logical time of submission.
    pub created_at: u64,
    /// Logical time the terminal status was recorded, once there is one.
    pub terminal_at: Option<u64>,
}

/// The registry: the shared state behind the public API.
pub struct ApiState {
    /// The shared secret presented as `api_key`.
    pub api_token: String,
    /// All live job records, in submission order.
    pub tasks: Vec<JobEntry>,
    /// The id the next submission receives.
    pub current_id: u32,
    /// The directory project folders live under.
    pub projects_dir: String,
}

impl ApiState {
    /// Records are well formed: ids are strictly increasing in submission
    /// order and all below the next id to hand out, and a record has a
    /// terminal timestamp exactly when its status is terminal.
    pub open spec fn wf(self) -> bool {
        &&& forall|k: int, l: int|
            0 <= k < l < self.tasks@.len() ==> #[trigger] self.tasks@[k].id < #[trigger] self.tasks@[l].id
        &&& forall|k: int| 0 <= k < self.tasks@.len() ==> #[trigger] self.tasks@[k].id < self.current_id
        &&& forall|k: int|
            0 <= k < self.tasks@.len() ==> (#[trigger] self.tasks@[k].terminal_at is Some
                <==> self.tasks@[k].status.is_terminal())
    }

    /// The records, for contracts.
    pub open spec fn records(self) -> Seq<JobEntry> {
        self.tasks@
    }

    /// The id the next submission receives, for contracts.
    pub open spec fn next_id(self) -> u32 {
        self.current_id
    }

    /// The configured token, for contracts.
    pub open spec fn token(self) -> Seq<char> {
        self.api_token@
    }

    /// The configured projects directory, for contracts.
    pub open spec fn projects_dir_spec(self) -> Seq<char> {
        self.projects_dir@
    }

    /// Whether some record has this id.
    pub open spec fn has_id(self, id: u32) -> bool {
        exists|k: int| 0 <= k < self.tasks@.len() && #[trigger] self.tasks@[k].id == id
    }

    /// The index of the record with this id.
    pub open spec fn idx_of(self, id: u32) -> int {
        choose|k: int| 0 <= k < self.tasks@.len() && #[trigger] self.tasks@[k].id == id
    }

    /// The record with this id.
    pub open spec fn entry_of(self, id: u32) -> JobEntry {
        self.tasks@[self.idx_of(id)]
    }

    /// Whether the job exists and belongs to this chat. This is the only
    /// authorisation rule: every lookup keyed on `(id, chat_id)` goes
    /// through it.
    pub open spec fn owned(self, id: u32, chat: Seq<char>) -> bool {
        self.has_id(id) && self.entry_of(id).chat_id@ == chat
    }

    /// What a `(id, chat_id)` status lookup returns: the id string must be a
    /// canonical decimal id, the record must exist and the chat must own it;
    /// in every other case the result is `None`, so a wrong chat id is
    /// indistinguishable from an absent id.
    pub open spec fn spec_lookup_status(self, id: Seq<u8>, chat: Seq<char>) -> Option<Status> {
        match parse_dec_u32(id) {
            Some(n) => if self.owned(n, chat) {
                Some(self.entry_of(n).status)
            } else {
                None
            },
            None => None,
        }
    }

    /// A fresh registry: no records, ids starting at zero.
    pub fn new(api_token: String, projects_dir: String) -> (r: ApiState)
        ensures
            r.records() =~= Seq::<JobEntry>::empty(),
            r.next_id() == 0,
            r.token() == api_token@,
            r.projects_dir_spec() == projects_dir@,
            r.wf(),
    {
        ApiState { api_token, tasks: Vec::new(), current_id: 0, projects_dir }
    }

    /// Whether a presented key equals the configured token, by string
    /// comparison.
    pub fn api_token_valid(&self, api_token: &str) -> (r: bool)
        ensures
            r == (api_token@ == self.token()),
    {
        str_eq(api_token, self.api_token.as_str())
    }

    /// The project directory path: `<projects_dir>/<project_name>`.
    pub fn project_dir(&self, project_name: &str) -> (r: String)
        ensures
            r@ == self.projects_dir_spec() + "/"@ + project_name@,
    {
        let r = self.projects_dir.clone().concat("/").concat(project_name);
        proof {
            assert(r@ =~= self.projects_dir_spec() + "/"@ + project_name@);
        }
        r
    }

    /// Hand out the current id and advance the counter, wrapping as an
    /// unsigned counter does.
    fn increment_current_task_id(&mut self) -> (id: u32)
        ensures
            id == old(self).next_id(),
            final(self).next_id() == (if old(self).next_id() == u32::MAX {
                0u32
            } else {
                (old(self).next_id() + 1) as u32
            }),
            final(self).records() == old(self).records(),
            final(self).token() == old(self).token(),
            final(self).projects_dir_spec() == old(self).projects_dir_spec(),
    {
        let id = self.current_id;
        self.current_id = if self.current_id == u32::MAX {
            0
        } else {
            self.current_id + 1
        };
        id
    }

    /// Create a record for a new job: allocate the id, bind the chat id,
    /// start in the kind's `Created` status with no cancel request, and
    /// return the id. The record is visible as soon as this returns, before
    /// any runner writes `Running`.
    pub fn submit(&mut self, chat_id: String, kind: JobKind, now: u64) -> (id: u32)
        ensures
            spec_submitted(*old(self), *final(self), chat_id@, kind, now, id),
            old(self).wf() && old(self).next_id() < u32::MAX ==> final(self).wf(),
    {
        let id = self.increment_current_task_id();
        let status = match kind {
            JobKind::Process => Status::Process(ProcessStatus::Created),
            JobKind::Download => Status::Download(DownloadZipFileStatus::Created),
        };
        let entry = JobEntry {
            id,
            chat_id,
            status,
            cancel_requested: false,
            created_at: now,
            terminal_at: None,
        };
        self.tasks.push(entry);
        proof {
            assert(final(self).records() =~= old(self).records().push(
                final(self).records().last(),
            ));
        }
        id
    }

    /// Find the index of the record with this id.
    fn find_index(&self, id: u32) -> (r: Option<usize>)
        requires
            self.wf(),
        ensures
            match r {
                Some(i) => self.has_id(id) && i == self.idx_of(id) && i < self.records().len()
                    && self.records()[i as int].id == id,
                None => !self.has_id(id),
            },
    {
        let n = self.tasks.len();
        let mut i: usize = 0;
        while i < n
            invariant
                self.wf(),
                i <= n,
                n == self.records().len(),
                forall|k: int| 0 <= k < i ==> #[trigger] self.records()[k].id != id,
            decreases n - i,
        {
            if self.tasks[i].id == id {
                proof {
                    assert(self.has_id(id));
                    let j = self.idx_of(id);
                    assert(0 <= j < self.records().len() && self.records()[j].id == id);
                    if j < i as int {
                        assert(false);
                    }
                    if j > i as int {
                        assert(self.records()[i as int].id < self.records()[j].id);
                        assert(false);
                    }
                }
                return Some(i);
            }
            i = i + 1;
        }
        proof {
            if self.has_id(id) {
                let j = self.idx_of(id);
                assert(self.records()[j].id != id);
            }
        }
        None
    }

    /// Send the (coalesced) cancel signal for a job, if this chat owns it.
    /// Returns the id back on success and `None` when the id is unknown or
    /// owned by another chat, the two being indistinguishable. Cancelling is
    /// idempotent and never waits for the runner.
    pub fn cancel_task<'a>(&mut self, id: &'a str, chat_id: &str) -> (r: Option<&'a str>)
        requires
            old(self).wf(),
        ensures
            final(self).wf(),
            r is Some <==> (parse_dec_u32(id.spec_bytes()) matches Some(n) && old(self).owned(
                n,
                chat_id@,
            )),
            r is Some ==> r.unwrap()@ == id@,
            match parse_dec_u32(id.spec_bytes()) {
                Some(n) => if old(self).owned(n, chat_id@) {
                    final(self).records() == old(self).records().update(
                        old(self).idx_of(n),
                        JobEntry { cancel_requested: true, ..old(self).entry_of(n) },
                    )
                } else {
                    final(self).records() == old(self).records()
                },
                None => final(self).records() == old(self).records(),
            },
            final(self).next_id() == old(self).next_id(),
            final(self).token() == old(self).token(),
            final(self).projects_dir_spec() == old(self).projects_dir_spec(),
    {
        let parsed = parse_u32_dec(id.as_bytes());
        match parsed {
            None => None,
            Some(n) => {
                match self.find_index(n) {
                    None => None,
                    Some(i) => {
                        if str_eq(self.tasks[i].chat_id.as_str(), chat_id) {
                            let old_entry = &self.tasks[i];
                            let entry = JobEntry {
                                id: old_entry.id,
                                chat_id: old_entry.chat_id.clone(),
                                status: old_entry.status.clone(),
                                cancel_requested: true,
                                created_at: old_entry.created_at,
                                terminal_at: old_entry.terminal_at,
                            };
                            self.tasks[i] = entry;
                            proof {
                                assert(final(self).records() =~= old(self).records().update(
                                    old(self).idx_of(n),
                                    JobEntry { cancel_requested: true, ..old(self).entry_of(n) },
                                ));
                                lemma_same_ids_wf(*old(self), *self);
                            }
                            Some(id)
                        } else {
                            None
                        }
                    },
                }
            },
        }
    }

    /// The status of a job, if this chat owns it; `None` when the id is
    /// unknown or owned by another chat, the two being indistinguishable.
    pub fn task_status(&self, id: &str, chat_id: &str) -> (r: Option<Status>)
        requires
            self.wf(),
        ensures
            r == self.spec_lookup_status(id.spec_bytes(), chat_id@),
    {
        let parsed = parse_u32_dec(id.as_bytes());
        match parsed {
            None => None,
            Some(n) => {
                match self.find_index(n) {
                    None => None,
                    Some(i) => {
                        if str_eq(self.tasks[i].chat_id.as_str(), chat_id) {
                            Some(self.tasks[i].status.clone())
                        } else {
                            None
                        }
                    },
                }
            },
        }
    }

    /// Whether a cancel signal has been sent for this job. The runner's loop
    /// polls this as its cancel channel.
    pub fn cancel_requested(&self, id: u32) -> (r: bool)
        requires
            self.wf(),
        ensures
            r == (self.has_id(id) && self.entry_of(id).cancel_requested),
    {
        match self.find_index(id) {
            Some(i) => self.tasks[i].cancel_requested,
            None => false,
        }
    }

    /// Record a status write from the runner. The write is applied only when
    /// the record exists and the lifecycle state machine allows the step, so
    /// a terminal status can never be overwritten; recording a terminal
    /// status stamps the eviction clock.
    pub fn record_status(&mut self, id: u32, status: Status, now: u64)
        requires
            old(self).wf(),
        ensures
            final(self).wf(),
            if old(self).has_id(id) && old(self).entry_of(id).status.step_allowed(status) {
                final(self).records() == old(self).records().update(
                    old(self).idx_of(id),
                    JobEntry {
                        status,
                        terminal_at: if status.is_terminal() {
                            Some(now)
                        } else {
                            None::<u64>
                        },
                        ..old(self).entry_of(id)
                    },
                )
            } else {
                final(self).records() == old(self).records()
            },
            final(self).next_id() == old(self).next_id(),
            final(self).token() == old(self).token(),
            final(self).projects_dir_spec() == old(self).projects_dir_spec(),
    {
        match self.find_index(id) {
            None => {},
            Some(i) => {
                let allowed = status_step_allowed(&self.tasks[i].status, &status);
                if allowed {
                    let terminal = status_is_terminal(&status);
                    let old_entry = &self.tasks[i];
                    let entry = JobEntry {
                        id: old_entry.id,
                        chat_id: old_entry.chat_id.clone(),
                        status,
                        cancel_requested: old_entry.cancel_requested,
                        created_at: old_entry.created_at,
                        terminal_at: if terminal {
                            Some(now)
                        } else {
                            None
                        },
                    };
                    self.tasks[i] = entry;
                    proof {
                        assert(final(self).records() =~= old(self).records().update(
                            old(self).idx_of(id),
                            final(self).records()[old(self).idx_of(id)],
                        ));
                        lemma_same_ids_wf(*old(self), *self);
                    }
                }
            },
        }
    }

    /// Evict a job whose retention delay has passed: the record is removed
    /// exactly when it exists, is terminal, and `now` is at least the
    /// retention delay after its terminal status was recorded. A record that
    /// is still running is never evicted, so eviction cannot race the
    /// runner's final write.
    pub fn evict_task(&mut self, id: u32, now: u64)
        requires
            old(self).wf(),
        ensures
            final(self).wf(),
            if old(self).has_id(id) && (old(self).entry_of(id).terminal_at matches Some(t)
                && t + RETENTION_SECS <= now) {
                final(self).records() == old(self).records().remove(old(self).idx_of(id))
            } else {
                final(self).records() == old(self).records()
            },
            final(self).next_id() == old(self).next_id(),
            final(self).token() == old(self).token(),
            final(self).projects_dir_spec() == old(self).projects_dir_spec(),
    {
        match self.find_index(id) {
            None => {},
            Some(i) => {
                let due = match self.tasks[i].terminal_at {
                    Some(t) => t <= u64::MAX - RETENTION_SECS && t + RETENTION_SECS <= now,
                    None => false,
                };
                if due {
                    self.tasks.remove(i);
                    proof {
                        lemma_remove_wf(*old(self), *self, old(self).idx_of(id));
                    }
                }
            },
        }
    }
}

/// What one submission does to the registry: one record is appended holding
/// the allocated id, the submitting chat, the kind's `Created` status, no
/// cancel request and the submission time; the id counter advances by one,
/// wrapping as an unsigned counter; nothing else changes.
pub open spec fn spec_submitted(
    pre: ApiState,
    post: ApiState,
    chat: Seq<char>,
    kind: JobKind,
    now: u64,
    id: u32,
) -> bool {
    &&& id == pre.next_id()
    &&& post.records() == pre.records().push(post.records().last())
    &&& post.records().last().id == id
    &&& post.records().last().chat_id@ == chat
    &&& post.records().last().status == kind.created_status()
    &&& post.records().last().cancel_requested == false
    &&& post.records().last().created_at == now
    &&& post.records().last().terminal_at is None
    &&& post.next_id() == (if id == u32::MAX {
        0u32
    } else {
        (id + 1) as u32
    })
    &&& post.token() == pre.token()
    &&& post.projects_dir_spec() == pre.projects_dir_spec()
}

/// The textual shape of a hyphenated uuid: 36 characters, hyphens at the
/// four fixed positions, lowercase hex digits everywhere else. This holds of
/// every generated chat id, whatever its random bits.
pub open spec fn is_hyphenated_uuid(s: Seq<char>) -> bool {
    &&& s.len() == 36
    &&& forall|i: int|
        #![auto]
        0 <= i < 36 ==> (if i == 8 || i == 13 || i == 18 || i == 23 {
            s[i] == '-'
        } else {
            ('0' <= s[i] <= '9') || ('a' <= s[i] <= 'f')
        })
}

impl ApiState {
    /// Relies on `uuid::Uuid::new_v4` and its display form: a fresh random
    /// v4 uuid rendered hyphenated and lowercase, so every outcome has the
    /// `is_hyphenated_uuid` shape. Nothing is assumed about which id comes
    /// back. As with allocation, the call aborts if the operating system's
    /// randomness source fails.
    #[verifier::external_body]
    pub fn generate_random_chat_id(&self) -> (r: String)
        ensures
            is_hyphenated_uuid(r@),
    {
        uuid::Uuid::new_v4().to_string()
    }

    /// Submit a download-and-unzip job and return its id as a string. The
    /// caller has already created the project directory; a failure there is
    /// reported by the caller without reaching the registry.
    pub fn run_download_task(&mut self, chat_id: String, now: u64) -> (id: String)
        ensures
            spec_submitted(
                *old(self),
                *final(self),
                chat_id@,
                JobKind::Download,
                now,
                old(self).next_id(),
            ),
            encode_utf8(id@) == dec_digits(old(self).next_id() as nat),
            old(self).wf() && old(self).next_id() < u32::MAX ==> final(self).wf(),
    {
        let id = self.submit(chat_id, JobKind::Download, now);
        id_string(id)
    }

    /// Submit a converter job: rejected with `NotFound` when the project
    /// directory does not exist (the caller checked), otherwise a process
    /// job whose id is returned as a string.
    pub fn run_gs_log_to_locust_converter_task(
        &mut self,
        chat_id: String,
        project_exists: bool,
        now: u64,
    ) -> (r: Result<String, GsLogToLocustConverterError>)
        ensures
            !project_exists ==> r == Err::<String, GsLogToLocustConverterError>(
                GsLogToLocustConverterError::NotFound,
            ) && *final(self) == *old(self),
            project_exists ==> r is Ok && spec_submitted(
                *old(self),
                *final(self),
                chat_id@,
                JobKind::Process,
                now,
                old(self).next_id(),
            ) && encode_utf8(r.unwrap()@) == dec_digits(old(self).next_id() as nat),
            old(self).wf() && old(self).next_id() < u32::MAX ==> final(self).wf(),
    {
        if !project_exists {
            return Err(GsLogToLocustConverterError::NotFound);
        }
        let id = self.submit(chat_id, JobKind::Process, now);
        Ok(id_string(id))
    }

    /// The command the converter job runs.
    pub fn converter_command(&self) -> (r: String)
        ensures
            r@ == "python3"@,
    {
        String::from_str("python3")
    }

    /// The arguments the converter job runs with: the converter script, then
    /// the project directory to convert in place, forced.
    pub fn converter_args(&self, project_dir: String) -> (r: Vec<String>)
        ensures
            r@.len() == 4,
            r@[0]@ == "ML_ETL/GS/Logfiles/GSLogToLocustConverter.py"@,
            r@[1]@ == "--directory"@,
            r@[2]@ == project_dir@,
            r@[3]@ == "--force"@,
    {
        let mut args: Vec<String> = Vec::new();
        args.push(String::from_str("ML_ETL/GS/Logfiles/GSLogToLocustConverter.py"));
        args.push(String::from_str("--directory"));
        args.push(project_dir);
        args.push(String::from_str("--force"));
        args
    }

    /// The files of a project directory: `NotFound` when the project does
    /// not exist, the directory's entries when reading them succeeded, and
    /// `IoError` otherwise. The caller did the filesystem work and passes
    /// the outcomes in.
    pub fn list_files(&self, project_exists: bool, read_dir_result: Option<Vec<String>>) -> (r:
        Result<Vec<String>, ListFilesError>)
        ensures
            !project_exists ==> r == Err::<Vec<String>, ListFilesError>(ListFilesError::NotFound),
            project_exists ==> match read_dir_result {
                Some(files) => r == Ok::<Vec<String>, ListFilesError>(files),
                None => r == Err::<Vec<String>, ListFilesError>(ListFilesError::IoError),
            },
    {
        if !project_exists {
            return Err(ListFilesError::NotFound);
        }
        match read_dir_result {
            Some(files) => Ok(files),
            None => Err(ListFilesError::IoError),
        }
    }

    /// The text of a project file: `NotFound` when the project or the file
    /// does not exist, the contents when reading succeeded, and `IoError`
    /// otherwise. The caller did the filesystem work and passes the
    /// outcomes in.
    pub fn get_file(
        &self,
        project_exists: bool,
        file_exists: bool,
        read_result: Option<String>,
    ) -> (r: Result<String, GetFileError>)
        ensures
            !project_exists || !file_exists ==> r == Err::<String, GetFileError>(
                GetFileError::NotFound,
            ),
            project_exists && file_exists ==> match read_result {
                Some(text) => r == Ok::<String, GetFileError>(text),
                None => r == Err::<String, GetFileError>(GetFileError::IoError),
            },
    {
        if !project_exists || !file_exists {
            return Err(GetFileError::NotFound);
        }
        match read_result {
            Some(text) => Ok(text),
            None => Err(GetFileError::IoError),
        }
    }
}

/// Job ids increase strictly in submission order: in a well-formed registry
/// every earlier record carries a smaller id than every later one, and every
/// id is below the id the next submission receives.
pub proof fn lemma_ids_strictly_increase(s: ApiState, k: int, l: int)
    requires
        s.wf(),
        0 <= k < l < s.records().len(),
    ensures
        s.records()[k].id < s.records()[l].id,
        s.records()[l].id < s.next_id(),
{
}

/// A lookup with a wrong chat id returns exactly what a lookup of an absent
/// id returns: `None`. The two are indistinguishable at this boundary, and
/// the route layer renders `None` as one fixed not-found response, so the
/// responses are bit-identical as well.
pub proof fn lemma_wrong_chat_indistinguishable(
    s: ApiState,
    id: Seq<u8>,
    chat: Seq<char>,
    absent: Seq<u8>,
)
    requires
        match parse_dec_u32(id) {
            Some(n) => !s.owned(n, chat),
            None => true,
        },
        match parse_dec_u32(absent) {
            Some(n) => !s.has_id(n),
            None => true,
        },
    ensures
        s.spec_lookup_status(id, chat) == s.spec_lookup_status(absent, chat),
        s.spec_lookup_status(id, chat) is None,
{
}

/// A job is visible exactly to the chat that owns it: the status lookup with
/// the owning chat id finds the record's status, and the same lookup with
/// any other chat id reports not-found.
pub proof fn lemma_job_visible_only_to_owner(
    s: ApiState,
    id: u32,
    owner: Seq<char>,
    other: Seq<char>,
)
    requires
        s.wf(),
        s.has_id(id),
        s.entry_of(id).chat_id@ == owner,
        other != owner,
    ensures
        s.spec_lookup_status(dec_digits(id as nat), owner) == Some(s.entry_of(id).status),
        s.spec_lookup_status(dec_digits(id as nat), other) is None,
{
    lemma_dec_digits_canonical(id as nat);
}

/// Retention: a completed job is visible with its terminal status until the
/// retention delay has passed, and a lookup after eviction reports
/// not-found. `pre` is the registry before the eviction, `post` after it.
pub proof fn lemma_retention(pre: ApiState, post: ApiState, id: u32, chat: Seq<char>, now: u64)
    requires
        pre.wf(),
        pre.has_id(id),
        pre.entry_of(id).chat_id@ == chat,
        (pre.entry_of(id).terminal_at matches Some(t) && t + RETENTION_SECS <= now),
        post.records() == pre.records().remove(pre.idx_of(id)),
    ensures
        pre.spec_lookup_status(dec_digits(id as nat), chat) == Some(pre.entry_of(id).status),
        pre.entry_of(id).status.is_terminal(),
        post.spec_lookup_status(dec_digits(id as nat), chat) is None,
{
    lemma_dec_digits_canonical(id as nat);
    let i = pre.idx_of(id);
    assert(pre.records()[i].terminal_at is Some);
    if post.has_id(id) {
        let k = post.idx_of(id);
        assert(post.records()[k].id == id);
        if k < i {
            assert(post.records()[k] == pre.records()[k]);
            assert(pre.records()[k].id < pre.records()[i].id);
        } else {
            assert(post.records()[k] == pre.records()[k + 1]);
            assert(pre.records()[i].id < pre.records()[k + 1].id);
        }
        assert(false);
    }
}

/// Exec mirror of `Status::step_allowed`.
fn status_step_allowed(from: &Status, to: &Status) -> (r: bool)
    ensures
        r == from.step_allowed(*to),
{
    match (from, to) {
        (Status::Process(ProcessStatus::Created), Status::Process(ProcessStatus::Running)) => true,
        (
            Status::Process(ProcessStatus::Created),
            Status::Process(ProcessStatus::Failed { operation }),
        ) => matches!(operation, crate::task::FailOperation::OnSpawn),
        (Status::Process(ProcessStatus::Running), Status::Process(p)) => !matches!(
            p,
            ProcessStatus::Created | ProcessStatus::Running,
        ),
        (
            Status::Download(DownloadZipFileStatus::Created),
            Status::Download(DownloadZipFileStatus::Running),
        ) => true,
        (Status::Download(DownloadZipFileStatus::Running), Status::Download(d)) => !matches!(
            d,
            DownloadZipFileStatus::Created | DownloadZipFileStatus::Running,
        ),
        _ => false,
    }
}

/// Exec mirror of `Status::is_terminal`.
fn status_is_terminal(status: &Status) -> (r: bool)
    ensures
        r == status.is_terminal(),
{
    match status {
        Status::Process(p) => !matches!(p, ProcessStatus::Created | ProcessStatus::Running),
        Status::Download(d) => !matches!(
            d,
            DownloadZipFileStatus::Created | DownloadZipFileStatus::Running,
        ),
    }
}

/// A state whose records keep their ids, positions and terminal stamping
/// stays well formed.
proof fn lemma_same_ids_wf(a: ApiState, b: ApiState)
    requires
        a.wf(),
        a.records().len() == b.records().len(),
        a.next_id() == b.next_id(),
        forall|k: int|
            0 <= k < a.records().len() ==> #[trigger] b.records()[k].id == a.records()[k].id,
        forall|k: int|
            0 <= k < a.records().len() ==> (#[trigger] b.records()[k].terminal_at is Some
                <==> b.records()[k].status.is_terminal()),
    ensures
        b.wf(),
{
}

/// Removing a record keeps the registry well formed.
proof fn lemma_remove_wf(a: ApiState, b: ApiState, i: int)
    requires
        a.wf(),
        0 <= i < a.records().len(),
        b.records() == a.records().remove(i),
        b.next_id() == a.next_id(),
    ensures
        b.wf(),
{
    assert forall|k: int, l: int|
        0 <= k < l < b.records().len() implies #[trigger] b.records()[k].id
        < #[trigger] b.records()[l].id by {
        if k < i {
            assert(b.records()[k] == a.records()[k]);
        } else {
            assert(b.records()[k] == a.records()[k + 1]);
        }
        if l < i {
            assert(b.records()[l] == a.records()[l]);
        } else {
            assert(b.records()[l] == a.records()[l + 1]);
        }
    }
    assert forall|k: int| 0 <= k < b.records().len() implies #[trigger] b.records()[k].id
        < b.next_id() by {
        if k < i {
            assert(b.records()[k] == a.records()[k]);
        } else {
            assert(b.records()[k] == a.records()[k + 1]);
        }
    }
    assert forall|k: int| 0 <= k < b.records().len() implies (#[trigger] b.records()[k].terminal_at
        is Some <==> b.records()[k].status.is_terminal()) by {
        if k < i {
            assert(b.records()[k] == a.records()[k]);
        } else {
            assert(b.records()[k] == a.records()[k + 1]);
        }
    }
}

} // verus!
