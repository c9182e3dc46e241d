//! A recording job and its state machine.
//!
//! A job is created idle. A start request moves it to `Starting`; once the
//! recording process is spawned the job holds the process and is `Running`.
//! From there it returns to `Idle` either because the process ended by itself
//! or because a stop request moved it to `Stopping` and the process was
//! killed. Every transition names the state it starts from; the two that a
//! caller may request at the wrong time report an error and leave the job as
//! it was.
//!
//! The job is generic in the handle of the process: the state machine only
//! stores the handle, hands it out and drops it.

use vstd::prelude::*;
use vstd::string::*;
pub use crate::logs::{Log, Logs};
pub use crate::registry::create_job;
pub use crate::scientific::to_scientific;
pub use crate::settings::{RecorderSettings, RecorderSettingsError, RecordingType};
pub use crate::uid::generate_uid;
use crate::clock::unix_now;
use crate::logs::{appended, display_view, LogView, MAX_LOG_COUNT};
use crate::uid::{are_draws, is_uid, token};

verus! {

/// Where a job stands in its life cycle.
#[derive(Debug, Clone, Copy, PartialEq, Eq, Structural)]
pub enum JobStatus {
    Idle,
    Starting,
    Running,
    Stopping,
}

/// A request that does not fit the state of the job.
#[derive(Debug, Clone, Copy, PartialEq, Eq, Structural)]
pub enum JobError {
    /// A start was requested of a job that is not idle.
    NotIdle,
    /// A stop was requested of a job that is not running.
    NotRunning,
}

impl JobError {
    pub open spec fn message(self) -> Seq<char> {
        match self {
            JobError::NotIdle => "Job not idle"@,
            JobError::NotRunning => "Job is not running"@,
        }
    }

    pub fn to_string(&self) -> (s: String)
        ensures
            s@ == self.message(),
    {
        match self {
            JobError::NotIdle => "Job not idle".to_owned(),
            JobError::NotRunning => "Job is not running".to_owned(),
        }
    }
}

/// One recording job.
#[derive(Debug)]
pub struct Job<P> {
    job_id: u32,
    job_uid: String,
    status: JobStatus,
    process: Option<P>,
    started_at: Option<u64>,
    next_run_start: Option<u64>,
    logs: Logs,
    settings: RecorderSettings,
}

/// What a job holds.
pub struct JobView<P> {
    pub id: u32,
    pub uid: Seq<char>,
    pub status: JobStatus,
    pub process: Option<P>,
    pub started_at: Option<u64>,
    pub next_run_start: Option<u64>,
    pub log: Seq<LogView>,
    pub settings: RecorderSettings,
}

/// The time of the next start of a job that started at `now`: one interval
/// later for a repeating job, none for a job that runs once.
pub open spec fn next_run(interval: Option<u32>, now: u64) -> Option<u64> {
    match interval {
        Some(every) => if every == 0 {
            None
        } else {
            Some((now + every) as u64)
        },
        None => None,
    }
}

/// Whether the time of the next start after `now` fits the machine integer.
pub open spec fn next_run_fits(interval: Option<u32>, now: u64) -> bool {
    match interval {
        Some(every) => now + every <= u64::MAX,
        None => true,
    }
}

/// The log entry that reports one line of the process's output.
pub open spec fn output_text(tag: Seq<char>, line: Seq<char>) -> Seq<char> {
    "<"@ + tag + "> "@ + line
}

impl<P> JobView<P> {
    /// A job as it is created: idle, without process, start times or log.
    pub open spec fn fresh(id: u32, uid: Seq<char>, settings: RecorderSettings) -> Self {
        JobView {
            id,
            uid,
            status: JobStatus::Idle,
            process: None,
            started_at: None,
            next_run_start: None,
            log: Seq::empty(),
            settings,
        }
    }

    /// What holds of every job: the log keeps to its limit, and a process is
    /// attached only while the job is running or about to be stopped.
    pub open spec fn wf(self) -> bool {
        &&& self.log.len() <= MAX_LOG_COUNT
        &&& self.process is Some ==> self.status == JobStatus::Running || self.status
            == JobStatus::Stopping
    }

    /// Whether a start request is accepted.
    pub open spec fn startable(self) -> bool {
        self.status == JobStatus::Idle && self.process is None
    }

    /// Whether the scheduler is to start the job at `now`: the job is idle,
    /// holds no process, and its next start, if it has one, is due.
    pub open spec fn is_waiting_to_start(self, now: u64) -> bool {
        &&& self.status == JobStatus::Idle
        &&& self.process is None
        &&& match self.next_run_start {
            Some(due) => due <= now,
            None => true,
        }
    }

    /// The job with one more log entry.
    pub open spec fn logged(self, now: u64, text: Seq<char>) -> Self {
        JobView { log: appended(self.log, LogView { timestamp: now, text }), ..self }
    }

    /// The job after a start request was accepted.
    pub open spec fn starting(self) -> Self {
        JobView { status: JobStatus::Starting, ..self }
    }

    /// The job after its process was spawned at `now`.
    pub open spec fn running(self, process: P, now: u64) -> Self {
        (JobView {
            status: JobStatus::Running,
            process: Some(process),
            started_at: Some(now),
            next_run_start: next_run(self.settings.interval(), now),
            ..self
        }).logged(now, "<Started>"@).logged(now, "<Settings>  "@ + self.settings.summary())
    }

    /// The job after its process could not be spawned.
    pub open spec fn start_failed(self, now: u64) -> Self {
        (JobView { status: JobStatus::Idle, process: None, ..self }).logged(
            now,
            "<Start Failed>"@,
        )
    }

    /// The job after a stop request was accepted.
    pub open spec fn stopping(self) -> Self {
        JobView { status: JobStatus::Stopping, ..self }
    }

    /// The job after its process handle was taken out.
    pub open spec fn released(self) -> Self {
        JobView { process: None, ..self }
    }

    /// The job after the stop request was carried out.
    pub open spec fn stopped_manually(self, now: u64) -> Self {
        (JobView { status: JobStatus::Idle, process: None, ..self }).logged(
            now,
            "<Stopped Manually>"@,
        )
    }

    /// The job after its process ended by itself.
    pub open spec fn exited(self, now: u64) -> Self {
        (JobView { status: JobStatus::Idle, process: None, ..self }).logged(now, "<Exited>"@)
    }
}

impl<P> View for Job<P> {
    type V = JobView<P>;

    closed spec fn view(&self) -> JobView<P> {
        JobView {
            id: self.job_id,
            uid: self.job_uid@,
            status: self.status,
            process: self.process,
            started_at: self.started_at,
            next_run_start: self.next_run_start,
            log: self.logs@,
            settings: self.settings,
        }
    }
}

impl<P> Job<P> {
    /// A new idle job with the given token.
    pub fn with_uid(job_id: u32, job_uid: String, settings: RecorderSettings) -> (job: Self)
        ensures
            job@ == JobView::<P>::fresh(job_id, job_uid@, settings),
            job@.wf(),
    {
        Job {
            job_id,
            job_uid,
            status: JobStatus::Idle,
            process: None,
            started_at: None,
            next_run_start: None,
            logs: Logs::default(),
            settings,
        }
    }

    /// A new idle job with a freshly drawn token.
    pub fn new(job_id: u32, settings: RecorderSettings) -> (job: Self)
        ensures
            job@ == JobView::<P>::fresh(job_id, job@.uid, settings),
            is_uid(job@.uid),
            exists|draws: Seq<usize>| are_draws(draws) && job@.uid == token(draws),
            job@.status == JobStatus::Idle,
            job@.process is None,
            job@.log.len() == 0,
            job@.wf(),
    {
        Self::with_uid(job_id, generate_uid(), settings)
    }

    pub fn id(&self) -> (id: u32)
        ensures
            id == self@.id,
    {
        self.job_id
    }

    pub fn uid(&self) -> (uid: &str)
        ensures
            uid@ == self@.uid,
    {
        self.job_uid.as_str()
    }

    pub fn status(&self) -> (status: JobStatus)
        ensures
            status == self@.status,
    {
        self.status
    }

    pub fn has_process(&self) -> (attached: bool)
        ensures
            attached == (self@.process is Some),
    {
        self.process.is_some()
    }

    pub fn started_at(&self) -> (at: Option<u64>)
        ensures
            at == self@.started_at,
    {
        self.started_at
    }

    pub fn next_run_start(&self) -> (at: Option<u64>)
        ensures
            at == self@.next_run_start,
    {
        self.next_run_start
    }

    pub fn logs(&self) -> (logs: &Logs)
        ensures
            logs@ == self@.log,
    {
        &self.logs
    }

    pub fn settings(&self) -> (settings: RecorderSettings)
        ensures
            settings == self@.settings,
    {
        self.settings
    }

    /// Whether the scheduler is to start the job at the given time.
    pub fn is_waiting_to_start_at(&self, now: u64) -> (due: bool)
        ensures
            due == self@.is_waiting_to_start(now),
    {
        self.status == JobStatus::Idle && self.next_run_start.unwrap_or(0) <= now
            && self.process.is_none()
    }

    /// Whether the scheduler is to start the job now. A job that is not idle
    /// or holds a process is never due; an idle job without a next start time
    /// is always due.
    pub fn is_waiting_to_start(&self) -> (due: bool)
        ensures
            exists|now: u64| due == self@.is_waiting_to_start(now),
            !self@.startable() ==> !due,
            self@.startable() && self@.next_run_start is None ==> due,
    {
        let now = unix_now();
        self.is_waiting_to_start_at(now)
    }

    /// Adds a log entry with the given time.
    pub fn push_log_at(&mut self, data: String, now: u64)
        ensures
            final(self)@ == old(self)@.logged(now, data@),
            old(self)@.wf() ==> final(self)@.wf(),
    {
        self.logs.push(Log::new(now, data));
    }

    /// Adds a log entry with the current time.
    pub fn push_log(&mut self, data: String)
        ensures
            exists|now: u64| final(self)@ == old(self)@.logged(now, data@),
            old(self)@.wf() ==> final(self)@.wf(),
    {
        let now = unix_now();
        self.push_log_at(data, now);
    }

    /// Accepts a start request: an idle job without process becomes
    /// `Starting`. Any other job reports `NotIdle` and stays as it is.
    pub fn mark_starting(&mut self) -> (r: Result<(), JobError>)
        ensures
            old(self)@.startable() ==> r is Ok && final(self)@ == old(self)@.starting(),
            !old(self)@.startable() ==> r == Err::<(), _>(JobError::NotIdle) && *final(self)
                == *old(self),
            old(self)@.wf() ==> final(self)@.wf(),
    {
        if self.status != JobStatus::Idle || self.process.is_some() {
            return Err(JobError::NotIdle);
        }
        self.status = JobStatus::Starting;
        Ok(())
    }

    /// Attaches the spawned process at the given time: the job becomes
    /// `Running`, records the start, schedules the next start of a repeating
    /// job and logs the start and its settings.
    pub fn mark_running_at(&mut self, process: P, now: u64)
        requires
            old(self)@.status == JobStatus::Starting,
            next_run_fits(old(self)@.settings.interval(), now),
        ensures
            final(self)@ == old(self)@.running(process, now),
            old(self)@.wf() ==> final(self)@.wf(),
    {
        self.status = JobStatus::Running;
        self.process = Some(process);
        self.started_at = Some(now);
        self.next_run_start = match self.settings.interval() {
            Some(0) | None => None,
            Some(interval) => Some(now + interval as u64),
        };
        self.push_log_at("<Started>".to_owned(), now);
        let mut line = "<Settings>  ".to_owned();
        let summary = self.settings.to_string();
        line.append(summary.as_str());
        self.push_log_at(line, now);
    }

    /// Attaches the spawned process now.
    pub fn mark_running(&mut self, process: P)
        requires
            old(self)@.status == JobStatus::Starting,
        ensures
            exists|now: u64|
                next_run_fits(old(self)@.settings.interval(), now) && final(self)@ == old(self)@.running(process, now),
            final(self)@.status == JobStatus::Running,
            final(self)@.process == Some(process),
            old(self)@.wf() ==> final(self)@.wf(),
    {
        let now = unix_now();
        self.mark_running_at(process, now);
    }

    /// Records at the given time that the process could not be spawned: the
    /// job returns to `Idle`.
    pub fn mark_start_failed_at(&mut self, now: u64)
        requires
            old(self)@.status == JobStatus::Starting,
        ensures
            final(self)@ == old(self)@.start_failed(now),
            old(self)@.wf() ==> final(self)@.wf(),
    {
        self.status = JobStatus::Idle;
        self.process = None;
        self.push_log_at("<Start Failed>".to_owned(), now);
    }

    /// Records now that the process could not be spawned.
    pub fn mark_start_failed(&mut self)
        requires
            old(self)@.status == JobStatus::Starting,
        ensures
            exists|now: u64| final(self)@ == old(self)@.start_failed(now),
            final(self)@.status == JobStatus::Idle,
            final(self)@.process is None,
            old(self)@.wf() ==> final(self)@.wf(),
    {
        let now = unix_now();
        self.mark_start_failed_at(now);
    }

    /// Accepts a stop request: a running job becomes `Stopping`. Any other
    /// job reports `NotRunning` and stays as it is.
    pub fn mark_stopping(&mut self) -> (r: Result<(), JobError>)
        ensures
            old(self)@.status == JobStatus::Running ==> r is Ok && final(self)@ == old(self)@.stopping(),
            old(self)@.status != JobStatus::Running ==> r == Err::<(), _>(JobError::NotRunning)
                && *final(self) == *old(self),
            old(self)@.wf() ==> final(self)@.wf(),
    {
        if self.status != JobStatus::Running {
            return Err(JobError::NotRunning);
        }
        self.status = JobStatus::Stopping;
        Ok(())
    }

    /// Hands out the process handle; the job no longer refers to it.
    pub fn take_process(&mut self) -> (process: Option<P>)
        ensures
            process == old(self)@.process,
            final(self)@ == old(self)@.released(),
            old(self)@.wf() ==> final(self)@.wf(),
    {
        self.process.take()
    }

    /// Records at the given time that the stop request was carried out.
    pub fn mark_stopped_manually_at(&mut self, now: u64)
        requires
            old(self)@.status == JobStatus::Stopping,
        ensures
            final(self)@ == old(self)@.stopped_manually(now),
            old(self)@.wf() ==> final(self)@.wf(),
    {
        self.status = JobStatus::Idle;
        self.process = None;
        self.push_log_at("<Stopped Manually>".to_owned(), now);
    }

    /// Records now that the stop request was carried out.
    pub fn mark_stopped_manually(&mut self)
        requires
            old(self)@.status == JobStatus::Stopping,
        ensures
            exists|now: u64| final(self)@ == old(self)@.stopped_manually(now),
            final(self)@.status == JobStatus::Idle,
            final(self)@.process is None,
            old(self)@.wf() ==> final(self)@.wf(),
    {
        let now = unix_now();
        self.mark_stopped_manually_at(now);
    }

    /// Records at the given time that the process ended by itself.
    pub fn mark_exited_at(&mut self, now: u64)
        requires
            old(self)@.status == JobStatus::Running || old(self)@.status == JobStatus::Stopping,
        ensures
            final(self)@ == old(self)@.exited(now),
            old(self)@.wf() ==> final(self)@.wf(),
    {
        self.status = JobStatus::Idle;
        self.process = None;
        self.push_log_at("<Exited>".to_owned(), now);
    }

    /// Records now that the process ended by itself.
    pub fn mark_exited(&mut self)
        requires
            old(self)@.status == JobStatus::Running || old(self)@.status == JobStatus::Stopping,
        ensures
            exists|now: u64| final(self)@ == old(self)@.exited(now),
            final(self)@.status == JobStatus::Idle,
            final(self)@.process is None,
            old(self)@.wf() ==> final(self)@.wf(),
    {
        let now = unix_now();
        self.mark_exited_at(now);
    }
}

/// The status record of a job: what the job holds, without its process, and
/// with the display view in place of the full log.
#[derive(Clone, Debug)]
pub struct JobInfo {
    pub job_id: u32,
    pub job_uid: String,
    pub status: JobStatus,
    pub started_at: Option<u64>,
    pub next_run_start: Option<u64>,
    pub logs: Logs,
    pub settings: RecorderSettings,
}

impl JobInfo {
    /// The status record of a job. The job stays as it is.
    pub fn from_job<P>(value: &Job<P>) -> (info: Self)
        ensures
            info.job_id == value@.id,
            info.job_uid@ == value@.uid,
            info.status == value@.status,
            info.started_at == value@.started_at,
            info.next_run_start == value@.next_run_start,
            info.logs@ == display_view(value@.log),
            info.settings == value@.settings,
    {
        JobInfo {
            job_id: value.job_id,
            job_uid: value.job_uid.clone(),
            status: value.status,
            started_at: value.started_at,
            next_run_start: value.next_run_start,
            logs: value.logs.get_truncated(),
            settings: value.settings,
        }
    }
}

} // verus!
