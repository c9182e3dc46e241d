//! The decisions of process supervision.
//!
//! Starting and stopping a job alternate between the job's state and the
//! outside world: a process is spawned, its output is read line by line, it
//! is killed and waited for. The caller does the outside work without holding
//! the job; each function here is one step that it takes while it holds the
//! job, and tells it what to do next.
//!
//! To start: `start`, spawn the tool with the arguments returned, then
//! `mark_running` with the process, or `mark_start_failed` where spawning
//! failed. To stop: `stop`, kill the process returned and wait for it, then
//! `finish_stop`. For every line of output `record_output`, and
//! `stream_closed` at the end of a stream. Exactly one of the two streams of
//! a process is read as responsible for the exit.

use vstd::prelude::*;
use vstd::string::*;
use crate::clock::{is_utc_stamp, unix_now};
use crate::job::{output_text, Job, JobError, JobStatus, JobView};
use crate::logs::{appended, has_entry, lemma_appended_without, LogView};

verus! {

/// The program that runs the recording tool.
pub const RECORDER_PROGRAM: &'static str = "python3";

/// The script of the recording tool, the first argument of the program.
pub const RECORDER_SCRIPT: &'static str = "kiwirecorder.py";

/// The directory in which the recording tool is started.
pub const RECORDER_DIRECTORY: &'static str = "/usr/local/src/kiwiclient/";

/// The seconds between two rounds of the scheduler.
pub const CHECK_INTERVAL_SECS: u64 = 1;

/// One of the two output streams of the recording process.
#[derive(Debug, Clone, Copy, PartialEq, Eq, Structural)]
pub enum OutputStream {
    Stdout,
    Stderr,
}

impl OutputStream {
    /// The tag that marks the lines of the stream in the log.
    pub open spec fn spec_tag(self) -> Seq<char> {
        match self {
            OutputStream::Stdout => "STDOUT"@,
            OutputStream::Stderr => "STDERR"@,
        }
    }

    /// Whether the end of the stream counts as the exit of the process:
    /// that of the standard output does, that of the standard error does
    /// not.
    pub open spec fn spec_responsible_for_exit(self) -> bool {
        self == OutputStream::Stdout
    }

    pub fn tag(self) -> (tag: &'static str)
        ensures
            tag@ == self.spec_tag(),
    {
        match self {
            OutputStream::Stdout => "STDOUT",
            OutputStream::Stderr => "STDERR",
        }
    }

    #[verifier::when_used_as_spec(spec_responsible_for_exit)]
    pub fn responsible_for_exit(self) -> (responsible: bool)
        ensures
            responsible == self.spec_responsible_for_exit(),
    {
        match self {
            OutputStream::Stdout => true,
            OutputStream::Stderr => false,
        }
    }
}

/// Of the two streams of a process exactly one is responsible for the exit,
/// so that the exit is taken note of once, whichever stream ends first.
pub proof fn lemma_one_stream_reports_exit(a: OutputStream, b: OutputStream)
    requires
        a != b,
    ensures
        a.responsible_for_exit() != b.responsible_for_exit(),
{
}

impl<P> JobView<P> {
    /// The job after a stream of its process ended at `now`. The end of the
    /// stream that is responsible for the exit returns a running or stopping
    /// job to `Idle`; any other end of a stream changes nothing.
    pub open spec fn after_stream_closed(self, responsible_for_exit: bool, now: u64) -> Self {
        if responsible_for_exit && (self.status == JobStatus::Running || self.status
            == JobStatus::Stopping) {
            self.exited(now)
        } else {
            self
        }
    }

    /// The job after its process was killed at `now` on a stop request. Where
    /// the end of the output has returned the job to `Idle` in the meantime,
    /// nothing is left to do.
    pub open spec fn after_stop_finished(self, now: u64) -> Self {
        if self.status == JobStatus::Stopping {
            self.stopped_manually(now)
        } else {
            self
        }
    }
}

impl<P> Job<P> {
    /// The first step of a start: accepts the request and returns the
    /// arguments with which the recording tool is to be spawned. A job that
    /// is not idle reports `NotIdle` and stays as it is.
    pub fn start(&mut self) -> (r: Result<Vec<String>, JobError>)
        ensures
            old(self)@.startable() ==> r is Ok && final(self)@ == old(self)@.starting()
                && exists|stamp: Seq<char>|
                is_utc_stamp(stamp) && r.unwrap().deep_view() == old(self)@.settings.arguments(
                    old(self)@.uid,
                    stamp,
                ),
            !old(self)@.startable() ==> r == Err::<Vec<String>, _>(JobError::NotIdle) && *final(self) == *old(self),
            old(self)@.wf() ==> final(self)@.wf(),
    {
        match self.mark_starting() {
            Err(e) => Err(e),
            Ok(()) => {
                let settings = self.settings();
                Ok(settings.as_args(self.uid()))
            },
        }
    }

    /// The first step of a stop: accepts the request and hands out the
    /// process that is to be killed. A job that is not running reports
    /// `NotRunning` and stays as it is.
    pub fn stop(&mut self) -> (r: Result<Option<P>, JobError>)
        ensures
            old(self)@.status == JobStatus::Running ==> r == Ok::<_, JobError>(old(self)@.process)
                && final(self)@ == old(self)@.stopping().released(),
            old(self)@.status != JobStatus::Running ==> r == Err::<Option<P>, _>(
                JobError::NotRunning,
            ) && *final(self) == *old(self),
            old(self)@.wf() ==> final(self)@.wf(),
    {
        match self.mark_stopping() {
            Err(e) => Err(e),
            Ok(()) => Ok(self.take_process()),
        }
    }

    /// The last step of a stop, at the given time.
    pub fn finish_stop_at(&mut self, now: u64)
        ensures
            final(self)@ == old(self)@.after_stop_finished(now),
            old(self)@.wf() ==> final(self)@.wf(),
    {
        if self.status() == JobStatus::Stopping {
            self.mark_stopped_manually_at(now);
        }
    }

    /// The last step of a stop: the process was killed and has ended. A job
    /// that the end of its output has already returned to `Idle` stays as it
    /// is.
    pub fn finish_stop(&mut self)
        ensures
            exists|now: u64| final(self)@ == old(self)@.after_stop_finished(now),
            old(self)@.status != JobStatus::Stopping ==> final(self)@ == old(self)@,
            old(self)@.status == JobStatus::Stopping ==> final(self)@.status == JobStatus::Idle,
            old(self)@.wf() ==> final(self)@.wf(),
    {
        let now = unix_now();
        self.finish_stop_at(now);
    }

    /// Logs one line of the process's output at the given time, marked with
    /// the tag of its stream.
    pub fn record_output_at(&mut self, pipe_tag: &str, line: &str, now: u64)
        ensures
            final(self)@ == old(self)@.logged(now, output_text(pipe_tag@, line@)),
            old(self)@.wf() ==> final(self)@.wf(),
    {
        let mut text = "<".to_owned();
        text.append(pipe_tag);
        text.append("> ");
        text.append(line);
        assert(text@ =~= output_text(pipe_tag@, line@));
        self.push_log_at(text, now);
    }

    /// Logs one line of the process's output.
    pub fn record_output(&mut self, pipe_tag: &str, line: &str)
        ensures
            exists|now: u64| final(self)@ == old(self)@.logged(now, output_text(pipe_tag@, line@)),
            old(self)@.wf() ==> final(self)@.wf(),
    {
        let now = unix_now();
        self.record_output_at(pipe_tag, line, now);
    }

    /// Takes note at the given time that a stream of the process has ended.
    /// Returns whether the job went back to `Idle` on that account.
    pub fn stream_closed_at(&mut self, responsible_for_exit: bool, now: u64) -> (exited: bool)
        ensures
            final(self)@ == old(self)@.after_stream_closed(responsible_for_exit, now),
            exited == (responsible_for_exit && (old(self)@.status == JobStatus::Running || old(self)@.status == JobStatus::Stopping)),
            old(self)@.wf() ==> final(self)@.wf(),
    {
        let status = self.status();
        if responsible_for_exit && (status == JobStatus::Running || status == JobStatus::Stopping) {
            self.mark_exited_at(now);
            true
        } else {
            false
        }
    }

    /// Takes note that a stream of the process has ended.
    pub fn stream_closed(&mut self, responsible_for_exit: bool) -> (exited: bool)
        ensures
            exists|now: u64|
                final(self)@ == old(self)@.after_stream_closed(responsible_for_exit, now),
            exited == (responsible_for_exit && (old(self)@.status == JobStatus::Running || old(self)@.status == JobStatus::Stopping)),
            !exited ==> final(self)@ == old(self)@,
            exited ==> final(self)@.status == JobStatus::Idle,
            old(self)@.wf() ==> final(self)@.wf(),
    {
        let now = unix_now();
        self.stream_closed_at(responsible_for_exit, now)
    }
}

/// Every transition keeps a job well formed.
pub proof fn lemma_transitions_keep_wf<P>(job: JobView<P>, process: P, now: u64, text: Seq<char>)
    requires
        job.wf(),
    ensures
        job.logged(now, text).wf(),
        job.startable() ==> job.starting().wf(),
        job.status == JobStatus::Starting ==> job.running(process, now).wf(),
        job.start_failed(now).wf(),
        job.status == JobStatus::Running ==> job.stopping().wf(),
        job.released().wf(),
        job.stopped_manually(now).wf(),
        job.exited(now).wf(),
        job.after_stream_closed(true, now).wf(),
        job.after_stop_finished(now).wf(),
{
}

/// A job that is started, whose process is spawned and then ends by itself,
/// is idle again without a process. Its log ends with the entries of the
/// start and of the exit, and tells of no manual stop unless it did so
/// before.
pub proof fn lemma_natural_exit<P>(job: JobView<P>, process: P, spawned: u64, ended: u64)
    requires
        job.startable(),
        !has_entry(job.log, "<Stopped Manually>"@),
    ensures
        ({
            let end = job.starting().running(process, spawned).after_stream_closed(true, ended);
            &&& end.status == JobStatus::Idle
            &&& end.process is None
            &&& has_entry(end.log, "<Exited>"@)
            &&& !has_entry(end.log, "<Stopped Manually>"@)
            &&& end.log.last() == (LogView { timestamp: ended, text: "<Exited>"@ })
        }),
{
    reveal_strlit("<Stopped Manually>");
    reveal_strlit("<Started>");
    reveal_strlit("<Settings>  ");
    reveal_strlit("<Exited>");
    let stopped = "<Stopped Manually>"@;
    let settings_line = "<Settings>  "@ + job.settings.summary();
    assert(settings_line[2] == 'e');
    assert(stopped[2] == 't');
    assert("<Started>"@.len() == 9);
    assert(stopped.len() == 18);
    assert("<Exited>"@.len() == 8);
    let started_entry = LogView { timestamp: spawned, text: "<Started>"@ };
    let settings_entry = LogView { timestamp: spawned, text: settings_line };
    let exited_entry = LogView { timestamp: ended, text: "<Exited>"@ };
    let l1 = appended(job.log, started_entry);
    let l2 = appended(l1, settings_entry);
    let l3 = appended(l2, exited_entry);
    lemma_appended_without(job.log, started_entry, stopped);
    lemma_appended_without(l1, settings_entry, stopped);
    lemma_appended_without(l2, exited_entry, stopped);
    let end = job.starting().running(process, spawned).after_stream_closed(true, ended);
    assert(end.log == l3);
    assert(l3.last() == exited_entry);
}

/// A running job that is stopped, with nothing happening between the two
/// steps of the stop, is idle again without a process, and the last entry of
/// its log tells of the manual stop.
pub proof fn lemma_manual_stop<P>(job: JobView<P>, stopped: u64)
    requires
        job.status == JobStatus::Running,
    ensures
        ({
            let end = job.stopping().released().after_stop_finished(stopped);
            &&& end.status == JobStatus::Idle
            &&& end.process is None
            &&& has_entry(end.log, "<Stopped Manually>"@)
            &&& end.log.last() == (LogView { timestamp: stopped, text: "<Stopped Manually>"@ })
        }),
{
    lemma_appended_without(
        job.log,
        LogView { timestamp: stopped, text: "<Stopped Manually>"@ },
        Seq::empty(),
    );
}

/// Where the output of a job under a stop request ends before the stop is
/// finished, the job is idle as soon as the output has ended, and the last
/// step of the stop leaves it as it is.
pub proof fn lemma_stop_after_exit<P>(job: JobView<P>, ended: u64, stopped: u64)
    requires
        job.status == JobStatus::Running,
    ensures
        ({
            let mid = job.stopping().released().after_stream_closed(true, ended);
            &&& mid.status == JobStatus::Idle
            &&& mid.after_stop_finished(stopped) == mid
        }),
{
}

/// A repeating job that starts at some time is next due one interval later:
/// while it runs it does not wait for a start, and once its process has ended
/// it waits for a start from that time on and not before.
pub proof fn lemma_recurring_schedule<P>(
    job: JobView<P>,
    process: P,
    started: u64,
    ended: u64,
    later: u64,
)
    requires
        job.settings.interval() is Some,
        job.settings.interval().unwrap() > 0,
        started + job.settings.interval().unwrap() <= u64::MAX,
    ensures
        ({
            let every = job.settings.interval().unwrap();
            let run = job.starting().running(process, started);
            let end = run.after_stream_closed(true, ended);
            &&& run.next_run_start == Some((started + every) as u64)
            &&& !run.is_waiting_to_start(later)
            &&& end.next_run_start == Some((started + every) as u64)
            &&& end.is_waiting_to_start(later) <==> later >= started + every
        }),
{
}

} // verus!
