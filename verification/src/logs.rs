//! The bounded log of a job and its shortened view for status reports.

use std::collections::VecDeque;
use vstd::prelude::*;
use vstd::string::*;

verus! {

/// Longest text, in characters, that the display view shows in full.
pub const MAX_LOG_LENGTH: usize = 200;

/// Largest number of entries in the display view.
pub const LOG_COUNT: usize = 20;

/// Largest number of entries a log keeps.
pub const MAX_LOG_COUNT: usize = 999;

/// One line of a job's log.
#[derive(Debug)]
pub struct Log {
    timestamp: u64,
    data: String,
}

/// What a log entry holds: the time in seconds since the Unix epoch and the
/// text.
pub struct LogView {
    pub timestamp: u64,
    pub text: Seq<char>,
}

impl View for Log {
    type V = LogView;

    closed spec fn view(&self) -> LogView {
        LogView { timestamp: self.timestamp, text: self.data@ }
    }
}

/// A text cut to the display length, with the marker `...` where something
/// was cut off.
pub open spec fn truncated_text(text: Seq<char>) -> Seq<char> {
    if text.len() > MAX_LOG_LENGTH {
        text.subrange(0, MAX_LOG_LENGTH as int) + "..."@
    } else {
        text
    }
}

/// An entry with its text cut to the display length.
pub open spec fn truncated_entry(entry: LogView) -> LogView {
    LogView { timestamp: entry.timestamp, text: truncated_text(entry.text) }
}

/// The display view of a log: its most recent entries, newest first, each
/// cut to the display length.
pub open spec fn display_view(log: Seq<LogView>) -> Seq<LogView> {
    let shown = if log.len() < LOG_COUNT {
        log.len()
    } else {
        LOG_COUNT as nat
    };
    Seq::new(shown, |i: int| truncated_entry(log[log.len() - 1 - i]))
}

/// A log after one more entry: the entry is added at the end, and the oldest
/// entry leaves where the log was full.
pub open spec fn appended(log: Seq<LogView>, entry: LogView) -> Seq<LogView> {
    if log.len() < MAX_LOG_COUNT {
        log.push(entry)
    } else {
        log.push(entry).drop_first()
    }
}

impl Clone for Log {
    fn clone(&self) -> (copy: Self)
        ensures
            copy@ == self@,
    {
        Log { timestamp: self.timestamp, data: self.data.clone() }
    }
}

impl Log {
    pub fn new(timestamp: u64, data: String) -> (entry: Self)
        ensures
            entry@ == (LogView { timestamp, text: data@ }),
    {
        Log { timestamp, data }
    }

    pub fn timestamp(&self) -> (t: u64)
        ensures
            t == self@.timestamp,
    {
        self.timestamp
    }

    pub fn data(&self) -> (text: &str)
        ensures
            text@ == self@.text,
    {
        self.data.as_str()
    }

    /// The entry as the display view shows it.
    pub fn get_truncated(&self) -> (short: Self)
        ensures
            short@ == truncated_entry(self@),
            short@.text.len() <= MAX_LOG_LENGTH + 3,
    {
        proof {
            reveal_strlit("...");
        }
        let text = self.data.as_str();
        let truncated_data = if text.unicode_len() > MAX_LOG_LENGTH {
            let mut head = text.substring_char(0, MAX_LOG_LENGTH).to_owned();
            head.append("...");
            head
        } else {
            self.data.clone()
        };
        Log { timestamp: self.timestamp, data: truncated_data }
    }
}

/// The log of a job, oldest entry first.
#[derive(Clone, Debug)]
pub struct Logs {
    logs: VecDeque<Log>,
}

impl View for Logs {
    type V = Seq<LogView>;

    closed spec fn view(&self) -> Seq<LogView> {
        self.logs@.map_values(|entry: Log| entry@)
    }
}

impl Default for Logs {
    fn default() -> (log: Self)
        ensures
            log@ == Seq::<LogView>::empty(),
    {
        let log = Logs { logs: VecDeque::new() };
        assert(log@ =~= Seq::<LogView>::empty());
        log
    }
}

impl Logs {
    /// A log that never outgrows its limit.
    pub open spec fn wf(&self) -> bool {
        self@.len() <= MAX_LOG_COUNT
    }

    /// A log with the given entries, oldest first.
    pub fn new(data: VecDeque<Log>) -> (log: Self)
        ensures
            log@ == data@.map_values(|entry: Log| entry@),
    {
        Logs { logs: data }
    }

    pub fn len(&self) -> (n: usize)
        ensures
            n == self@.len(),
    {
        self.logs.len()
    }

    /// The entry at a position, counted from the oldest.
    pub fn get(&self, index: usize) -> (entry: Option<&Log>)
        ensures
            index < self@.len() ==> entry.is_some() && entry.unwrap()@ == self@[index as int],
            index >= self@.len() ==> entry.is_none(),
    {
        if index < self.logs.len() {
            Some(&self.logs[index])
        } else {
            None
        }
    }

    /// The display view: at most `LOG_COUNT` entries, newest first, none
    /// longer than `MAX_LOG_LENGTH` characters and the marker. The log itself
    /// stays as it is.
    pub fn get_truncated(&self) -> (short: Self)
        ensures
            short@ == display_view(self@),
            short@.len() <= LOG_COUNT,
            forall|i: int| 0 <= i < short@.len() ==> (#[trigger] short@[i]).text.len() <= MAX_LOG_LENGTH + 3,
    {
        let total: usize = self.logs.len();
        let shown: usize = if total < LOG_COUNT {
            total
        } else {
            LOG_COUNT
        };
        let mut out: VecDeque<Log> = VecDeque::new();
        let mut i: usize = 0;
        while i < shown
            invariant
                total == self.logs@.len(),
                shown <= total,
                shown <= LOG_COUNT,
                i <= shown,
                out@.len() == i,
                forall|j: int| 0 <= j < i ==> (#[trigger] out@[j])@ == truncated_entry(self@[total - 1 - j]),
                forall|j: int| 0 <= j < i ==> (#[trigger] out@[j])@.text.len() <= MAX_LOG_LENGTH + 3,
            decreases shown - i,
        {
            let entry = self.logs[total - 1 - i].get_truncated();
            out.push_back(entry);
            i = i + 1;
        }
        let short = Logs { logs: out };
        assert(short@ =~= display_view(self@));
        short
    }

    /// Adds an entry at the end; a full log gives up its oldest entry.
    pub fn push(&mut self, data: Log)
        ensures
            final(self)@ == appended(old(self)@, data@),
            old(self).wf() ==> final(self).wf(),
    {
        self.logs.push_back(data);
        if self.logs.len() > MAX_LOG_COUNT {
            self.logs.pop_front();
        }
        assert(self@ =~= appended(old(self)@, data@));
    }
}

/// Whether a log holds an entry with the given text.
pub open spec fn has_entry(log: Seq<LogView>, text: Seq<char>) -> bool {
    exists|i: int| 0 <= i < log.len() && (#[trigger] log[i]).text == text
}

/// A log within its limit stays within it: an entry that is added to a log
/// with room makes it one longer, and an entry that is added to a full log
/// takes the place of the oldest, so that the second oldest becomes the
/// oldest.
pub proof fn lemma_appended_bounded(log: Seq<LogView>, entry: LogView)
    requires
        log.len() <= MAX_LOG_COUNT,
    ensures
        appended(log, entry).len() <= MAX_LOG_COUNT,
        log.len() < MAX_LOG_COUNT ==> appended(log, entry) == log.push(entry),
        log.len() == MAX_LOG_COUNT ==> appended(log, entry).len() == MAX_LOG_COUNT && appended(
            log,
            entry,
        ) == log.drop_first().push(entry) && appended(log, entry)[0] == log[1],
{
    if log.len() == MAX_LOG_COUNT {
        assert(appended(log, entry) =~= log.drop_first().push(entry));
    }
}

/// An entry that is added to a log is its last entry, and a text that
/// neither the log nor the entry holds is not in the log afterwards.
pub proof fn lemma_appended_without(log: Seq<LogView>, entry: LogView, text: Seq<char>)
    ensures
        appended(log, entry).len() > 0,
        appended(log, entry).last() == entry,
        has_entry(appended(log, entry), entry.text),
        !has_entry(log, text) && entry.text != text ==> !has_entry(appended(log, entry), text),
{
    let after = appended(log, entry);
    assert(after[after.len() - 1] == entry);
    if !has_entry(log, text) && entry.text != text {
        assert forall|i: int| 0 <= i < after.len() implies (#[trigger] after[i]).text != text by {
            if log.len() < MAX_LOG_COUNT {
                if i < log.len() {
                    assert(after[i] == log[i]);
                }
            } else {
                if i + 1 < log.len() {
                    assert(after[i] == log[i + 1]);
                }
            }
        }
    }
}

} // verus!
