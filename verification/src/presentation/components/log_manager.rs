use crate::seqs::{first_where, lemma_first_where_is, lemma_first_where_none};
use crate::text::{chars_of, join, sub_string};
use std::collections::VecDeque;
use vstd::prelude::*;

verus! {

/// How many log entries are kept: when one more arrives, the oldest goes.
pub const MAX_LOG_SIZE: usize = 200;

/// How grave a log entry is.
#[derive(Clone, Copy, Debug, PartialEq, Eq, Hash, Structural)]
pub enum LogLevel {
    Trace,
    Debug,
    Info,
    Warn,
    Error,
}

impl LogLevel {
    /// The level that goes by a name: the names are in capitals.
    pub open spec fn named(name: Seq<char>) -> Option<LogLevel> {
        if name == "TRACE"@ {
            Some(LogLevel::Trace)
        } else if name == "DEBUG"@ {
            Some(LogLevel::Debug)
        } else if name == "INFO"@ {
            Some(LogLevel::Info)
        } else if name == "WARN"@ {
            Some(LogLevel::Warn)
        } else if name == "ERROR"@ {
            Some(LogLevel::Error)
        } else {
            None
        }
    }

    /// The level that goes by a name.
    pub fn from_str(s: &str) -> (level: Option<Self>)
        ensures
            level == Self::named(s@),
    {
        if s.eq("TRACE") {
            Some(LogLevel::Trace)
        } else if s.eq("DEBUG") {
            Some(LogLevel::Debug)
        } else if s.eq("INFO") {
            Some(LogLevel::Info)
        } else if s.eq("WARN") {
            Some(LogLevel::Warn)
        } else if s.eq("ERROR") {
            Some(LogLevel::Error)
        } else {
            None
        }
    }
}

/// Whether a character closes the bracket that holds a level.
pub open spec fn closes_level() -> spec_fn(char) -> bool {
    |c: char| c == ']'
}

/// The level that a message states. A message states a level when it begins
/// with `[`, the level's name and, unless it ends there, `]`. Any other
/// message is at level `Info`.
pub open spec fn level_of(message: Seq<char>) -> LogLevel {
    let head = match first_where(message, closes_level()) {
        Some(end) => message.take(end),
        None => message,
    };
    if head.len() > 0 && head[0] == '[' {
        match LogLevel::named(head.skip(1)) {
            Some(level) => level,
            None => LogLevel::Info,
        }
    } else {
        LogLevel::Info
    }
}

/// The level that a message states.
pub fn message_level(message: &str) -> (level: LogLevel)
    ensures
        level == level_of(message@),
{
    let chars = chars_of(message);
    let mut end: usize = 0;
    while end < chars.len() && chars[end] != ']'
        invariant
            end <= chars@.len(),
            forall|j: int| 0 <= j < end ==> !closes_level()(#[trigger] chars@[j]),
        decreases chars@.len() - end,
    {
        end = end + 1;
    }
    proof {
        if end < chars@.len() {
            lemma_first_where_is(chars@, closes_level(), end as int);
        } else {
            lemma_first_where_none(chars@, closes_level());
            assert(chars@.take(end as int) =~= chars@);
        }
    }
    if end > 0 && chars[0] == '[' {
        let name = sub_string(&chars, 1, end);
        assert(chars@.subrange(1, end as int) =~= chars@.take(end as int).skip(1));
        if end == chars.len() {
            assert(chars@.subrange(1, end as int) =~= chars@.skip(1));
        }
        match LogLevel::from_str(name.as_str()) {
            Some(level) => level,
            None => LogLevel::Info,
        }
    } else {
        LogLevel::Info
    }
}

/// One line of the log.
pub struct LogEntry {
    pub message: String,
    /// When the entry arrived, in seconds since the Unix epoch.
    pub timestamp: u64,
    pub level: LogLevel,
}

/// The character of a digit.
pub open spec fn digit(n: u64) -> char {
    if n == 0 {
        '0'
    } else if n == 1 {
        '1'
    } else if n == 2 {
        '2'
    } else if n == 3 {
        '3'
    } else if n == 4 {
        '4'
    } else if n == 5 {
        '5'
    } else if n == 6 {
        '6'
    } else if n == 7 {
        '7'
    } else if n == 8 {
        '8'
    } else {
        '9'
    }
}

/// The time of day of a moment, as `HH:MM:SS` on a 24-hour clock.
pub open spec fn clock_text(seconds: u64) -> Seq<char> {
    let hours = (seconds / 3600) % 24;
    let minutes = (seconds / 60) % 60;
    let secs = seconds % 60;
    seq![
        digit(hours / 10),
        digit(hours % 10),
        ':',
        digit(minutes / 10),
        digit(minutes % 10),
        ':',
        digit(secs / 10),
        digit(secs % 10),
    ]
}

fn digit_char(n: u64) -> (c: char)
    requires
        n < 10,
    ensures
        c == digit(n),
{
    if n == 0 {
        '0'
    } else if n == 1 {
        '1'
    } else if n == 2 {
        '2'
    } else if n == 3 {
        '3'
    } else if n == 4 {
        '4'
    } else if n == 5 {
        '5'
    } else if n == 6 {
        '6'
    } else if n == 7 {
        '7'
    } else if n == 8 {
        '8'
    } else {
        '9'
    }
}

impl LogEntry {
    /// The time of day at which the entry arrived.
    pub fn format_timestamp(&self) -> (text: String)
        ensures
            text@ == clock_text(self.timestamp),
    {
        let hours = (self.timestamp / 3600) % 24;
        let minutes = (self.timestamp / 60) % 60;
        let seconds = self.timestamp % 60;
        let mut text = String::new();
        text.push(digit_char(hours / 10));
        text.push(digit_char(hours % 10));
        text.push(':');
        text.push(digit_char(minutes / 10));
        text.push(digit_char(minutes % 10));
        text.push(':');
        text.push(digit_char(seconds / 10));
        text.push(digit_char(seconds % 10));
        assert(text@ =~= clock_text(self.timestamp));
        text
    }
}

/// The log after one more entry arrived: the oldest entry has gone if the
/// log was full.
pub open spec fn pushed(entries: Seq<LogEntry>, entry: LogEntry) -> Seq<LogEntry> {
    if entries.len() >= MAX_LOG_SIZE {
        entries.skip(1).push(entry)
    } else {
        entries.push(entry)
    }
}

/// The entry that a message makes when it arrives at `timestamp`.
pub open spec fn entry_of(message: String, timestamp: u64) -> LogEntry {
    LogEntry { message, timestamp, level: level_of(message@) }
}

/// The log after the first `n` messages arrived, one after the other.
pub open spec fn extended(
    entries: Seq<LogEntry>,
    messages: Seq<String>,
    timestamp: u64,
    n: nat,
) -> Seq<LogEntry>
    decreases n,
{
    if n == 0 {
        entries
    } else {
        pushed(
            extended(entries, messages, timestamp, (n - 1) as nat),
            entry_of(messages[n - 1], timestamp),
        )
    }
}

/// An entry as a line of the transcript: the time of day in brackets, a
/// space and the message.
pub open spec fn transcript_line(entry: LogEntry) -> Seq<char> {
    "["@ + clock_text(entry.timestamp) + "] "@ + entry.message@
}

/// The first `n` entries as a transcript: one line each, with a line feed
/// between the lines.
pub open spec fn transcript_of(entries: Seq<LogEntry>, n: nat) -> Seq<char>
    decreases n,
{
    if n == 0 {
        Seq::empty()
    } else if n == 1 {
        transcript_line(entries[0])
    } else {
        transcript_of(entries, (n - 1) as nat) + "\n"@ + transcript_line(entries[n - 1])
    }
}

/// The entries that a list of references points to.
pub open spec fn pointed(refs: Seq<&LogEntry>) -> Seq<LogEntry> {
    Seq::new(refs.len(), |i: int| *refs[i])
}

/// The last entries of the application's log, and which levels are shown.
pub struct LogManager {
    logs: VecDeque<LogEntry>,
    show_trace: bool,
    show_debug: bool,
    show_info: bool,
    show_warn: bool,
    show_error: bool,
}

impl LogManager {
    /// The entries, oldest first.
    pub closed spec fn entries(&self) -> Seq<LogEntry> {
        self.logs@
    }

    /// Whether entries of a level are shown.
    pub closed spec fn visible(&self, level: LogLevel) -> bool {
        match level {
            LogLevel::Trace => self.show_trace,
            LogLevel::Debug => self.show_debug,
            LogLevel::Info => self.show_info,
            LogLevel::Warn => self.show_warn,
            LogLevel::Error => self.show_error,
        }
    }

    /// Which entries are shown.
    pub open spec fn shows(&self) -> spec_fn(LogEntry) -> bool {
        |entry: LogEntry| self.visible(entry.level)
    }

    /// No more than `MAX_LOG_SIZE` entries are kept.
    pub open spec fn wf(&self) -> bool {
        self.entries().len() <= MAX_LOG_SIZE
    }

    /// An empty log that shows the levels from `Info` up.
    pub fn new() -> (manager: Self)
        ensures
            manager.entries() == Seq::<LogEntry>::empty(),
            forall|level: LogLevel|
                manager.visible(level) == (level != LogLevel::Trace && level != LogLevel::Debug),
            manager.wf(),
    {
        LogManager {
            logs: VecDeque::with_capacity(MAX_LOG_SIZE),
            show_trace: false,
            show_debug: false,
            show_info: true,
            show_warn: true,
            show_error: true,
        }
    }

    /// Takes in a message that arrived at `timestamp`, at the level that it
    /// states. The oldest entry goes if the log is full.
    pub fn push(&mut self, message: String, timestamp: u64)
        requires
            old(self).wf(),
        ensures
            final(self).entries() == pushed(old(self).entries(), entry_of(message, timestamp)),
            forall|level: LogLevel| final(self).visible(level) == old(self).visible(level),
            final(self).wf(),
    {
        let level = message_level(message.as_str());
        if self.logs.len() >= MAX_LOG_SIZE {
            self.logs.pop_front();
            assert(self.logs@ =~= old(self).logs@.skip(1));
        }
        self.logs.push_back(LogEntry { message, timestamp, level });
    }

    /// Takes in messages that arrived at `timestamp`, one after the other.
    pub fn extend(&mut self, messages: Vec<String>, timestamp: u64)
        requires
            old(self).wf(),
        ensures
            final(self).entries() == extended(
                old(self).entries(),
                messages@,
                timestamp,
                messages@.len(),
            ),
            forall|level: LogLevel| final(self).visible(level) == old(self).visible(level),
            final(self).wf(),
    {
        let ghost all = messages@;
        for message in it: messages
            invariant
                it.seq() == all,
                self.wf(),
                self.entries() == extended(old(self).entries(), all, timestamp, it.index() as nat),
                forall|level: LogLevel| self.visible(level) == old(self).visible(level),
        {
            self.push(message, timestamp);
        }
    }

    /// All entries, oldest first.
    pub fn all_logs(&self) -> (logs: Vec<&LogEntry>)
        ensures
            pointed(logs@) == self.entries(),
    {
        let mut logs: Vec<&LogEntry> = Vec::new();
        let mut i: usize = 0;
        assert(pointed(logs@) =~= self.logs@.take(0));
        while i < self.logs.len()
            invariant
                i <= self.logs@.len(),
                pointed(logs@) == self.logs@.take(i as int),
            decreases self.logs@.len() - i,
        {
            let ghost earlier = pointed(logs@);
            logs.push(&self.logs[i]);
            assert(pointed(logs@) =~= earlier.push(self.logs@[i as int]));
            assert(self.logs@.take(i + 1) =~= self.logs@.take(i as int).push(
                self.logs@[i as int],
            ));
            i = i + 1;
        }
        assert(self.logs@.take(self.logs@.len() as int) =~= self.logs@);
        logs
    }

    /// The entries whose level is shown, oldest first.
    pub fn filtered_logs(&self) -> (logs: Vec<&LogEntry>)
        ensures
            pointed(logs@) == self.entries().filter(self.shows()),
    {
        let mut logs: Vec<&LogEntry> = Vec::new();
        let mut i: usize = 0;
        assert(self.logs@.take(0).filter(self.shows()) =~= Seq::empty()) by {
            reveal(Seq::filter);
        }
        assert(pointed(logs@) =~= Seq::empty());
        while i < self.logs.len()
            invariant
                i <= self.logs@.len(),
                pointed(logs@) == self.logs@.take(i as int).filter(self.shows()),
            decreases self.logs@.len() - i,
        {
            proof {
                let before = self.logs@.take(i as int);
                assert(self.logs@.take(i + 1) =~= before.push(self.logs@[i as int]));
                before.lemma_filter_push(self.logs@[i as int], self.shows());
            }
            if self.is_level_visible(self.logs[i].level) {
                let ghost earlier = pointed(logs@);
                logs.push(&self.logs[i]);
                assert(pointed(logs@) =~= earlier.push(self.logs@[i as int]));
            }
            i = i + 1;
        }
        assert(self.logs@.take(self.logs@.len() as int) =~= self.logs@);
        logs
    }

    /// The entries whose level is shown, newest first.
    pub fn filtered_logs_reversed(&self) -> (logs: Vec<&LogEntry>)
        ensures
            pointed(logs@) == self.entries().filter(self.shows()).reverse(),
    {
        let forward = self.filtered_logs();
        let mut logs: Vec<&LogEntry> = Vec::new();
        let mut left: usize = forward.len();
        let ghost shown = pointed(forward@);
        while left > 0
            invariant
                left <= forward@.len(),
                shown == pointed(forward@),
                logs@.len() == forward@.len() - left,
                forall|k: int|
                    0 <= k < logs@.len() ==> *(#[trigger] logs@[k]) == shown[shown.len() - 1 - k],
            decreases left,
        {
            left = left - 1;
            logs.push(forward[left]);
        }
        assert(pointed(logs@) =~= shown.reverse());
        logs
    }

    /// All entries as one text, for the clipboard.
    pub fn transcript(&self) -> (text: String)
        ensures
            text@ == transcript_of(self.entries(), self.entries().len()),
    {
        let mut text = String::new();
        let mut i: usize = 0;
        while i < self.logs.len()
            invariant
                i <= self.logs@.len(),
                text@ == transcript_of(self.logs@, i as nat),
            decreases self.logs@.len() - i,
        {
            let stamp = self.logs[i].format_timestamp();
            let a = join("[", stamp.as_str());
            let b = join(a.as_str(), "] ");
            let line = join(b.as_str(), self.logs[i].message.as_str());
            if i > 0 {
                let head = join(text.as_str(), "\n");
                text = join(head.as_str(), line.as_str());
            } else {
                text = line;
            }
            i = i + 1;
        }
        text
    }

    /// Shows or hides the entries of a level.
    pub fn set_level_visible(&mut self, level: LogLevel, visible: bool)
        ensures
            final(self).entries() == old(self).entries(),
            final(self).visible(level) == visible,
            forall|other: LogLevel|
                other != level ==> final(self).visible(other) == old(self).visible(other),
    {
        match level {
            LogLevel::Trace => {
                self.show_trace = visible;
            },
            LogLevel::Debug => {
                self.show_debug = visible;
            },
            LogLevel::Info => {
                self.show_info = visible;
            },
            LogLevel::Warn => {
                self.show_warn = visible;
            },
            LogLevel::Error => {
                self.show_error = visible;
            },
        }
    }

    pub fn is_level_visible(&self, level: LogLevel) -> (visible: bool)
        ensures
            visible == self.visible(level),
    {
        match level {
            LogLevel::Trace => self.show_trace,
            LogLevel::Debug => self.show_debug,
            LogLevel::Info => self.show_info,
            LogLevel::Warn => self.show_warn,
            LogLevel::Error => self.show_error,
        }
    }
}

impl Default for LogManager {
    fn default() -> (manager: Self)
        ensures
            manager.entries() == Seq::<LogEntry>::empty(),
            forall|level: LogLevel|
                manager.visible(level) == (level != LogLevel::Trace && level != LogLevel::Debug),
            manager.wf(),
    {
        LogManager::new()
    }
}

} // verus!
