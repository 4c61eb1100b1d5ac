//! The server's log-line grammar `[<time>] [<thread>/<LEVEL>]: <message>`
//! and the lifecycle signals read from it.

use vstd::prelude::*;

use crate::error::ParserError;
use crate::pattern::{has_ready_marker, regex_is_match};
use crate::text::{chars_of, find_chars, find_from, index_of, string_of_range, strip_trailing, trim, trim_chars};

verus! {

/// The severity a log record carries.
#[derive(Debug, Clone, Copy, PartialEq, Eq, Structural)]
pub enum LogLevel {
    Info,
    Warn,
    Error,
    Other,
}

/// A signal about the server's lifecycle read from its output.
#[derive(Debug, Clone, Copy, PartialEq, Eq, Structural)]
pub enum InternalEvent {
    ServerStarted,
}

/// One structured log line.
#[derive(Debug, Clone, PartialEq, Eq)]
pub struct LogMeta {
    pub time: String,
    pub thread: String,
    pub level: LogLevel,
    pub msg: String,
}

/// A log record with its texts as character sequences.
pub struct LogRecord {
    pub time: Seq<char>,
    pub thread: Seq<char>,
    pub level: LogLevel,
    pub msg: Seq<char>,
}

impl View for LogMeta {
    type V = LogRecord;

    open spec fn view(&self) -> LogRecord {
        LogRecord { time: self.time@, thread: self.thread@, level: self.level, msg: self.msg@ }
    }
}

/// The name of a level, as it is shown.
pub open spec fn level_text(l: LogLevel) -> Seq<char> {
    match l {
        LogLevel::Info => "INFO"@,
        LogLevel::Warn => "WARN"@,
        LogLevel::Error => "ERROR"@,
        LogLevel::Other => "OTHER"@,
    }
}

/// A record shown one field per line.
pub open spec fn record_text(r: LogRecord) -> Seq<char> {
    "Time: "@ + r.time + "\nThread: "@ + r.thread + "\nLevel: "@ + level_text(r.level) + "\nMessage: "@ + r.msg
}

impl LogLevel {
    /// The name of this level.
    pub fn to_string(&self) -> (r: String)
        ensures
            r@ == level_text(*self),
    {
        match self {
            LogLevel::Info => String::from_str("INFO"),
            LogLevel::Warn => String::from_str("WARN"),
            LogLevel::Error => String::from_str("ERROR"),
            LogLevel::Other => String::from_str("OTHER"),
        }
    }
}

/// The level a level token names.
pub open spec fn level_of(s: Seq<char>) -> LogLevel {
    if s == seq!['I', 'N', 'F', 'O'] {
        LogLevel::Info
    } else if s == seq!['W', 'A', 'R', 'N'] {
        LogLevel::Warn
    } else if s == seq!['E', 'R', 'R', 'O', 'R'] {
        LogLevel::Error
    } else {
        LogLevel::Other
    }
}

/// The separator between the second bracket and the message.
pub open spec fn message_separator() -> Seq<char> {
    seq![']', ':', ' ']
}

/// The name of the thread that reports the server's progress.
pub open spec fn server_thread() -> Seq<char> {
    "Server thread"@
}

/// Reading of one line (white space at both ends ignored): the time is the
/// text between the leading `[` and the first `]`; the second bracket opens
/// at the next `[` and closes at the first `]: ` after it; its text is
/// `<thread>/<level>`, the level without trailing `]`; the message is what
/// follows `]: `. A line that is not shaped so, or whose second bracket
/// holds no `/`, is no record.
pub open spec fn log_record_of(line: Seq<char>) -> Result<Option<LogRecord>, ParserError> {
    let t = trim(line);
    let e = index_of(t, ']', 0);
    let m = index_of(t, '[', e + 1);
    let sep = find_from(t, message_separator(), m);
    if t.len() == 0 || t[0] != '[' || e == t.len() || m == t.len() || sep == t.len() {
        Ok(None)
    } else {
        let meta = t.subrange(m + 1, sep);
        let slash = index_of(meta, '/', 0);
        if slash == meta.len() {
            Ok(None)
        } else {
            Ok(
                Some(
                    LogRecord {
                        time: t.subrange(1, e),
                        thread: meta.subrange(0, slash),
                        level: level_of(strip_trailing(meta.subrange(slash + 1, meta.len() as int), ']')),
                        msg: t.subrange(sep + 3, t.len() as int),
                    },
                ),
            )
        }
    }
}

/// The signal a record carries: the readiness marker, reported by the
/// server thread at INFO level, means the server has started.
pub open spec fn event_of(r: LogRecord) -> Option<InternalEvent> {
    if r.thread == server_thread() && r.level == LogLevel::Info && has_ready_marker(r.msg) {
        Some(InternalEvent::ServerStarted)
    } else {
        None
    }
}

/// The signal a raw line of output carries: none unless it reads as a log
/// record that carries one.
pub open spec fn line_event(line: Seq<char>) -> Option<InternalEvent> {
    match log_record_of(line) {
        Ok(Some(rec)) => event_of(rec),
        _ => None,
    }
}

/// A record from another thread, at another level, or without the
/// readiness marker carries no signal; one from the server thread at INFO
/// level with the marker carries exactly the start signal.
pub proof fn lemma_only_ready_records_signal(rec: LogRecord)
    ensures
        rec.thread != server_thread() ==> event_of(rec) is None,
        rec.level != LogLevel::Info ==> event_of(rec) is None,
        !has_ready_marker(rec.msg) ==> event_of(rec) is None,
        rec.thread == server_thread() && rec.level == LogLevel::Info && has_ready_marker(rec.msg)
            ==> event_of(rec) == Some(InternalEvent::ServerStarted),
{
}

/// Reads the signal a raw line of output carries, if any.
pub fn event_of_line(line: &str) -> (r: Option<InternalEvent>)
    ensures
        r == line_event(line@),
{
    match LogMeta::new(line) {
        Ok(Some(meta)) => match meta.parse_event() {
            Ok(e) => e,
            Err(_) => None,
        },
        _ => None,
    }
}

/// Whether a library result agrees with a reading of a line.
pub open spec fn record_agrees(r: Result<Option<LogMeta>, ParserError>, m: Result<Option<LogRecord>, ParserError>) -> bool {
    match r {
        Ok(Some(v)) => m == Ok::<Option<LogRecord>, ParserError>(Some(v@)),
        Ok(None) => m == Ok::<Option<LogRecord>, ParserError>(None),
        Err(e) => m == Err::<Option<LogRecord>, ParserError>(e),
    }
}

/// The level named by `cs[lo..hi]`.
fn level_in(cs: &Vec<char>, lo: usize, hi: usize) -> (r: LogLevel)
    requires
        lo <= hi <= cs@.len(),
    ensures
        r == level_of(cs@.subrange(lo as int, hi as int)),
{
    let ghost s = cs@.subrange(lo as int, hi as int);
    let n = hi - lo;
    let ghost info = seq!['I', 'N', 'F', 'O'];
    let ghost warn = seq!['W', 'A', 'R', 'N'];
    let ghost error = seq!['E', 'R', 'R', 'O', 'R'];
    assert(info.len() == 4 && info[0] == 'I' && info[1] == 'N' && info[2] == 'F' && info[3] == 'O');
    assert(warn.len() == 4 && warn[0] == 'W' && warn[1] == 'A' && warn[2] == 'R' && warn[3] == 'N');
    assert(error.len() == 5 && error[0] == 'E' && error[1] == 'R' && error[2] == 'R' && error[3] == 'O' && error[4] == 'R');
    if n == 4 && cs[lo] == 'I' && cs[lo + 1] == 'N' && cs[lo + 2] == 'F' && cs[lo + 3] == 'O' {
        assert(s =~= seq!['I', 'N', 'F', 'O']);
        LogLevel::Info
    } else if n == 4 && cs[lo] == 'W' && cs[lo + 1] == 'A' && cs[lo + 2] == 'R' && cs[lo + 3] == 'N' {
        assert(s =~= seq!['W', 'A', 'R', 'N']);
        LogLevel::Warn
    } else if n == 5 && cs[lo] == 'E' && cs[lo + 1] == 'R' && cs[lo + 2] == 'R' && cs[lo + 3] == 'O'
        && cs[lo + 4] == 'R' {
        assert(s =~= seq!['E', 'R', 'R', 'O', 'R']);
        LogLevel::Error
    } else {
        LogLevel::Other
    }
}

impl LogMeta {
    /// Reads one line of server output as a log record.
    pub fn new(line: &str) -> (r: Result<Option<LogMeta>, ParserError>)
        ensures
            record_agrees(r, log_record_of(line@)),
    {
        let raw = chars_of(line);
        let t = trim_chars(&raw);
        let n = t.len();
        if n == 0 || t[0] != '[' {
            return Ok(None);
        }
        let e = crate::text::find_char(&t, ']', 0);
        if e == n {
            return Ok(None);
        }
        let m = crate::text::find_char(&t, '[', e + 1);
        if m == n {
            return Ok(None);
        }
        let sep_chars = vec![']', ':', ' '];
        assert(sep_chars@ =~= message_separator());
        let sep = find_chars(&t, &sep_chars, m);
        if sep == n {
            return Ok(None);
        }
        proof {
            crate::text::lemma_index_count(t@, '[', e + 1);
            crate::text::lemma_index_count(t@, ']', 1);
            assert(index_of(t@, ']', 0) == index_of(t@, ']', 1));
            crate::text::lemma_find_from(t@, message_separator(), m as int);
            assert(t@.subrange(sep as int, sep + 3)[0] == ']');
        }
        let meta = crate::text::sub_chars(&t, m + 1, sep);
        let slash = crate::text::find_char(&meta, '/', 0);
        if slash == meta.len() {
            return Ok(None);
        }
        let mut end = meta.len();
        while end > slash + 1 && meta[end - 1] == ']'
            invariant
                slash + 1 <= end <= meta@.len(),
                strip_trailing(meta@.subrange(slash + 1, meta@.len() as int), ']')
                    == strip_trailing(meta@.subrange(slash + 1, end as int), ']'),
            decreases end,
        {
            assert(meta@.subrange(slash + 1, end as int).drop_last() =~= meta@.subrange(slash + 1, end - 1));
            end = end - 1;
        }
        let level = level_in(&meta, slash + 1, end);
        Ok(
            Some(
                LogMeta {
                    time: string_of_range(&t, 1, e),
                    thread: string_of_range(&meta, 0, slash),
                    level,
                    msg: string_of_range(&t, sep + 3, n),
                },
            ),
        )
    }

    /// This record shown one field per line.
    pub fn to_string(&self) -> (r: String)
        ensures
            r@ == record_text(self@),
    {
        let mut r = String::from_str("Time: ");
        r.append(self.time.as_str());
        r.append("\nThread: ");
        r.append(self.thread.as_str());
        r.append("\nLevel: ");
        r.append(self.level.to_string().as_str());
        r.append("\nMessage: ");
        r.append(self.msg.as_str());
        r
    }

    /// The lifecycle signal this record carries, if any.
    pub fn parse_event(&self) -> (r: Result<Option<InternalEvent>, ParserError>)
        ensures
            r == Ok::<Option<InternalEvent>, ParserError>(event_of(self@)),
    {
        let name = "Server thread";
        if self.thread == String::from_str(name) && self.level == LogLevel::Info {
            return self.parse_server_thread_info_lv2();
        }
        Ok(None)
    }

    /// The signal of a record from the server thread at INFO level.
    fn parse_server_thread_info_lv2(&self) -> (r: Result<Option<InternalEvent>, ParserError>)
        requires
            self.thread@ == server_thread(),
            self.level == LogLevel::Info,
        ensures
            r == Ok::<Option<InternalEvent>, ParserError>(event_of(self@)),
    {
        match regex_is_match(r"Done \([0-9.]+s\)!", self.msg.as_str()) {
            Some(true) => Ok(Some(InternalEvent::ServerStarted)),
            _ => Ok(None),
        }
    }
}

} // verus!
