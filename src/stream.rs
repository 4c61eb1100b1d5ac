//! Lines of process output and the events that carry them to subscribers.

use vstd::prelude::*;

use crate::clock::{local_today_at, naive_time_of, new_event_id, parse_time_of_day, utc_now, utc_text, utc_text_of, uuid_text, uuid_text_of};
use crate::instance::{status_name, InstanceStatus};
use crate::pattern::{bracket_from, regex_first_group, regex_replace, strip_log_prefix, text_of};

verus! {

/// Which channel a line or an event comes from.
#[derive(Debug, Clone, Copy, PartialEq, Eq, Structural)]
pub enum StreamSource {
    Stdout,
    Stderr,
    Event,
}

/// One line of process output with the stream it came from.
#[derive(Debug, Clone, PartialEq, Eq)]
pub struct StreamLine {
    pub line: String,
    pub source: StreamSource,
}

/// What an event carries.
#[derive(Debug, Clone, PartialEq, Eq)]
pub enum EventPayload {
    StateChange { old: InstanceStatus, new: InstanceStatus },
    StdLine { line: StreamLine },
}

/// An event with its identifier and its time, in milliseconds since the
/// Unix epoch (UTC).
#[derive(Debug, Clone, PartialEq, Eq)]
pub struct InstanceEvent {
    pub id: u128,
    pub timestamp: i64,
    pub payload: EventPayload,
}

/// The format of the time token that opens a log line.
pub open spec fn time_format() -> Seq<char> {
    "%H:%M:%S"@
}

/// `id` is a random identifier of version 4, RFC 4122 variant.
pub open spec fn is_v4_id(id: u128) -> bool {
    (id >> 76u128) & 0xfu128 == 4u128 && (id >> 62u128) & 0x3u128 == 2u128
}

/// `p` carries the line `text` from `source`.
pub open spec fn carries_line(p: EventPayload, text: Seq<char>, source: StreamSource) -> bool {
    p matches EventPayload::StdLine { line } && line.line@ == text && line.source == source
}

impl StreamLine {
    /// A line for display: the two bracketed tokens that open a log line,
    /// and the white space after them, are removed.
    pub fn new(line: &str, source: StreamSource) -> (r: StreamLine)
        ensures
            r.line@ == strip_log_prefix(line@),
            r.source == source,
    {
        proof {
            reveal_strlit("");
        }
        let stripped = match regex_replace(r"^\[[^\]]*\]\s*\[[^\]]*\]:\s*", line, "") {
            Some(s) => s,
            None => String::from_str(line),
        };
        StreamLine { line: stripped, source }
    }

    /// A line read from standard output, kept for display without its log
    /// prefix.
    pub fn stdout(line: &str) -> (r: StreamLine)
        ensures
            r.line@ == strip_log_prefix(line@),
            r.source == StreamSource::Stdout,
    {
        StreamLine::new(line, StreamSource::Stdout)
    }

    /// A line read from standard error, kept for display without its log
    /// prefix.
    pub fn stderr(line: &str) -> (r: StreamLine)
        ensures
            r.line@ == strip_log_prefix(line@),
            r.source == StreamSource::Stderr,
    {
        StreamLine::new(line, StreamSource::Stderr)
    }

    /// The text of the line.
    pub fn msg(&self) -> (r: String)
        ensures
            r@ == self.line@,
    {
        self.line.clone()
    }

    /// The text of the line, as it is shown.
    pub fn to_string(&self) -> (r: String)
        ensures
            r@ == self.line@,
    {
        self.line.clone()
    }

    /// The text inside the first bracketed token of the line.
    pub fn time_token(&self) -> (r: Option<String>)
        ensures
            text_of(r) == bracket_from(self.line@, 0),
    {
        regex_first_group(r"\[(.*?)\]", self.line.as_str())
    }

    /// The time the line was written: its leading time of day on today's
    /// local date, in milliseconds since the Unix epoch (UTC). `None` where
    /// the line has no bracketed token, or the token is no time of day.
    pub fn extract_timestamp(&self) -> (r: Option<i64>)
        ensures
            bracket_from(self.line@, 0) is None ==> r is None,
            bracket_from(self.line@, 0) matches Some(tok) && naive_time_of(tok, time_format()) is None ==> r is None,
    {
        extract_timestamp(self.line.as_str())
    }
}

/// What an event shows of its payload.
pub open spec fn payload_text(p: EventPayload) -> Seq<char> {
    match p {
        EventPayload::StdLine { line } => line.line@,
        EventPayload::StateChange { old, new } => "State changed: "@ + status_name(old) + " -> "@ + status_name(new),
    }
}

/// An event shown with its identifier and time, then its payload.
pub open spec fn event_text(id: Seq<char>, time: Seq<char>, p: EventPayload) -> Seq<char> {
    "UUID: "@ + id + "\nTimestamp:"@ + time + "\nPayload:\n"@ + payload_text(p) + "\n"@
}

/// The text shown for an event time that cannot be represented.
pub open spec fn unrepresentable_time() -> Seq<char> {
    "out of range"@
}

/// Shows an event from the texts of its identifier and time.
pub fn render_event(id: &str, time: &str, payload: &EventPayload) -> (r: String)
    ensures
        r@ == event_text(id@, time@, *payload),
{
    let mut r = String::from_str("UUID: ");
    r.append(id);
    r.append("\nTimestamp:");
    r.append(time);
    r.append("\nPayload:\n");
    match payload {
        EventPayload::StdLine { line } => r.append(line.line.as_str()),
        EventPayload::StateChange { old, new } => {
            r.append("State changed: ");
            r.append(old.name().as_str());
            r.append(" -> ");
            r.append(new.name().as_str());
        },
    }
    r.append("\n");
    r
}

/// The time a log line was written, read from its leading time of day on
/// today's local date, in milliseconds since the Unix epoch (UTC).
pub fn extract_timestamp(input: &str) -> (r: Option<i64>)
    ensures
        bracket_from(input@, 0) is None ==> r is None,
        bracket_from(input@, 0) matches Some(tok) && naive_time_of(tok, time_format()) is None ==> r is None,
{
    let token = match regex_first_group(r"\[(.*?)\]", input) {
        Some(t) => t,
        None => return None,
    };
    let (hour, minute, second) = match parse_time_of_day(token.as_str(), "%H:%M:%S") {
        Some(t) => t,
        None => return None,
    };
    local_today_at(hour, minute, second)
}

impl InstanceEvent {
    /// This event shown with its identifier, its time and its payload.
    pub fn to_string(&self) -> (r: String)
        ensures
            r@ == event_text(
                uuid_text_of(self.id),
                match utc_text_of(self.timestamp) {
                    Some(t) => t,
                    None => unrepresentable_time(),
                },
                self.payload,
            ),
    {
        let id = uuid_text(self.id);
        let time = match utc_text(self.timestamp) {
            Some(t) => t,
            None => String::from_str("out of range"),
        };
        render_event(id.as_str(), time.as_str(), &self.payload)
    }

    /// An event from its parts.
    pub fn with_payload(id: u128, timestamp: i64, payload: EventPayload) -> (r: InstanceEvent)
        ensures
            r.id == id,
            r.timestamp == timestamp,
            r.payload == payload,
    {
        InstanceEvent { id, timestamp, payload }
    }

    /// An event carrying a line; its time is the time read from the raw
    /// line where there is one, else `now`.
    pub fn from_line(line: StreamLine, id: u128, read_time: Option<i64>, now: i64) -> (r: InstanceEvent)
        ensures
            r.id == id,
            r.payload == (EventPayload::StdLine { line }),
            r.timestamp == match read_time {
                Some(t) => t,
                None => now,
            },
    {
        let timestamp = match read_time {
            Some(t) => t,
            None => now,
        };
        InstanceEvent { id, timestamp, payload: EventPayload::StdLine { line } }
    }

    /// An event for a line read from standard output: the line is kept
    /// without its log prefix, and its time is read from the raw line.
    pub fn stdout(line: &str) -> (r: InstanceEvent)
        ensures
            carries_line(r.payload, strip_log_prefix(line@), StreamSource::Stdout),
            is_v4_id(r.id),
    {
        let id = new_event_id();
        let read_time = extract_timestamp(line);
        let now = utc_now();
        InstanceEvent::from_line(StreamLine::stdout(line), id, read_time, now)
    }

    /// An event for a line read from standard error: the line is kept
    /// without its log prefix, and its time is read from the raw line.
    pub fn stderr(line: &str) -> (r: InstanceEvent)
        ensures
            carries_line(r.payload, strip_log_prefix(line@), StreamSource::Stderr),
            is_v4_id(r.id),
    {
        let id = new_event_id();
        let read_time = extract_timestamp(line);
        let now = utc_now();
        InstanceEvent::from_line(StreamLine::stderr(line), id, read_time, now)
    }

    /// An event recording a change of status, stamped with the current time.
    pub fn state_change(old: InstanceStatus, new: InstanceStatus) -> (r: InstanceEvent)
        ensures
            r.payload == (EventPayload::StateChange { old, new }),
            is_v4_id(r.id),
    {
        let id = new_event_id();
        let now = utc_now();
        InstanceEvent { id, timestamp: now, payload: EventPayload::StateChange { old, new } }
    }
}

} // verus!
