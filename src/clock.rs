//! Calls for what depends on the machine: the clock, its time zone, and
//! random event identifiers; and the reading of a time of day.

use vstd::prelude::*;

use chrono::{TimeZone, Timelike};

use crate::pattern::text_of;

verus! {

/// What `chrono::NaiveTime::parse_from_str` reads from `s` under the
/// format `fmt`, as hour, minute and second.
pub uninterp spec fn naive_time_of(s: Seq<char>, fmt: Seq<char>) -> Option<(u32, u32, u32)>;

/// Relies on `chrono::NaiveTime::parse_from_str`: the time of day written
/// in `s`, with hour below 24, minute and second below 60.
#[verifier::external_body]
pub(crate) fn parse_time_of_day(s: &str, fmt: &str) -> (r: Option<(u32, u32, u32)>)
    ensures
        r == naive_time_of(s@, fmt@),
        r matches Some(t) ==> t.0 < 24 && t.1 < 60 && t.2 < 60,
{
    match chrono::NaiveTime::parse_from_str(s, fmt) {
        Ok(t) => Some((t.hour(), t.minute(), t.second())),
        Err(_) => None,
    }
}

/// Relies on `chrono::Local`: today's local date at the given time of day,
/// as milliseconds since the Unix epoch in UTC; `None` where the local
/// time is skipped or repeated on that date.
#[verifier::external_body]
pub(crate) fn local_today_at(hour: u32, minute: u32, second: u32) -> (r: Option<i64>) {
    let today = chrono::Local::now().date_naive();
    let naive = today.and_hms_opt(hour, minute, second)?;
    let local = chrono::Local.from_local_datetime(&naive).single()?;
    Some(local.with_timezone(&chrono::Utc).timestamp_millis())
}

/// Relies on `chrono::Utc::now`: the current time, as milliseconds since
/// the Unix epoch.
#[verifier::external_body]
pub(crate) fn utc_now() -> (r: i64) {
    chrono::Utc::now().timestamp_millis()
}

/// The lower-case hexadecimal digit for `d < 16`.
pub open spec fn hex_char(d: u128) -> char {
    if d < 10 {
        (d + 48) as char
    } else {
        (d + 87) as char
    }
}

/// The 32 lower-case hexadecimal digits of `id`, most significant first.
pub open spec fn hex_digits(id: u128) -> Seq<char> {
    Seq::new(32, |i: int| hex_char((id >> ((31 - i) * 4) as u128) & 0xfu128))
}

/// The hyphenated form of an identifier: its hexadecimal digits in groups
/// of 8, 4, 4, 4 and 12, joined by `-`.
pub open spec fn uuid_text_of(id: u128) -> Seq<char> {
    let h = hex_digits(id);
    h.subrange(0, 8) + seq!['-'] + h.subrange(8, 12) + seq!['-'] + h.subrange(12, 16) + seq!['-']
        + h.subrange(16, 20) + seq!['-'] + h.subrange(20, 32)
}

/// Relies on `uuid::Uuid::from_u128` and the `Display` of `Uuid`: the
/// hyphenated lower-case form.
#[verifier::external_body]
pub(crate) fn uuid_text(id: u128) -> (r: String)
    ensures
        r@ == uuid_text_of(id),
{
    uuid::Uuid::from_u128(id).to_string()
}

/// The text `chrono` writes for an instant given in milliseconds since the
/// Unix epoch; `None` where `chrono` cannot represent the instant.
pub uninterp spec fn utc_text_of(millis: i64) -> Option<Seq<char>>;

/// Relies on `chrono::DateTime::from_timestamp_millis` and the `Display`
/// of `DateTime<Utc>`.
#[verifier::external_body]
pub(crate) fn utc_text(millis: i64) -> (r: Option<String>)
    ensures
        text_of(r) == utc_text_of(millis),
{
    match chrono::DateTime::from_timestamp_millis(millis) {
        Some(t) => Some(t.to_string()),
        None => None,
    }
}

/// Relies on `uuid::Uuid::new_v4` and `Uuid::as_u128`: a random
/// identifier that carries version 4 and the RFC 4122 variant.
#[verifier::external_body]
pub(crate) fn new_event_id() -> (r: u128)
    ensures
        (r >> 76u128) & 0xfu128 == 4u128 && (r >> 62u128) & 0x3u128 == 2u128,
{
    uuid::Uuid::new_v4().as_u128()
}

} // verus!
