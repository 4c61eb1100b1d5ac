//! The three regular expressions the library matches log text against,
//! each with a statement of what it matches.

use vstd::prelude::*;

use regex::Regex;

use crate::text::{index_of, is_digit, occurs_at, skip_spaces};

verus! {

/// The expression for the readiness marker `Done (<seconds>s)!`.
pub open spec fn ready_pattern() -> Seq<char> {
    r"Done \([0-9.]+s\)!"@
}

/// The expression for the two bracketed tokens that open a log line.
pub open spec fn log_prefix_pattern() -> Seq<char> {
    r"^\[[^\]]*\]\s*\[[^\]]*\]:\s*"@
}

/// The expression for the first bracketed token of a line.
pub open spec fn bracket_pattern() -> Seq<char> {
    r"\[(.*?)\]"@
}

/// `t[i..j]` is made of digits and dots only.
pub open spec fn seconds_text(t: Seq<char>, i: int, j: int) -> bool {
    forall|k: int| i <= k < j ==> is_digit(#[trigger] t[k]) || t[k] == '.'
}

/// A readiness marker starts at `i` in `t`, and its seconds end at `j`.
pub open spec fn ready_marker_at(t: Seq<char>, i: int, j: int) -> bool {
    &&& occurs_at(t, seq!['D', 'o', 'n', 'e', ' ', '('], i)
    &&& i + 6 < j
    &&& seconds_text(t, i + 6, j)
    &&& occurs_at(t, seq!['s', ')', '!'], j)
}

/// `t` holds a readiness marker somewhere.
pub open spec fn has_ready_marker(t: Seq<char>) -> bool {
    exists|i: int, j: int| ready_marker_at(t, i, j)
}

/// How many leading characters of `t` the log-prefix expression matches:
/// `[`, anything but `]`, `]`, white space, `[`, anything but `]`, `]:`,
/// white space; zero where it does not match.
pub open spec fn log_prefix_len(t: Seq<char>) -> int {
    if t.len() > 0 && t[0] == '[' {
        let e1 = index_of(t, ']', 1);
        let p = skip_spaces(t, e1 + 1);
        if e1 < t.len() && p < t.len() && t[p] == '[' {
            let e2 = index_of(t, ']', p + 1);
            if e2 + 1 < t.len() && t[e2 + 1] == ':' {
                skip_spaces(t, e2 + 2)
            } else {
                0
            }
        } else {
            0
        }
    } else {
        0
    }
}

/// `t` without the two bracketed tokens that open a log line.
pub open spec fn strip_log_prefix(t: Seq<char>) -> Seq<char> {
    t.subrange(log_prefix_len(t), t.len() as int)
}

/// The text inside the first `[...]` at or after `i` that closes on the
/// same line; the text ends at the first `]`.
pub open spec fn bracket_from(t: Seq<char>, i: int) -> Option<Seq<char>>
    decreases t.len() - i,
{
    if i >= t.len() {
        None
    } else if t[i] == '[' && index_of(t, ']', i + 1) < t.len() && index_of(t, ']', i + 1)
        < index_of(t, '\n', i + 1) {
        Some(t.subrange(i + 1, index_of(t, ']', i + 1)))
    } else {
        bracket_from(t, i + 1)
    }
}

/// The characters of an optional text.
pub open spec fn text_of(r: Option<String>) -> Option<Seq<char>> {
    match r {
        Some(s) => Some(s@),
        None => None,
    }
}

/// Relies on `regex::Regex::new` and `Regex::is_match`: whether the
/// expression matches anywhere in `text`; `None` where it does not compile.
#[verifier::external_body]
pub(crate) fn regex_is_match(pattern: &str, text: &str) -> (r: Option<bool>)
    ensures
        pattern@ == ready_pattern() ==> r == Some(has_ready_marker(text@)),
{
    match Regex::new(pattern) {
        Ok(re) => Some(re.is_match(text)),
        Err(_) => None,
    }
}

/// Relies on `regex::Regex::new` and `Regex::replace`: `text` with its
/// leftmost match replaced by `with`; `None` where the expression does not
/// compile.
#[verifier::external_body]
pub(crate) fn regex_replace(pattern: &str, text: &str, with: &str) -> (r: Option<String>)
    ensures
        pattern@ == log_prefix_pattern() && with@.len() == 0 ==> text_of(r) == Some(strip_log_prefix(text@)),
{
    match Regex::new(pattern) {
        Ok(re) => Some(re.replace(text, with).into_owned()),
        Err(_) => None,
    }
}

/// Relies on `regex::Regex::new` and `Regex::captures`: the text of the
/// first group of the leftmost match; `None` where there is no match or
/// the expression does not compile.
#[verifier::external_body]
pub(crate) fn regex_first_group(pattern: &str, text: &str) -> (r: Option<String>)
    ensures
        pattern@ == bracket_pattern() ==> text_of(r) == bracket_from(text@, 0),
{
    let re = match Regex::new(pattern) {
        Ok(re) => re,
        Err(_) => return None,
    };
    match re.captures(text) {
        Some(caps) => caps.get(1).map(|m| m.as_str().to_string()),
        None => None,
    }
}

} // verus!
