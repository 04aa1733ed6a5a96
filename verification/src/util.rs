//! Helpers for the conversation history views: truncation lengths, UTF-8
//! safe truncation, and epoch to ISO 8601 conversion.

use vstd::prelude::*;
use crate::text::{chars_of, decimal, decimal_string, string_from_chars};

verus! {

/// Maximum characters to keep for task_prompt truncation.
pub const PROMPT_TRUNCATE_LEN: usize = 200;

/// Maximum characters for text/thinking blocks in detail view.
pub const TEXT_TRUNCATE_LEN: usize = 500;

/// Maximum characters for tool input summary in detail view.
pub const TOOL_INPUT_TRUNCATE_LEN: usize = 300;

/// Maximum characters for tool result summary in detail view.
pub const TOOL_RESULT_TRUNCATE_LEN: usize = 200;

/// Maximum characters for error text in tool timeline.
pub const ERROR_TEXT_TRUNCATE_LEN: usize = 300;

/// `text` cut to at most `max_chars` characters: when something is cut, its
/// first `max_chars - 1` characters followed by `…` (nothing at all when
/// `max_chars` is 0).
pub open spec fn truncated(text: Seq<char>, max_chars: nat) -> Seq<char> {
    if text.len() <= max_chars {
        text
    } else if max_chars == 0 {
        Seq::<char>::empty()
    } else {
        text.take(max_chars - 1).push('…')
    }
}

/// Truncate `text` to at most `max_chars` characters (never inside a
/// character), marking a cut with `…`.
pub fn truncate_utf8(text: &str, max_chars: usize) -> (r: String)
    ensures
        r@ == truncated(text@, max_chars as nat),
        r@.len() <= max_chars,
{
    let chars = chars_of(text);
    if chars.len() <= max_chars {
        String::from_str(text)
    } else if max_chars == 0 {
        String::new()
    } else {
        let keep = max_chars - 1;
        let mut kept: Vec<char> = Vec::new();
        let mut i: usize = 0;
        while i < keep
            invariant
                i <= keep < max_chars < chars@.len(),
                kept@ == chars@.take(i as int),
            decreases keep - i,
        {
            kept.push(chars[i]);
            i = i + 1;
            assert(kept@ =~= chars@.take(i as int));
        }
        kept.push('…');
        string_from_chars(&kept)
    }
}

/// The day (counted from January 1 of year 1 as day 1) of the first and
/// the last date chrono represents: January 1, 262144 BCE (year -262143)
/// and December 31, 262142.
pub open spec fn first_chrono_day() -> int {
    -95_746_129
}

/// See `first_chrono_day`.
pub open spec fn last_chrono_day() -> int {
    95_745_399
}

/// Whether chrono has a UTC date-time for these seconds and nanoseconds
/// (`DateTime::from_timestamp(secs, nanos).is_some()`): the day falls
/// within chrono's dates (the Unix epoch is day 719163), and the
/// nanoseconds are below one second, or below two within the last second
/// of a minute (a leap second).
pub open spec fn utc_timestamp_exists(secs: i64, nanos: u32) -> bool {
    let days = (secs as int) / 86_400 + 719_163;
    let rest = (secs as int) % 86_400;
    &&& first_chrono_day() <= days <= last_chrono_day()
    &&& nanos < 2_000_000_000
    &&& (nanos >= 1_000_000_000 ==> rest % 60 == 59)
}

/// `chrono::DateTime::from_timestamp(secs, nanos)` rendered in the local time
/// zone with `to_rfc3339`. The contract states when a date-time exists (the
/// range check of `from_timestamp`, `NaiveDate::from_num_days_from_ce_opt`
/// and `NaiveTime::from_num_seconds_from_midnight_opt`); the text depends
/// on the machine's time zone and is left unsaid.
#[verifier::external_body]
fn local_rfc3339(secs: i64, nanos: u32) -> (r: Option<String>)
    ensures
        r.is_some() == utc_timestamp_exists(secs, nanos),
{
    chrono::DateTime::from_timestamp(secs, nanos).map(
        |dt| dt.with_timezone(&chrono::Local).to_rfc3339(),
    )
}

/// Convert epoch milliseconds to an ISO 8601 string in local time; an
/// out-of-range instant is rendered as `<epoch_ms>ms`.
pub fn epoch_ms_to_iso(epoch_ms: u64) -> (r: String)
    ensures
        !utc_timestamp_exists((epoch_ms / 1000) as i64, ((epoch_ms % 1000) * 1_000_000) as u32)
            ==> r@ == decimal(epoch_ms as nat) + "ms"@,
{
    let secs = (epoch_ms / 1000) as i64;
    let nanos = ((epoch_ms % 1000) * 1_000_000) as u32;
    match local_rfc3339(secs, nanos) {
        Some(s) => s,
        None => decimal_string(epoch_ms).concat("ms"),
    }
}

} // verus!
