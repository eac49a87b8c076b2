//! Clock reading and time formatting.

use std::time::{SystemTime, UNIX_EPOCH};

use vstd::prelude::*;

verus! {

/// Relies on std's `SystemTime::now` and `duration_since(UNIX_EPOCH)`: the
/// current time as milliseconds since the Unix epoch. A clock before the
/// epoch reads as zero, and a value beyond `i64` saturates, so the result is
/// never negative; nothing else can be said of a clock.
#[verifier::external_body]
pub fn now_unix_millis() -> (r: i64)
    ensures
        r >= 0,
{
    let ms = SystemTime::now().duration_since(UNIX_EPOCH).unwrap_or_default().as_millis();
    i64::try_from(ms).unwrap_or(i64::MAX)
}

/// Splits a duration in seconds into hours, minutes and seconds; a negative
/// duration reads as zero.
pub fn secs_to_hms(secs: i64) -> (r: (i64, i64, i64))
    ensures
        ({
            let s = if secs < 0 {
                0
            } else {
                secs as int
            };
            r.0 == s / 3600 && r.1 == (s % 3600) / 60 && r.2 == s % 60
        }),
        0 <= r.1 < 60,
        0 <= r.2 < 60,
{
    let s: i64 = if secs < 0 {
        0
    } else {
        secs
    };
    let h = s / 3600;
    let m = (s % 3600) / 60;
    let sec = s % 60;
    (h, m, sec)
}

/// Relies on chrono's timestamp conversion and formatting in the machine's
/// local timezone, minute precision; an unrepresentable timestamp renders as
/// nothing. Timezone-dependent, so nothing is assumed of the text.
#[verifier::external_body]
fn format_local_minutes(ms: i64) -> (r: String) {
    match chrono::DateTime::<chrono::Utc>::from_timestamp_millis(ms) {
        Some(utc) => utc.with_timezone(&chrono::Local).format("%Y-%m-%d %H:%M").to_string(),
        None => String::new(),
    }
}

/// Renders an epoch-millisecond timestamp for display in the local
/// timezone; zero or negative timestamps render as nothing.
pub fn format_unix_millis(ms: i64) -> (r: String)
    ensures
        ms <= 0 ==> r@ == Seq::<char>::empty(),
{
    if ms <= 0 {
        return String::new();
    }
    format_local_minutes(ms)
}

} // verus!
