//! The rate-limit line of the header bar: remaining requests and the time
//! until the budget resets.
use crate::api::models::RateLimitInfo;
use crate::text::{decimal_text, push_decimal};
use vstd::prelude::*;

verus! {

/// The earliest Unix timestamp chrono represents: the first second of
/// `NaiveDate::MIN` (January 1 of the year -262143).
pub const MIN_UTC_TIMESTAMP: i64 = -8334601228800;

/// The latest Unix timestamp chrono represents: the last second of
/// `NaiveDate::MAX` (December 31 of the year 262142).
pub const MAX_UTC_TIMESTAMP: i64 = 8210266876799;

/// Whether chrono represents the Unix timestamp `secs` as a `DateTime<Utc>`
/// (`DateTime::from_timestamp(secs, 0)` is `Some`): exactly the timestamps
/// whose day lies between `NaiveDate::MIN` and `NaiveDate::MAX`.
pub open spec fn utc_timestamp_valid(secs: i64) -> bool {
    MIN_UTC_TIMESTAMP <= secs <= MAX_UTC_TIMESTAMP
}

/// Asks chrono whether `DateTime::from_timestamp(secs, 0)` succeeds, which it
/// does exactly for timestamps within chrono's date range.
#[verifier::external_body]
fn timestamp_representable(secs: i64) -> (ok: bool)
    ensures
        ok == utc_timestamp_valid(secs),
{
    chrono::DateTime::from_timestamp(secs, 0).is_some()
}

pub const NANOS_PER_SECOND: i128 = 1_000_000_000;

/// Whole seconds in a span of nanoseconds, rounded toward zero (as
/// `TimeDelta::num_seconds` counts them).
pub open spec fn whole_seconds(nanos: int) -> int {
    if nanos >= 0 {
        nanos / 1_000_000_000
    } else {
        -((-nanos) / 1_000_000_000)
    }
}

/// Seconds from `now` (Unix seconds plus nanoseconds) until the reset time.
/// A reset time chrono cannot represent is replaced by the present, which
/// leaves no time.
pub open spec fn seconds_until_reset(reset: i64, now_secs: i64, now_nanos: u32) -> int {
    if utc_timestamp_valid(reset) {
        whole_seconds((reset - now_secs) * 1_000_000_000 - now_nanos)
    } else {
        0
    }
}

/// How long until the reset, coarsely: `now` once past, else whole seconds
/// under a minute, whole minutes under an hour, whole hours beyond.
pub open spec fn reset_countdown(secs: int) -> Seq<char> {
    if secs < 0 {
        "now"@
    } else if secs / 60 < 1 {
        decimal_text(secs) + "s"@
    } else if secs / 3600 < 1 {
        decimal_text(secs / 60) + "m"@
    } else {
        decimal_text(secs / 3600) + "h"@
    }
}

/// The rate-limit label: `Rate limit: <remaining>/<limit> (resets in
/// <countdown>)`, or `Rate limit: –` when nothing is known.
pub open spec fn rate_limit_label(info: Option<RateLimitInfo>, now_secs: i64, now_nanos: u32) -> Seq<char> {
    match info {
        None => "Rate limit: –"@,
        Some(i) => "Rate limit: "@ + decimal_text(i.remaining as int) + "/"@ + decimal_text(
            i.limit as int,
        ) + " (resets in "@ + reset_countdown(seconds_until_reset(i.reset, now_secs, now_nanos))
            + ")"@,
    }
}

fn truncating_seconds(nanos: i128) -> (s: i128)
    requires
        -170141183460469231731687303715884105727 <= nanos,
    ensures
        s == whole_seconds(nanos as int),
{
    if nanos >= 0 {
        nanos / NANOS_PER_SECOND
    } else {
        0 - ((0 - nanos) / NANOS_PER_SECOND)
    }
}

/// Builds the rate-limit label for the time `now` (Unix seconds and
/// nanoseconds).
pub fn rate_limit_label_text(info: Option<RateLimitInfo>, now_secs: i64, now_nanos: u32) -> (label: String)
    ensures
        label@ == rate_limit_label(info, now_secs, now_nanos),
{
    match info {
        None => String::from_str("Rate limit: –"),
        Some(i) => {
            let secs: i128 = if timestamp_representable(i.reset) {
                let span: i128 = (i.reset as i128 - now_secs as i128) * NANOS_PER_SECOND
                    - now_nanos as i128;
                truncating_seconds(span)
            } else {
                0
            };
            let mut label = String::from_str("Rate limit: ");
            push_decimal(&mut label, i.remaining as i128);
            label.append("/");
            push_decimal(&mut label, i.limit as i128);
            label.append(" (resets in ");
            if secs < 0 {
                label.append("now");
            } else if secs / 60 < 1 {
                push_decimal(&mut label, secs);
                label.append("s");
            } else if secs / 3600 < 1 {
                push_decimal(&mut label, secs / 60);
                label.append("m");
            } else {
                push_decimal(&mut label, secs / 3600);
                label.append("h");
            }
            label.append(")");
            label
        },
    }
}

} // verus!
