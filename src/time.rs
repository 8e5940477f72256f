use vstd::prelude::*;

verus! {

/// Seconds in one day.
pub const SECONDS_PER_DAY: i64 = 86400;

/// The feed's textual timestamp layout: `YYYY-MM-DD HH:MM:SS.mmm`, read as UTC.
pub const TIME_TAG_FORMAT: &'static str = "%Y-%m-%d %H:%M:%S%.3f";

/// Seconds since the epoch of the UTC instant that `text` spells in `format`,
/// or `None` where `text` does not match `format`.
pub uninterp spec fn utc_seconds_of(text: Seq<char>, format: Seq<char>) -> Option<i64>;

/// Relies on chrono's `NaiveDateTime::parse_from_str`, taken as UTC through
/// `and_utc`, and `DateTime::timestamp`: the outcome depends on the two strings alone.
#[verifier::external_body]
pub(crate) fn parse_utc_seconds(text: &str, format: &str) -> (r: Option<i64>)
    ensures
        r == utc_seconds_of(text@, format@),
{
    match chrono::NaiveDateTime::parse_from_str(text, format) {
        Ok(t) => Some(t.and_utc().timestamp()),
        Err(_) => None,
    }
}

/// Relies on chrono's `Utc::now` and `DateTime::timestamp`: the current time in
/// whole seconds since the epoch. `Utc::now` panics on a clock set before the
/// epoch, so what it returns is never negative.
#[verifier::external_body]
pub(crate) fn now_unix_seconds() -> (r: i64)
    ensures
        r >= 0,
{
    chrono::Utc::now().timestamp()
}

/// Start of the UTC day that contains `now`.
pub open spec fn day_start(now: int) -> int {
    (now / SECONDS_PER_DAY as int) * SECONDS_PER_DAY as int
}

/// The watermark used when nothing can be learned from the table: one full day
/// before the start of the current UTC day.
pub open spec fn lookback_watermark(now: int) -> int {
    day_start(now) - SECONDS_PER_DAY as int
}

/// The look-back watermark for the instant `now` (seconds since the epoch).
pub fn lookback_default(now: i64) -> (r: i64)
    requires
        now >= 0,
    ensures
        r == lookback_watermark(now as int),
        r % SECONDS_PER_DAY == 0,
        r <= now - SECONDS_PER_DAY,
        r > now - 2 * SECONDS_PER_DAY,
{
    let start: i64 = now - now % SECONDS_PER_DAY;
    assert(start as int == day_start(now as int)) by (nonlinear_arith)
        requires
            now >= 0,
            start == now - now % 86400,
    {
    }
    proof {
        assert(day_start(now as int) % 86400 == 0) by (nonlinear_arith)
            requires
                now >= 0,
        {
        }
    }
    start - SECONDS_PER_DAY
}

} // verus!
