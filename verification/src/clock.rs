//! Instants and calendar days. An instant is a count of microseconds since
//! the Unix epoch (UTC); a calendar day is its number of days from the
//! common era, as `chrono` counts them.
use vstd::prelude::*;

verus! {

/// The earliest instant, in microseconds, that the clock reads: the Unix epoch
/// (`Utc::now` panics on a system clock set before it).
pub const EARLIEST_INSTANT: i64 = 0;

/// The latest instant, in microseconds, that `chrono` represents: the last
/// microsecond of 262142-12-31, the last day of its last year.
pub const LATEST_INSTANT: i64 = 8_210_266_876_799_999_999;

/// `t` is an instant, in microseconds, that the clock read (`now_micros` gave
/// it). Outside this module nothing else is known of it but what
/// `lemma_clock_reading` gives: in particular no instant chosen by a caller is
/// known to be one, so a value with this mark was taken from the clock.
pub closed spec fn clock_reading(t: int) -> bool {
    EARLIEST_INSTANT <= t <= LATEST_INSTANT
}

/// `t` is an instant, in whole seconds, that the clock read (`now_seconds`
/// gave it); known outside this module only through `lemma_clock_seconds`.
pub closed spec fn clock_seconds(t: int) -> bool {
    EARLIEST_INSTANT / 1_000_000 <= t <= LATEST_INSTANT / 1_000_000
}

/// A clock reading lies between the Unix epoch and `chrono`'s last instant.
pub proof fn lemma_clock_reading(t: int)
    requires
        clock_reading(t),
    ensures
        EARLIEST_INSTANT <= t <= LATEST_INSTANT,
{
}

/// A clock reading in seconds lies between the Unix epoch and `chrono`'s last
/// second.
pub proof fn lemma_clock_seconds(t: int)
    requires
        clock_seconds(t),
    ensures
        EARLIEST_INSTANT / 1_000_000 <= t <= LATEST_INSTANT / 1_000_000,
{
}

/// `Utc::now().timestamp_micros()`: the current instant. What it reads depends
/// on the clock; it is never before the Unix epoch (else `Utc::now` panics) and
/// within the range that `chrono`'s dates cover.
#[verifier::external_body]
pub(crate) fn now_micros() -> (t: i64)
    ensures
        EARLIEST_INSTANT <= t <= LATEST_INSTANT,
        clock_reading(t as int),
{
    chrono::Utc::now().timestamp_micros()
}

/// `Utc::now().timestamp()`: the current instant in whole seconds. What it reads
/// depends on the clock; it is never before the Unix epoch (else `Utc::now`
/// panics) and within the range that `chrono`'s dates cover.
#[verifier::external_body]
pub(crate) fn now_seconds() -> (t: i64)
    ensures
        EARLIEST_INSTANT / 1_000_000 <= t <= LATEST_INSTANT / 1_000_000,
        clock_seconds(t as int),
{
    chrono::Utc::now().timestamp()
}

/// What `NaiveDate`'s `Display` writes for the day numbered `days` from the
/// common era (and the empty text where `chrono` has no such day).
pub uninterp spec fn date_display(days: int) -> Seq<char>;

/// `NaiveDate::from_num_days_from_ce_opt(days)` rendered with `to_string`; the
/// empty text where `chrono` has no such day.
#[verifier::external_body]
pub(crate) fn date_text(days: i32) -> (r: String)
    ensures
        r@ == date_display(days as int),
{
    match chrono::NaiveDate::from_num_days_from_ce_opt(days) {
        Some(d) => d.to_string(),
        None => String::new(),
    }
}

} // verus!
