//! Points in time, counted in microseconds since the start of 1970 on a
//! clock without a time zone.

use vstd::prelude::*;

verus! {

/// How long a confirmation can be redeemed: 24 hours, in microseconds.
pub const CONFIRMATION_TTL: i64 = 86_400_000_000;

/// The text that chrono prints for a point in time under the pattern of the
/// confirmation mail, or `None` where chrono cannot hold that point.
pub uninterp spec fn expiry_text(at: i64) -> Option<Seq<char>>;

/// Reads the local wall clock with `chrono::Local::now`, drops the zone with
/// `naive_local` and counts microseconds with `and_utc().timestamp_micros()`.
/// Nothing is claimed of the value.
#[verifier::external_body]
pub(crate) fn local_now() -> i64 {
    chrono::Local::now().naive_local().and_utc().timestamp_micros()
}

/// Makes a date and time with `chrono::DateTime::from_timestamp_micros`, which
/// gives none for a point outside chrono's range, and prints it with
/// `NaiveDateTime::format` under the pattern `%I:%M %p %A, %-d %B, %C%y`. The
/// result is a function of the point alone, named [`expiry_text`].
#[verifier::external_body]
pub(crate) fn print_expiry(at: i64) -> (text: Option<String>)
    ensures
        match text {
            Some(t) => expiry_text(at) == Some(t@),
            None => expiry_text(at) is None,
        },
{
    match chrono::DateTime::from_timestamp_micros(at) {
        Some(t) => Some(t.naive_utc().format("%I:%M %p %A, %-d %B, %C%y").to_string()),
        None => None,
    }
}

/// The moment at which a confirmation made at `now` expires: the fixed
/// time to live later, or the last moment that can be counted.
pub open spec fn expiry_after(now: i64) -> i64 {
    if now + CONFIRMATION_TTL > i64::MAX {
        i64::MAX
    } else {
        (now + CONFIRMATION_TTL) as i64
    }
}

/// Computes [`expiry_after`].
pub fn expires_after(now: i64) -> (at: i64)
    ensures
        at == expiry_after(now),
{
    if now > i64::MAX - CONFIRMATION_TTL {
        i64::MAX
    } else {
        now + CONFIRMATION_TTL
    }
}

} // verus!
