//! Instants of time and their RFC 3339 text, read and written by `chrono`.
//!
//! An instant is the pair of whole seconds since the Unix epoch and the
//! nanoseconds past that second (above 999 999 999 only inside a leap
//! second), the pair `DateTime::timestamp` and
//! `DateTime::timestamp_subsec_nanos` give; pairs are ordered
//! lexicographically, as the instants are.

use chrono::{DateTime, SecondsFormat, Utc};
use vstd::prelude::*;
use crate::text::opt_view;

verus! {

/// The instant that a text in RFC 3339 form names, or `None` where
/// `chrono` refuses the text.
pub uninterp spec fn rfc3339_instant(text: Seq<char>) -> Option<(i64, u32)>;

/// The RFC 3339 text, in whole seconds and with `Z` for UTC, of an instant,
/// or `None` where `chrono` cannot represent the instant.
pub uninterp spec fn utc_seconds_text(secs: i64, nanos: u32) -> Option<Seq<char>>;

/// A bound on the seconds of every instant that `chrono` represents: its
/// years lie within about 262 000 years of the epoch.
pub open spec fn instant_secs_bound() -> int {
    8_796_093_022_208
}

/// Whether a pair is one that `chrono` can hand out for an instant.
pub open spec fn plausible_instant(i: (i64, u32)) -> bool {
    -instant_secs_bound() < i.0 < instant_secs_bound() && i.1 < 2_000_000_000
}

/// `a` is not later than `b`.
pub open spec fn instant_le(a: (i64, u32), b: (i64, u32)) -> bool {
    a.0 < b.0 || (a.0 == b.0 && a.1 <= b.1)
}

/// Reads RFC 3339 text with `chrono::DateTime::parse_from_rfc3339` and
/// returns the instant it names. The claim: the result is what `chrono`
/// makes of the text, and an instant `chrono` hands out has its seconds
/// within its year range and nanoseconds below two seconds.
#[verifier::external_body]
pub(crate) fn parse_rfc3339_instant(text: &str) -> (r: Option<(i64, u32)>)
    ensures
        r == rfc3339_instant(text@),
        r matches Some(i) ==> plausible_instant(i),
{
    match DateTime::parse_from_rfc3339(text) {
        Ok(d) => Some((d.timestamp(), d.timestamp_subsec_nanos())),
        Err(_) => None,
    }
}

/// Reads the system clock with `chrono::Utc::now`. The claim: only that
/// the instant is one `chrono` can represent; which instant it is depends
/// on the machine.
#[verifier::external_body]
pub(crate) fn utc_now_instant() -> (r: (i64, u32))
    ensures
        plausible_instant(r),
{
    let now = Utc::now();
    (now.timestamp(), now.timestamp_subsec_nanos())
}

/// Writes an instant with `chrono::DateTime::from_timestamp` and
/// `to_rfc3339_opts(SecondsFormat::Secs, true)`. The claim: the result is
/// what `chrono` makes of the instant, `None` where it cannot represent it.
#[verifier::external_body]
pub(crate) fn format_utc_seconds(secs: i64, nanos: u32) -> (r: Option<String>)
    ensures
        opt_view(r) == utc_seconds_text(secs, nanos),
{
    match DateTime::<Utc>::from_timestamp(secs, nanos) {
        Some(d) => Some(d.to_rfc3339_opts(SecondsFormat::Secs, true)),
        None => None,
    }
}

} // verus!
