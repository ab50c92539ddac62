//! Points in time, as microseconds since the Unix epoch (UTC).

use vstd::prelude::*;

verus! {

/// The earliest instant a `chrono::DateTime<Utc>` can hold, in microseconds.
pub const EARLIEST_MICROS: i64 = -8334601228800000000;

/// The latest instant a `chrono::DateTime<Utc>` can hold, in microseconds.
pub const LATEST_MICROS: i64 = 8210266876799999999;

/// The earliest instant a `chrono::DateTime<Utc>` can hold, in seconds.
pub const EARLIEST_SECS: i64 = -8334601228800;

/// The latest instant a `chrono::DateTime<Utc>` can hold, in seconds.
pub const LATEST_SECS: i64 = 8210266876799;

pub const MICROS_PER_MINUTE: i64 = 60000000;

pub const MICROS_PER_DAY: i64 = 86400000000;

/// Instants that `chrono` can represent.
pub open spec fn micros_in_range(t: i64) -> bool {
    EARLIEST_MICROS <= t <= LATEST_MICROS
}

pub open spec fn secs_in_range(t: i64) -> bool {
    EARLIEST_SECS <= t <= LATEST_SECS
}

/// The RFC 3339 text of an instant, as `chrono` writes it.
pub uninterp spec fn rfc3339_text(micros: i64) -> Seq<char>;

/// The current time (`chrono::Utc::now().timestamp_micros()`): an instant
/// `chrono` can represent, not before 1970 (`Utc::now` panics on a system
/// clock set before the Unix epoch); nothing more is known of it.
#[verifier::external_body]
pub(crate) fn now_micros() -> (t: i64)
    ensures
        micros_in_range(t),
        0 <= t,
{
    chrono::Utc::now().timestamp_micros()
}

/// The current time in whole seconds (`chrono::Utc::now().timestamp()`),
/// not before 1970 either.
#[verifier::external_body]
pub(crate) fn now_secs() -> (t: i64)
    ensures
        secs_in_range(t),
        0 <= t,
{
    chrono::Utc::now().timestamp()
}

/// `DateTime::<Utc>::from_timestamp_micros` followed by `to_rfc3339`: the
/// text exists exactly for the instants `chrono` can represent, and is a
/// function of the instant alone.
#[verifier::external_body]
pub(crate) fn rfc3339_of(micros: i64) -> (r: Option<String>)
    ensures
        r is Some <==> micros_in_range(micros),
        r matches Some(s) ==> s@ == rfc3339_text(micros),
{
    match chrono::DateTime::from_timestamp_micros(micros) {
        Some(d) => Some(d.to_rfc3339()),
        None => None,
    }
}

/// The RFC 3339 text of an instant, or the empty string for an instant that
/// `chrono` cannot represent.
pub fn format_rfc3339(micros: i64) -> (r: String)
    ensures
        micros_in_range(micros) ==> r@ == rfc3339_text(micros),
        !micros_in_range(micros) ==> r@ == Seq::<char>::empty(),
{
    match rfc3339_of(micros) {
        Some(s) => s,
        None => String::new(),
    }
}

} // verus!
