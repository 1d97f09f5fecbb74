//! Timestamp rendering. The calendar arithmetic itself is done by the
//! `chrono` crate behind small trusted wrappers; everything that can be
//! stated about their results is stated here, and the rest of the library
//! treats the returned strings as data.

use vstd::prelude::*;

verus! {

/// What `chrono` renders an epoch second as in RFC 3339 form, at UTC: a
/// function of the timestamp alone. `None` stands for a timestamp outside
/// the range `chrono` can represent.
pub uninterp spec fn rfc3339_of(ts: i64) -> Option<Seq<char>>;

/// Relies on chrono's `TimeZone::timestamp_opt` at UTC and
/// `DateTime::to_rfc3339`: both depend only on the epoch second, and
/// `timestamp_opt` returns no value only out of chrono's date range.
#[verifier::external_body]
pub(crate) fn epoch_to_rfc3339(ts: i64) -> (r: Option<String>)
    ensures
        match r {
            Some(s) => rfc3339_of(ts) == Some(s@),
            None => rfc3339_of(ts) is None,
        },
{
    let dt = <chrono::Utc as chrono::TimeZone>::timestamp_opt(&chrono::Utc, ts, 0).single()?;
    Some(dt.to_rfc3339())
}

/// Relies on chrono's `TimeZone::timestamp_opt` at UTC, the conversion to
/// the local time zone, and `DateTime::format` with `%Y-%m-%d %H:%M`.
/// Whether a rendering exists depends on the epoch second alone — the very
/// range condition the RFC 3339 name carries, and every second an unsigned
/// 32-bit value can hold is inside it. The rendered text depends on the
/// machine's time zone, so all that is claimed of it is what holds in every
/// zone: this format writes digits and punctuation only, never the
/// `Invalid timestamp` placeholder.
#[verifier::external_body]
pub(crate) fn format_epoch_local(ts: i64) -> (r: Option<String>)
    ensures
        r is Some <==> rfc3339_of(ts) is Some,
        0 <= ts <= u32::MAX ==> r is Some,
        (r matches Some(s) ==> s@ != "Invalid timestamp"@),
{
    let dt = <chrono::Utc as chrono::TimeZone>::timestamp_opt(&chrono::Utc, ts, 0).single()?;
    let local: chrono::DateTime<chrono::Local> = chrono::DateTime::from(dt);
    Some(local.format("%Y-%m-%d %H:%M").to_string())
}

/// Relies on chrono's `Utc::now`: the clock decides the result, so nothing
/// is claimed of it.
#[verifier::external_body]
pub(crate) fn now_epoch_seconds() -> (r: i64) {
    chrono::Utc::now().timestamp()
}

} // verus!
