//! Trusted boundary to `chrono` for timestamp handling.
//!
//! The backup tool reports `backup_start` and `backup_end` as RFC 3339
//! timestamps. Validation and rendering in UTC are delegated to `chrono`.

use vstd::prelude::*;

verus! {

/// The RFC 3339 rendering in UTC of a timestamp text, or `None` when the
/// text is not a valid RFC 3339 timestamp: what `chrono` computes from the
/// text alone.
pub uninterp spec fn rfc3339_utc(s: Seq<char>) -> Option<Seq<char>>;

/// Relies on chrono's DateTime::parse_from_rfc3339 for validation and
/// DateTime::<Utc>::to_rfc3339 for rendering; both depend on the text alone.
#[verifier::external_body]
pub(crate) fn normalize_rfc3339(s: &str) -> (r: Option<String>)
    ensures
        r is Some <==> rfc3339_utc(s@) is Some,
        r is Some ==> r.unwrap()@ == rfc3339_utc(s@).unwrap(),
{
    match chrono::DateTime::parse_from_rfc3339(s) {
        Ok(d) => Some(d.with_timezone(&chrono::Utc).to_rfc3339()),
        Err(_) => None,
    }
}

} // verus!
