//! Rendering of epoch timestamps as RFC 3339 text.

use vstd::prelude::*;
use crate::model::TS_MAX;

verus! {

/// The RFC 3339 rendering of an epoch second, a function of the instant
/// alone.
pub uninterp spec fn rfc3339_of(t: int) -> Seq<char>;

/// Relies on chrono's `DateTime::<Utc>::from_timestamp` (defined for every
/// second of years 0 through 9999) and `DateTime::to_rfc3339`: the rendering
/// depends on the epoch second alone.
#[verifier::external_body]
pub fn format_rfc3339(t: i64) -> (r: String)
    requires
        0 <= t < TS_MAX,
    ensures
        r@ == rfc3339_of(t as int),
{
    chrono::DateTime::<chrono::Utc>::from_timestamp(t, 0).unwrap().to_rfc3339()
}

} // verus!
