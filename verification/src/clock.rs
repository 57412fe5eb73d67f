//! The wall clock.

use vstd::prelude::*;

verus! {

/// Calls `chrono::Utc::now` and converts the instant to milliseconds since
/// the Unix epoch with `DateTime::timestamp_millis`. Nothing is promised of
/// the value: it is whatever the system clock says.
#[verifier::external_body]
pub(crate) fn now_millis() -> (r: i64) {
    chrono::Utc::now().timestamp_millis()
}

/// Milliseconds in one day.
pub const MILLIS_PER_DAY: i64 = 86_400_000;

/// The instant `days` days before `now`, clamped to the representable
/// range.
pub open spec fn cutoff_before(now: i64, days: i64) -> i64 {
    let exact = now - days * MILLIS_PER_DAY;
    if exact < i64::MIN {
        i64::MIN
    } else if exact > i64::MAX {
        i64::MAX
    } else {
        exact as i64
    }
}

/// The instant before which entries are older than the retention window
/// of `days` days.
pub fn retention_cutoff(now: i64, days: i64) -> (r: i64)
    ensures
        r == cutoff_before(now, days),
{
    assert(-0x8000_0000_0000_0000 * 86_400_000 <= days * 86_400_000 <= 0x8000_0000_0000_0000
        * 86_400_000) by (nonlinear_arith)
        requires
            -0x8000_0000_0000_0000 <= days <= 0x8000_0000_0000_0000,
    ;
    let span: i128 = (days as i128) * (MILLIS_PER_DAY as i128);
    let exact: i128 = (now as i128) - span;
    if exact < i64::MIN as i128 {
        i64::MIN
    } else if exact > i64::MAX as i128 {
        i64::MAX
    } else {
        exact as i64
    }
}

} // verus!
