use vstd::prelude::*;

verus! {

/// `a + b` clamped into `i64`'s range: expiry timestamps saturate instead of
/// wrapping.
pub open spec fn sat_add(a: i64, b: i64) -> i64 {
    if a + b > i64::MAX {
        i64::MAX
    } else if a + b < i64::MIN {
        i64::MIN
    } else {
        (a + b) as i64
    }
}

/// `a + b` with saturation at the ends of `i64`'s range.
pub fn saturating_add_i64(a: i64, b: i64) -> (r: i64)
    ensures
        r == sat_add(a, b),
{
    if b >= 0 {
        if a > i64::MAX - b {
            i64::MAX
        } else {
            a + b
        }
    } else {
        if a < i64::MIN - b {
            i64::MIN
        } else {
            a + b
        }
    }
}

/// Relies on chrono's `Utc::now`, read as unix seconds through
/// `DateTime::timestamp`, for the wall-clock moment a request is served.  The
/// clock's value is not predictable, so nothing is promised of it.
#[verifier::external_body]
pub(crate) fn now_ts() -> i64 {
    chrono::Utc::now().timestamp()
}

} // verus!
