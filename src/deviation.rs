//! Glucose deviations: observed change minus the change insulin explains.
use vstd::prelude::*;
use vstd::arithmetic::div_mod::*;

verus! {

/// A glucose reading with the insulin activity at that moment; samples of a
/// history are five minutes apart.
#[derive(Debug, Clone, Copy, PartialEq, Eq, Structural)]
pub struct DeviationSample {
    /// Glucose (mg/dL).
    pub glucose: u32,
    /// Insulin activity (thousandths of a mU per minute).
    pub activity: u32,
    /// Whether carbs were still being absorbed.
    pub meal_affected: bool,
}

/// Glucose drop (mg/dL) that `activity` explains over five minutes at
/// sensitivity `sens`.
pub open spec fn insulin_drop(activity: int, sens: int) -> int {
    5 * activity * sens / 1_000_000
}

/// Deviation (mg/dL per 5 minutes) between sample `i - 1` and sample `i`.
pub open spec fn deviation_at(s: Seq<DeviationSample>, i: int, sens: int) -> int {
    s[i].glucose - s[i - 1].glucose + insulin_drop(s[i].activity as int, sens)
}

/// A non-negative quotient bounded through its numerator.
pub proof fn lemma_div_le(x: int, d: int, b: int)
    requires
        0 <= x <= b * d,
        d > 0,
        b >= 0,
    ensures
        0 <= x / d <= b,
{
    lemma_div_is_ordered(x, b * d, d);
    lemma_div_by_multiple(b, d);
    lemma_div_pos_is_pos(x, d);
}

/// Deviation (mg/dL per 5 minutes) from `prev` to `cur`.
pub fn deviation(prev: &DeviationSample, cur: &DeviationSample, sens: u16) -> (r: i64)
    ensures
        r == cur.glucose - prev.glucose + insulin_drop(cur.activity as int, sens as int),
        -0x1_0000_0000 <= r <= 0x2_0000_0000,
{
    assert(5 * cur.activity as u64 * sens as u64 <= 5 * 0xFFFF_FFFF * 65535) by (nonlinear_arith)
        requires
            cur.activity <= 0xFFFF_FFFF,
            sens <= 65535,
    ;
    let x = 5 * cur.activity as u64 * sens as u64;
    proof {
        lemma_div_le(x as int, 1_000_000, 0x1_0000_0000);
    }
    let drop = x / 1_000_000;
    cur.glucose as i64 - prev.glucose as i64 + drop as i64
}

} // verus!
