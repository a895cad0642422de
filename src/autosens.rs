//! Sensitivity drift: a bounded ratio from deviations outside meals.
use vstd::prelude::*;
use vstd::string::*;
use crate::deviation::{deviation, deviation_at, lemma_div_le, DeviationSample};
use crate::error::OrefError;

verus! {

/// Quotient rounded toward zero.
pub open spec fn div_toward_zero(a: int, b: int) -> int {
    if a >= 0 {
        a / b
    } else {
        -((-a) / b)
    }
}

pub open spec fn clamp_ratio(x: int, lo: int, hi: int) -> int {
    if x < lo {
        lo
    } else if x > hi {
        hi
    } else {
        x
    }
}

/// Sum of the deviations of the first `n` samples that are outside meals.
pub open spec fn kept_sum(s: Seq<DeviationSample>, sens: int, n: int) -> int
    decreases n,
{
    if n <= 1 {
        0
    } else if s[n - 1].meal_affected {
        kept_sum(s, sens, n - 1)
    } else {
        kept_sum(s, sens, n - 1) + deviation_at(s, n - 1, sens)
    }
}

/// How many of the first `n` samples count.
pub open spec fn kept_count(s: Seq<DeviationSample>, n: int) -> int
    decreases n,
{
    if n <= 1 {
        0
    } else if s[n - 1].meal_affected {
        kept_count(s, n - 1)
    } else {
        kept_count(s, n - 1) + 1
    }
}

/// Unclamped ratio (thousandths): one plus the mean deviation expressed as
/// extra insulin per hour relative to the scheduled basal.
pub open spec fn raw_ratio(s: Seq<DeviationSample>, sens: int, basal: int) -> int {
    let c = kept_count(s, s.len() as int);
    if c == 0 {
        1000
    } else {
        1000 + div_toward_zero(
            div_toward_zero(kept_sum(s, sens, s.len() as int), c) * 12_000_000,
            sens * basal,
        )
    }
}

/// Sensitivity ratio (thousandths) from a window of samples five minutes
/// apart, at sensitivity `sens` (mg/dL per unit) and basal `basal` (mU/h),
/// clamped to `[min, max]`. Fails when `sens` or `basal` is zero or when
/// `min > max`.
pub fn detect_sensitivity(
    samples: &Vec<DeviationSample>,
    sens: u16,
    basal: u32,
    min: u32,
    max: u32,
) -> (r: Result<u32, OrefError>)
    ensures
        r is Err <==> (sens == 0 || basal == 0 || min > max),
        r is Err ==> r->Err_0 is InvalidProfile,
        r is Ok ==> r->Ok_0 == clamp_ratio(raw_ratio(samples@, sens as int, basal as int), min as int, max as int),
        r is Ok ==> min <= r->Ok_0 <= max,
{
    if sens == 0 || basal == 0 || min > max {
        return Err(OrefError::InvalidProfile(String::from_str("invalid sensitivity bounds")));
    }
    let n = samples.len();
    let mut sum: i128 = 0;
    let mut count: u64 = 0;
    let mut i: usize = 1;
    while i < n
        invariant
            n == samples@.len(),
            1 <= i,
            i <= n || i == 1,
            sum == kept_sum(samples@, sens as int, i as int),
            count == kept_count(samples@, i as int),
            -0x1_0000_0000 * count <= sum <= 0x2_0000_0000 * count,
            count <= i,
        decreases n - i,
    {
        let cur = samples[i];
        if !cur.meal_affected {
            let d = deviation(&samples[i - 1], &cur, sens);
            sum = sum + d as i128;
            count = count + 1;
        }
        i = i + 1;
    }
    proof {
        if n == 0 {
            assert(kept_sum(samples@, sens as int, 0) == 0);
            assert(kept_count(samples@, 0) == 0);
            assert(kept_count(samples@, 1) == 0);
            assert(kept_sum(samples@, sens as int, 1) == 0);
        } else {
            assert(i == n);
        }
    }
    assert(count == kept_count(samples@, samples@.len() as int));
    assert(sum == kept_sum(samples@, sens as int, samples@.len() as int));
    let raw: i128 = if count == 0 {
        1000
    } else {
        let mean: i128 = if sum >= 0 {
            sum / count as i128
        } else {
            -((-sum) / count as i128)
        };
        proof {
            if sum >= 0 {
                lemma_div_le(sum as int, count as int, 0x2_0000_0000);
            } else {
                lemma_div_le(-sum, count as int, 0x1_0000_0000);
            }
        }
        let x = mean * 12_000_000;
        assert(1 <= sens as i128 * basal as i128 <= 65535 * 0xFFFF_FFFF) by (nonlinear_arith)
            requires
                1 <= sens <= 65535,
                1 <= basal <= 0xFFFF_FFFF,
        ;
        let d = sens as i128 * basal as i128;
        let q = if x >= 0 {
            x / d
        } else {
            -((-x) / d)
        };
        1000 + q
    };
    if raw < min as i128 {
        Ok(min)
    } else if raw > max as i128 {
        Ok(max)
    } else {
        Ok(raw as u32)
    }
}

/// Whatever the deviations, the ratio stays within the configured bounds.
pub proof fn lemma_ratio_within_bounds(
    s: Seq<DeviationSample>,
    sens: int,
    basal: int,
    min: int,
    max: int,
)
    requires
        min <= max,
    ensures
        min <= clamp_ratio(raw_ratio(s, sens, basal), min, max) <= max,
{
}

} // verus!
