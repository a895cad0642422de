//! Carbs on board: what is left of a meal once glucose rises that insulin
//! does not explain have been counted as absorbed carbs.
use vstd::prelude::*;
use vstd::string::*;
use crate::deviation::{deviation, deviation_at, lemma_div_le, DeviationSample};
use crate::error::OrefError;
use crate::treatment::CobResult;

verus! {

pub open spec fn positive_part(x: int) -> int {
    if x > 0 {
        x
    } else {
        0
    }
}

/// Grams absorbed over the interval ending at sample `i`.
pub open spec fn grams_at(s: Seq<DeviationSample>, i: int, sens: int, carb_ratio: int) -> int {
    positive_part(deviation_at(s, i, sens)) * carb_ratio / sens
}

/// Grams absorbed over the intervals ending at samples `1..n`.
pub open spec fn absorbed(s: Seq<DeviationSample>, n: int, sens: int, carb_ratio: int) -> int
    decreases n,
{
    if n <= 1 {
        0
    } else {
        absorbed(s, n - 1, sens, carb_ratio) + grams_at(s, n - 1, sens, carb_ratio)
    }
}

/// Carbs still on board.
pub open spec fn spec_cob(
    entered: int,
    s: Seq<DeviationSample>,
    minutes: int,
    sens: int,
    carb_ratio: int,
    max_absorption: int,
) -> int {
    let a = absorbed(s, s.len() as int, sens, carb_ratio);
    if minutes >= max_absorption || a >= entered {
        0
    } else {
        entered - a
    }
}

/// Latest interval's deviation attributed to carbs (mg/dL per 5 minutes).
pub open spec fn spec_carb_impact(s: Seq<DeviationSample>, sens: int) -> int {
    if s.len() < 2 {
        0
    } else {
        let d = positive_part(deviation_at(s, s.len() - 1, sens));
        if d > 65535 {
            65535
        } else {
            d
        }
    }
}

/// Carbs on board `minutes` after a meal of `entered` grams, from the
/// samples taken every five minutes since the meal. Fails when `sens` is
/// zero.
pub fn calculate_cob(
    entered: u16,
    samples: &Vec<DeviationSample>,
    minutes: u32,
    sens: u16,
    carb_ratio: u16,
    max_absorption: u32,
) -> (r: Result<CobResult, OrefError>)
    ensures
        r is Err <==> sens == 0,
        r is Err ==> r->Err_0 is InvalidProfile,
        r is Ok ==> r->Ok_0.cob == spec_cob(
            entered as int,
            samples@,
            minutes as int,
            sens as int,
            carb_ratio as int,
            max_absorption as int,
        ),
        r is Ok ==> r->Ok_0.carb_impact == spec_carb_impact(samples@, sens as int),
        r is Ok ==> r->Ok_0.cob <= entered,
        r is Ok && minutes >= max_absorption ==> r->Ok_0.cob == 0,
{
    if sens == 0 {
        return Err(OrefError::InvalidProfile(String::from_str("sensitivity is zero")));
    }
    let n = samples.len();
    let mut total: u128 = 0;
    let mut impact: u16 = 0;
    let mut i: usize = 1;
    while i < n
        invariant
            n == samples@.len(),
            sens > 0,
            1 <= i,
            i <= n || i == 1,
            total == absorbed(samples@, i as int, sens as int, carb_ratio as int),
            total <= i * 0x2_0000_0000_0000,
            impact == (if i >= 2 {
                spec_carb_impact(samples@.take(i as int), sens as int)
            } else {
                0
            }),
        decreases n - i,
    {
        let d = deviation(&samples[i - 1], &samples[i], sens);
        let pos: u64 = if d > 0 {
            d as u64
        } else {
            0
        };
        assert(pos * carb_ratio <= 0x2_0000_0000 * 65535) by (nonlinear_arith)
            requires
                pos <= 0x2_0000_0000,
                carb_ratio <= 65535,
        ;
        let x = pos * carb_ratio as u64;
        proof {
            assert(x <= 0x2_0000_0000_0000 * sens) by (nonlinear_arith)
                requires
                    x <= 0x2_0000_0000 * 65535,
                    sens >= 1,
            ;
            lemma_div_le(x as int, sens as int, 0x2_0000_0000_0000);
            assert(samples@.take(i + 1)[i as int] == samples@[i as int]);
            assert(samples@.take(i + 1)[i - 1] == samples@[i - 1]);
        }
        total = total + (x / sens as u64) as u128;
        impact = if pos > 65535 {
            65535
        } else {
            pos as u16
        };
        i = i + 1;
    }
    proof {
        if n >= 2 {
            assert(samples@.take(n as int) =~= samples@);
        }
    }
    let cob: u16 = if minutes >= max_absorption || total >= entered as u128 {
        0
    } else {
        entered - total as u16
    };
    Ok(CobResult { cob, carb_impact: impact })
}

/// Absorption is never negative.
pub proof fn lemma_absorbed_nonnegative(s: Seq<DeviationSample>, n: int, sens: int, carb_ratio: int)
    requires
        sens > 0,
        carb_ratio >= 0,
    ensures
        absorbed(s, n, sens, carb_ratio) >= 0,
    decreases n,
{
    if n > 1 {
        lemma_absorbed_nonnegative(s, n - 1, sens, carb_ratio);
        let x = positive_part(deviation_at(s, n - 1, sens)) * carb_ratio;
        assert(x >= 0) by (nonlinear_arith)
            requires
                x == positive_part(deviation_at(s, n - 1, sens)) * carb_ratio,
                positive_part(deviation_at(s, n - 1, sens)) >= 0,
                carb_ratio >= 0,
        ;
        assert(x <= x * sens) by (nonlinear_arith)
            requires
                x >= 0,
                sens >= 1,
        ;
        lemma_div_le(x, sens, x);
    }
}

/// Carbs on board stay between none and what was entered, and are none once
/// the absorption horizon has passed.
pub proof fn lemma_cob_bounds(
    entered: int,
    s: Seq<DeviationSample>,
    minutes: int,
    sens: int,
    carb_ratio: int,
    max_absorption: int,
)
    requires
        entered >= 0,
        sens > 0,
        carb_ratio >= 0,
    ensures
        0 <= spec_cob(entered, s, minutes, sens, carb_ratio, max_absorption) <= entered,
        minutes >= max_absorption ==> spec_cob(entered, s, minutes, sens, carb_ratio, max_absorption)
            == 0,
{
    lemma_absorbed_nonnegative(s, s.len() as int, sens, carb_ratio);
}

} // verus!
