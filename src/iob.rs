//! Insulin on board: what a treatment history still has to deliver.
use vstd::prelude::*;
use vstd::arithmetic::div_mod::*;
use vstd::string::*;
use crate::curve_model::{
    activity, activity_rate, lemma_remaining_bounds, lemma_remaining_nonincreasing, remaining,
    remaining_fraction, BILINEAR_PEAK, ONE,
};
use crate::error::OrefError;
use crate::treatment::Treatment;

verus! {

/// Minutes between the virtual doses that a temp basal is split into.
pub const BASAL_STEP: u64 = 5;

/// Bound on what one treatment contributes, to any of the sums.
pub const PER_TREATMENT_BOUND: u128 = 0x100_0000_0000_0000;

/// Insulin on board at one instant.
#[derive(Debug, Clone, Copy, PartialEq, Eq, Structural)]
pub struct IobResult {
    /// Total insulin on board (mU).
    pub iob: u128,
    /// Part from boluses (mU).
    pub bolus_iob: u128,
    /// Part from temp basals (mU).
    pub basal_iob: u128,
    /// Current activity (thousandths of a mU per minute).
    pub activity: u128,
}

/// mU still to act from a dose of `amount` mU given `t` minutes ago.
pub open spec fn dose_iob(amount: int, t: int, end: int) -> int {
    amount * remaining(t, end) / (ONE as int)
}

/// Activity (thousandths of a mU per minute) of a dose of `amount` mU.
pub open spec fn dose_activity(amount: int, t: int, end: int) -> int {
    amount * activity(t, end) / 1000
}

/// IOB of the virtual dose of a basal at `rate` mU/h delivered `t` minutes
/// ago; a dose still in the future has not been delivered.
pub open spec fn basal_dose_iob(rate: int, t: int, end: int) -> int {
    if t < 0 {
        0
    } else {
        rate * remaining(t, end) / (12 * ONE as int)
    }
}

pub open spec fn basal_dose_activity(rate: int, t: int, end: int) -> int {
    if t < 0 {
        0
    } else {
        rate * activity(t, end) / 12_000
    }
}

/// IOB of the first `n` virtual doses of a temp basal started `t` minutes ago.
pub open spec fn basal_doses_iob(rate: int, t: int, end: int, n: nat) -> int
    decreases n,
{
    if n == 0 {
        0
    } else {
        basal_doses_iob(rate, t, end, (n - 1) as nat) + basal_dose_iob(
            rate,
            t - BASAL_STEP * (n - 1),
            end,
        )
    }
}

pub open spec fn basal_doses_activity(rate: int, t: int, end: int, n: nat) -> int
    decreases n,
{
    if n == 0 {
        0
    } else {
        basal_doses_activity(rate, t, end, (n - 1) as nat) + basal_dose_activity(
            rate,
            t - BASAL_STEP * (n - 1),
            end,
        )
    }
}

/// Bolus IOB of one treatment at `now`.
pub open spec fn bolus_part(tr: Treatment, now: int, end: int) -> int {
    match tr {
        Treatment::Bolus { amount, date } => dose_iob(amount as int, now - date, end),
        _ => 0,
    }
}

/// Basal IOB of one treatment at `now`.
pub open spec fn basal_part(tr: Treatment, now: int, end: int) -> int {
    match tr {
        Treatment::TempBasal { rate, duration, date } => basal_doses_iob(
            rate as int,
            now - date,
            end,
            (duration / 5) as nat,
        ),
        _ => 0,
    }
}

/// Activity of one treatment at `now`.
pub open spec fn activity_part(tr: Treatment, now: int, end: int) -> int {
    match tr {
        Treatment::Bolus { amount, date } => dose_activity(amount as int, now - date, end),
        Treatment::TempBasal { rate, duration, date } => basal_doses_activity(
            rate as int,
            now - date,
            end,
            (duration / 5) as nat,
        ),
        _ => 0,
    }
}

pub open spec fn bolus_total(s: Seq<Treatment>, now: int, end: int) -> int
    decreases s.len(),
{
    if s.len() == 0 {
        0
    } else {
        bolus_total(s.drop_last(), now, end) + bolus_part(s.last(), now, end)
    }
}

pub open spec fn basal_total(s: Seq<Treatment>, now: int, end: int) -> int
    decreases s.len(),
{
    if s.len() == 0 {
        0
    } else {
        basal_total(s.drop_last(), now, end) + basal_part(s.last(), now, end)
    }
}

pub open spec fn activity_total(s: Seq<Treatment>, now: int, end: int) -> int
    decreases s.len(),
{
    if s.len() == 0 {
        0
    } else {
        activity_total(s.drop_last(), now, end) + activity_part(s.last(), now, end)
    }
}

/// A dose's IOB lies between nothing and the whole dose.
pub proof fn lemma_dose_iob_bounds(amount: int, t: int, end: int)
    requires
        end > BILINEAR_PEAK,
        amount >= 0,
    ensures
        0 <= dose_iob(amount, t, end) <= amount,
{
    lemma_remaining_bounds(t, end);
    let x = amount * remaining(t, end);
    assert(0 <= x <= amount * ONE) by (nonlinear_arith)
        requires
            amount >= 0,
            0 <= remaining(t, end) <= ONE,
            x == amount * remaining(t, end),
    ;
    lemma_div_is_ordered(x, amount * ONE, ONE as int);
    lemma_div_by_multiple(amount, ONE as int);
    lemma_div_pos_is_pos(x, ONE as int);
}

/// A single bolus: its IOB is never negative, is the whole bolus at the moment
/// of delivery and nothing once the duration of action has passed.
pub proof fn lemma_bolus_iob(amount: int, t: int, end: int)
    requires
        end > BILINEAR_PEAK,
        amount >= 0,
        t >= 0,
    ensures
        dose_iob(amount, t, end) >= 0,
        t == 0 ==> dose_iob(amount, t, end) == amount,
        t >= end ==> dose_iob(amount, t, end) == 0,
{
    lemma_dose_iob_bounds(amount, t, end);
    if t == 0 {
        lemma_div_by_multiple(amount, ONE as int);
    }
}

/// An empty history has no insulin on board and no activity.
pub proof fn lemma_empty_history(now: int, end: int)
    ensures
        bolus_total(Seq::empty(), now, end) == 0,
        basal_total(Seq::empty(), now, end) == 0,
        activity_total(Seq::empty(), now, end) == 0,
{
}

/// A dose's IOB never grows as time passes.
pub proof fn lemma_dose_iob_nonincreasing(amount: int, t1: int, t2: int, end: int)
    requires
        end > BILINEAR_PEAK,
        amount >= 0,
        t1 <= t2,
    ensures
        dose_iob(amount, t2, end) <= dose_iob(amount, t1, end),
{
    lemma_remaining_nonincreasing(t1, t2, end);
    let x1 = amount * remaining(t1, end);
    let x2 = amount * remaining(t2, end);
    assert(x2 <= x1) by (nonlinear_arith)
        requires
            amount >= 0,
            remaining(t2, end) <= remaining(t1, end),
            x1 == amount * remaining(t1, end),
            x2 == amount * remaining(t2, end),
    ;
    lemma_div_is_ordered(x2, x1, ONE as int);
}

/// The history of one bolus has that bolus's IOB, no basal IOB, and the
/// bolus's activity.
pub proof fn lemma_single_bolus(amount: u32, date: i64, now: int, end: int)
    ensures
        bolus_total(seq![Treatment::Bolus { amount, date }], now, end) == dose_iob(
            amount as int,
            now - date,
            end,
        ),
        basal_total(seq![Treatment::Bolus { amount, date }], now, end) == 0,
        activity_total(seq![Treatment::Bolus { amount, date }], now, end) == dose_activity(
            amount as int,
            now - date,
            end,
        ),
{
    let s = seq![Treatment::Bolus { amount, date }];
    assert(s.drop_last() =~= Seq::<Treatment>::empty());
    assert(s.len() == 1);
    assert(s.last() == Treatment::Bolus { amount, date });
    assert(bolus_total(s.drop_last(), now, end) == 0);
    assert(basal_total(s.drop_last(), now, end) == 0);
    assert(activity_total(s.drop_last(), now, end) == 0);
}

fn dose_iob_exec(amount: u32, t: i64, end: u32) -> (r: u64)
    requires
        end > BILINEAR_PEAK,
    ensures
        r == dose_iob(amount as int, t as int, end as int),
        r <= amount,
{
    let f = remaining_fraction(t, end);
    proof {
        lemma_dose_iob_bounds(amount as int, t as int, end as int);
    }
    assert(amount as u64 * f <= 0x1_0000_0000 * ONE) by (nonlinear_arith)
        requires
            amount < 0x1_0000_0000,
            f <= ONE,
    ;
    (amount as u64 * f) / ONE
}

fn dose_activity_exec(amount: u32, t: i64, end: u32) -> (r: u64)
    requires
        end > BILINEAR_PEAK,
    ensures
        r == dose_activity(amount as int, t as int, end as int),
        r <= 0x1_0000_0000 * 2000,
{
    let a = activity_rate(t, end);
    assert(amount as u64 * a <= 0x1_0000_0000 * 2 * ONE) by (nonlinear_arith)
        requires
            amount < 0x1_0000_0000,
            a <= 2 * ONE,
    ;
    (amount as u64 * a) / 1000
}

fn basal_iob_exec(rate: u32, t: i64, duration: u16, end: u32) -> (r: (u128, u128))
    requires
        end > BILINEAR_PEAK,
        -0x100_0000_0000 <= t <= 0x100_0000_0000,
    ensures
        r.0 == basal_doses_iob(rate as int, t as int, end as int, (duration / 5) as nat),
        r.1 == basal_doses_activity(rate as int, t as int, end as int, (duration / 5) as nat),
        r.0 <= PER_TREATMENT_BOUND,
        r.1 <= PER_TREATMENT_BOUND,
{
    let n: u16 = duration / 5;
    let mut k: u16 = 0;
    let mut total: u128 = 0;
    let mut act: u128 = 0;
    while k < n
        invariant
            end > BILINEAR_PEAK,
            n == duration / 5,
            k <= n,
            total == basal_doses_iob(rate as int, t as int, end as int, k as nat),
            act == basal_doses_activity(rate as int, t as int, end as int, k as nat),
            -0x100_0000_0000 <= t <= 0x100_0000_0000,
            total <= k * 0x100_0000_0000,
            act <= k * 0x100_0000_0000,
        decreases n - k,
    {
        let dt: i64 = t - 5 * (k as i64);
        if dt >= 0 {
            let f = remaining_fraction(dt, end);
            let a = activity_rate(dt, end);
            proof {
                lemma_remaining_bounds(dt as int, end as int);
            }
            assert(rate as u128 * f as u128 <= 0x100_0000_0000 * (12 * ONE)) by (nonlinear_arith)
                requires
                    rate < 0x1_0000_0000,
                    f <= ONE,
            ;
            assert(rate as u128 * a as u128 <= 0x100_0000_0000 * 12_000) by (nonlinear_arith)
                requires
                    rate < 0x1_0000_0000,
                    a <= 2 * ONE,
            ;
            let di = (rate as u128 * f as u128) / (12 * ONE as u128);
            let da = (rate as u128 * a as u128) / 12_000;
            proof {
                lemma_div_is_ordered(
                    rate * f,
                    (0x100_0000_0000 * (12 * ONE)) as int,
                    (12 * ONE) as int,
                );
                lemma_div_by_multiple(0x100_0000_0000, (12 * ONE) as int);
                lemma_div_is_ordered(rate * a, (0x100_0000_0000 * 12_000) as int, 12_000);
                lemma_div_by_multiple(0x100_0000_0000, 12_000);
            }
            total = total + di;
            act = act + da;
        }
        k = k + 1;
    }
    assert(n <= 0x1_0000);
    (total, act)
}

/// Insulin on board at `now` from `treatments`, for a duration of action of
/// `dia` minutes. A temp basal counts as a dose every five minutes of its
/// duration, each dose once delivered. Fails when `dia` is under three hours,
/// the least any curve accepts.
pub fn calculate_iob(treatments: &Vec<Treatment>, dia: u16, now: i64) -> (r: Result<
    IobResult,
    OrefError,
>)
    ensures
        dia < 180 <==> r is Err,
        r is Err ==> r->Err_0 is InvalidProfile,
        r is Ok ==> ({
            let v = r->Ok_0;
            &&& v.bolus_iob == bolus_total(treatments@, now as int, dia as int)
            &&& v.basal_iob == basal_total(treatments@, now as int, dia as int)
            &&& v.iob == v.bolus_iob + v.basal_iob
            &&& v.activity == activity_total(treatments@, now as int, dia as int)
        }),
{
    if dia < 180 {
        return Err(OrefError::InvalidProfile(String::from_str("duration of action under 3 hours")));
    }
    let end = dia as u32;
    let mut bolus: u128 = 0;
    let mut basal: u128 = 0;
    let mut act: u128 = 0;
    let mut i: usize = 0;
    while i < treatments.len()
        invariant
            end == dia,
            end >= 180,
            i <= treatments@.len(),
            bolus == bolus_total(treatments@.subrange(0, i as int), now as int, end as int),
            basal == basal_total(treatments@.subrange(0, i as int), now as int, end as int),
            act == activity_total(treatments@.subrange(0, i as int), now as int, end as int),
            bolus <= i * PER_TREATMENT_BOUND,
            basal <= i * PER_TREATMENT_BOUND,
            act <= i * PER_TREATMENT_BOUND,
        decreases treatments@.len() - i,
    {
        let tr = treatments[i];
        proof {
            assert(treatments@.subrange(0, i + 1).drop_last() =~= treatments@.subrange(0, i as int));
        }
        match tr {
            Treatment::Bolus { amount, date } => {
                let t = now as i128 - date as i128;
                if t >= end as i128 {
                    proof {
                        lemma_bolus_iob(amount as int, t as int, end as int);
                        assert(activity(t as int, end as int) == 0);
                    }
                } else if t < 0 {
                    assert(remaining(t as int, end as int) == ONE);
                    proof {
                        lemma_div_by_multiple(amount as int, ONE as int);
                    }
                    bolus = bolus + amount as u128;
                } else {
                    let b = dose_iob_exec(amount, t as i64, end);
                    let a = dose_activity_exec(amount, t as i64, end);
                    bolus = bolus + b as u128;
                    act = act + a as u128;
                }
            },
            Treatment::TempBasal { rate, duration, date } => {
                let t = now as i128 - date as i128;
                let tc: i64 = if t > 0x100_0000_0000 {
                    0x100_0000_0000
                } else if t < -0x100_0000_0000 {
                    -0x100_0000_0000
                } else {
                    t as i64
                };
                proof {
                    lemma_far_basal(rate as int, t as int, tc as int, end as int, (duration / 5) as nat);
                }
                let (b, a) = basal_iob_exec(rate, tc, duration, end);
                basal = basal + b;
                act = act + a;
            },
            Treatment::Carbs { .. } => {},
        }
        i = i + 1;
    }
    proof {
        assert(treatments@.subrange(0, i as int) =~= treatments@);
    }
    Ok(IobResult { iob: bolus + basal, bolus_iob: bolus, basal_iob: basal, activity: act })
}

/// Far outside the duration of action the exact elapsed time no longer
/// matters: every dose has either not been delivered or is spent.
proof fn lemma_far_basal(rate: int, t: int, tc: int, end: int, n: nat)
    requires
        end > BILINEAR_PEAK,
        end < 0x1_0000,
        n <= 0x1_0000,
        tc == (if t > 0x100_0000_0000 {
            0x100_0000_0000
        } else if t < -0x100_0000_0000 {
            -0x100_0000_0000
        } else {
            t
        }),
    ensures
        basal_doses_iob(rate, t, end, n) == basal_doses_iob(rate, tc, end, n),
        basal_doses_activity(rate, t, end, n) == basal_doses_activity(rate, tc, end, n),
    decreases n,
{
    if n > 0 {
        lemma_far_basal(rate, t, tc, end, (n - 1) as nat);
    }
}

} // verus!
