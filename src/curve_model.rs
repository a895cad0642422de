//! The bilinear insulin action model in fixed point: fractions are in
//! millionths of one unit, times in minutes.
use vstd::prelude::*;
use vstd::arithmetic::div_mod::*;

verus! {

/// One whole unit, as a fraction in millionths.
pub const ONE: u64 = 1_000_000;

/// Time of peak activity of the bilinear curve (minutes).
pub const BILINEAR_PEAK: u64 = 75;

/// Fraction (millionths) of one unit still to act `t` minutes after delivery,
/// for a duration of action of `end` minutes.
pub open spec fn remaining(t: int, end: int) -> int {
    if t <= 0 {
        ONE as int
    } else if t >= end {
        0
    } else if t <= BILINEAR_PEAK {
        ONE - (ONE * (t * t)) / (BILINEAR_PEAK * end)
    } else {
        (ONE * ((end - t) * (end - t))) / ((end - BILINEAR_PEAK) * end)
    }
}

/// Activity (millionths of one unit per minute) `t` minutes after delivery.
pub open spec fn activity(t: int, end: int) -> int {
    if t <= 0 || t >= end {
        0
    } else if t <= BILINEAR_PEAK {
        (2 * ONE * t) / (BILINEAR_PEAK * end)
    } else {
        (2 * ONE * (end - t)) / ((end - BILINEAR_PEAK) * end)
    }
}

proof fn lemma_floor(x: int, d: int)
    requires
        x >= 0,
        d > 0,
    ensures
        (x / d) * d <= x,
        x / d >= 0,
        x < (x / d) * d + d,
{
    lemma_fundamental_div_mod(x, d);
    lemma_mod_pos_bound(x, d);
    lemma_div_pos_is_pos(x, d);
    assert((x / d) * d == d * (x / d)) by (nonlinear_arith);
}

/// The remaining fraction lies between none and all.
pub proof fn lemma_remaining_bounds(t: int, end: int)
    requires
        end > BILINEAR_PEAK,
    ensures
        0 <= remaining(t, end) <= ONE,
{
    if 0 < t < end {
        if t <= BILINEAR_PEAK {
            let d = BILINEAR_PEAK * end;
            let x = ONE * (t * t);
            assert(d > 0) by (nonlinear_arith)
                requires
                    end > BILINEAR_PEAK,
                    BILINEAR_PEAK == 75,
                    d == BILINEAR_PEAK * end,
            ;
            assert(0 <= x <= ONE * d) by (nonlinear_arith)
                requires
                    0 < t <= BILINEAR_PEAK,
                    BILINEAR_PEAK < end,
                    BILINEAR_PEAK == 75,
                    ONE == 1_000_000,
                    x == ONE * (t * t),
                    d == BILINEAR_PEAK * end,
            ;
            lemma_floor(x, d);
            assert(x / d <= ONE) by (nonlinear_arith)
                requires
                    (x / d) * d <= x,
                    x <= ONE * d,
                    d > 0,
            ;
        } else {
            let d = (end - BILINEAR_PEAK) * end;
            let x = ONE * ((end - t) * (end - t));
            assert(d > 0) by (nonlinear_arith)
                requires
                    end > BILINEAR_PEAK,
                    d == (end - BILINEAR_PEAK) * end,
            ;
            assert(0 <= x <= ONE * d) by (nonlinear_arith)
                requires
                    BILINEAR_PEAK < t < end,
                    ONE == 1_000_000,
                    x == ONE * ((end - t) * (end - t)),
                    d == (end - BILINEAR_PEAK) * end,
            ;
            lemma_floor(x, d);
            assert(x / d <= ONE) by (nonlinear_arith)
                requires
                    (x / d) * d <= x,
                    x <= ONE * d,
                    d > 0,
            ;
        }
    }
}

/// The remaining fraction never grows as time passes.
pub proof fn lemma_remaining_nonincreasing(t1: int, t2: int, end: int)
    requires
        end > BILINEAR_PEAK,
        t1 <= t2,
    ensures
        remaining(t2, end) <= remaining(t1, end),
{
    lemma_remaining_bounds(t1, end);
    lemma_remaining_bounds(t2, end);
    if t1 <= 0 || t2 >= end || t2 <= 0 {
    } else {
        let p = BILINEAR_PEAK as int;
        let d1 = p * end;
        let d2 = (end - p) * end;
        assert(d1 > 0 && d2 > 0) by (nonlinear_arith)
            requires
                end > p,
                p > 0,
                d1 == p * end,
                d2 == (end - p) * end,
        ;
        if t2 <= p {
            let x1 = ONE * (t1 * t1);
            let x2 = ONE * (t2 * t2);
            assert(x1 <= x2) by (nonlinear_arith)
                requires
                    0 < t1 <= t2,
                    x1 == ONE * (t1 * t1),
                    x2 == ONE * (t2 * t2),
            ;
            lemma_div_is_ordered(x1, x2, d1);
        } else if t1 > p {
            let x1 = ONE * ((end - t1) * (end - t1));
            let x2 = ONE * ((end - t2) * (end - t2));
            assert(x2 <= x1) by (nonlinear_arith)
                requires
                    t1 <= t2 < end,
                    x1 == ONE * ((end - t1) * (end - t1)),
                    x2 == ONE * ((end - t2) * (end - t2)),
            ;
            lemma_div_is_ordered(x2, x1, d2);
        } else {
            let x1 = ONE * (t1 * t1);
            let x2 = ONE * ((end - t2) * (end - t2));
            let q1 = x1 / d1;
            let q2 = x2 / d2;
            assert(x1 >= 0 && x2 >= 0) by (nonlinear_arith)
                requires
                    x1 == ONE * (t1 * t1),
                    x2 == ONE * ((end - t2) * (end - t2)),
            ;
            lemma_floor(x1, d1);
            lemma_floor(x2, d2);
            assert(q1 * end <= ONE * p) by (nonlinear_arith)
                requires
                    q1 * d1 <= x1,
                    x1 == ONE * (t1 * t1),
                    d1 == p * end,
                    0 < t1 <= p,
                    q1 >= 0,
                    end > 0,
            ;
            assert(q2 * end < ONE * (end - p)) by (nonlinear_arith)
                requires
                    q2 * d2 <= x2,
                    x2 == ONE * ((end - t2) * (end - t2)),
                    d2 == (end - p) * end,
                    p < t2 < end,
                    q2 >= 0,
                    end > 0,
            ;
            assert(q1 + q2 < ONE) by (nonlinear_arith)
                requires
                    q1 * end <= ONE * p,
                    q2 * end < ONE * (end - p),
                    end > 0,
            ;
        }
    }
}

/// Activity is never negative.
pub proof fn lemma_activity_nonnegative(t: int, end: int)
    requires
        end > BILINEAR_PEAK,
    ensures
        activity(t, end) >= 0,
{
    if 0 < t < end {
        if t <= BILINEAR_PEAK {
            assert(BILINEAR_PEAK * end > 0) by (nonlinear_arith)
                requires
                    end > BILINEAR_PEAK,
                    BILINEAR_PEAK == 75,
            ;
            lemma_div_pos_is_pos(2 * ONE * t, BILINEAR_PEAK * end);
        } else {
            assert((end - BILINEAR_PEAK) * end > 0) by (nonlinear_arith)
                requires
                    end > BILINEAR_PEAK,
            ;
            lemma_div_pos_is_pos(2 * ONE * (end - t), (end - BILINEAR_PEAK) * end);
        }
    }
}

/// Fraction (millionths) of a unit still to act `t` minutes after delivery.
pub fn remaining_fraction(t: i64, end: u32) -> (r: u64)
    requires
        end > BILINEAR_PEAK,
    ensures
        r == remaining(t as int, end as int),
        r <= ONE,
{
    proof {
        lemma_remaining_bounds(t as int, end as int);
    }
    if t <= 0 {
        ONE
    } else if t >= end as i64 {
        0
    } else {
        let tt = t as u128;
        let e = end as u128;
        assert(tt * tt <= 0x1_0000_0000 * 0x1_0000_0000) by (nonlinear_arith)
            requires
                tt < 0x1_0000_0000,
        ;
        if t as u64 <= BILINEAR_PEAK {
            assert(ONE * (tt * tt) <= ONE * (BILINEAR_PEAK * e)) by (nonlinear_arith)
                requires
                    0 < tt <= BILINEAR_PEAK,
                    BILINEAR_PEAK < e,
                    BILINEAR_PEAK == 75,
                    ONE == 1_000_000,
            ;
            let q = (ONE as u128 * (tt * tt)) / (BILINEAR_PEAK as u128 * e);
            (ONE as u128 - q) as u64
        } else {
            let rest = e - tt;
            assert(rest * rest <= 0x1_0000_0000 * 0x1_0000_0000) by (nonlinear_arith)
                requires
                    rest < 0x1_0000_0000,
            ;
            assert((e - BILINEAR_PEAK as u128) * e <= 0x1_0000_0000 * 0x1_0000_0000) by (nonlinear_arith)
                requires
                    e < 0x1_0000_0000,
            ;
            assert(ONE * (rest * rest) <= ONE * 0x1_0000_0000 * 0x1_0000_0000) by (nonlinear_arith)
                requires
                    rest * rest <= 0x1_0000_0000 * 0x1_0000_0000,
                    ONE == 1_000_000,
            ;
            assert((e - BILINEAR_PEAK) * e > 0) by (nonlinear_arith)
                requires
                    e > BILINEAR_PEAK,
                    BILINEAR_PEAK == 75,
            ;
            let q = (ONE as u128 * (rest * rest)) / ((e - BILINEAR_PEAK as u128) * e);
            q as u64
        }
    }
}

/// Activity (millionths of a unit per minute) `t` minutes after delivery.
pub fn activity_rate(t: i64, end: u32) -> (r: u64)
    requires
        end > BILINEAR_PEAK,
    ensures
        r == activity(t as int, end as int),
        r <= 2 * ONE,
{
    if t <= 0 || t >= end as i64 {
        0
    } else {
        let tt = t as u128;
        let e = end as u128;
        assert(BILINEAR_PEAK * e >= e && (e - BILINEAR_PEAK) * e >= e) by (nonlinear_arith)
            requires
                e > BILINEAR_PEAK,
                BILINEAR_PEAK == 75,
        ;
        assert(0 < tt < e < 0x1_0000_0000);
        assert(ONE == 1_000_000);
        assert((e - BILINEAR_PEAK) * e <= 0x1_0000_0000 * 0x1_0000_0000) by (nonlinear_arith)
            requires
                BILINEAR_PEAK < e < 0x1_0000_0000,
        ;
        if t as u64 <= BILINEAR_PEAK {
            let d = BILINEAR_PEAK as u128 * e;
            let x = 2_000_000u128 * tt;
            proof {
                lemma_floor(x as int, d as int);
                assert(x / d <= 2 * ONE) by (nonlinear_arith)
                    requires
                        (x / d) * d <= x,
                        x <= 2 * ONE * e,
                        e <= d,
                        d > 0,
                ;
            }
            (x / d) as u64
        } else {
            let d = (e - BILINEAR_PEAK as u128) * e;
            let x = 2_000_000u128 * (e - tt);
            proof {
                lemma_floor(x as int, d as int);
                assert(x / d <= 2 * ONE) by (nonlinear_arith)
                    requires
                        (x / d) * d <= x,
                        x <= 2 * ONE * e,
                        e <= d,
                        d > 0,
                ;
            }
            (x / d) as u64
        }
    }
}

} // verus!
