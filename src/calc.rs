use vstd::arithmetic::div_mod::{
    lemma_fundamental_div_mod, lemma_fundamental_div_mod_converse, lemma_mod_bound,
};
use vstd::arithmetic::power2::lemma2_to64;
use vstd::prelude::*;

use crate::arith::fits_i64;
use crate::division::{DivType, Division, NumDiv};
use crate::fraction::lemma_mul_within;
use crate::measure::Measure;
use crate::time_sig::TimeSig;

verus! {

/// Ticks to the quarter note: the resolution of `Ticks`.
pub type Ppqn = u32;

/// `p / q` rounded to the nearest integer, halves away from zero, for `q > 0`.
pub open spec fn round_half_away(p: int, q: int) -> int
    recommends
        q > 0,
{
    if p >= 0 {
        (2 * p + q) / (2 * q)
    } else {
        -((-2 * p + q) / (2 * q))
    }
}

/// The number of ticks in `Measure(num, div, div_type)`: its length in quarter
/// notes times `ppqn`, rounded to the nearest tick, halves away from zero.
pub open spec fn spec_ticks_from_measure(
    num: NumDiv,
    div: Division,
    div_type: DivType,
    ts: TimeSig,
    ppqn: int,
) -> int {
    let beats = Measure(num, div, div_type).spec_beats(ts);
    round_half_away(beats.0 * ppqn, beats.1)
}

/// The exact number of ticks in a measure, which always fits an `i128`.
fn exact_ticks(num: NumDiv, div: Division, div_type: DivType, ts: TimeSig, ppqn: Ppqn) -> (r: i128)
    requires
        div is Bar ==> ts.bottom > 0,
    ensures
        r == spec_ticks_from_measure(num, div, div_type, ts, ppqn as int),
{
    let beats = Measure(num, div, div_type).beats(ts);
    let q = beats.denom;
    proof {
        lemma_mul_within(beats.numer as int, ppqn as int, 0x4_0000_0000_0000_0000_0000, 0x1_0000_0000);
    }
    let p = beats.numer * ppqn as i128;
    let t: i128 = if p >= 0 {
        (2 * p + q) / (2 * q)
    } else {
        let magnitude = -p;
        -((2 * magnitude + q) / (2 * q))
    };
    t
}

/// Computes the number of ticks in a musical measure under a time signature.
pub fn ticks_from_measure(num: NumDiv, div: Division, div_type: DivType, ts: TimeSig, ppqn: Ppqn) -> (r: i64)
    requires
        div is Bar ==> ts.bottom > 0,
        fits_i64(spec_ticks_from_measure(num, div, div_type, ts, ppqn as int)),
    ensures
        r == spec_ticks_from_measure(num, div, div_type, ts, ppqn as int),
{
    exact_ticks(num, div, div_type, ts, ppqn) as i64
}

/// The number of ticks in a musical measure, or `None` where it does not fit
/// an `i64`.
pub fn checked_ticks_from_measure(
    num: NumDiv,
    div: Division,
    div_type: DivType,
    ts: TimeSig,
    ppqn: Ppqn,
) -> (r: Option<i64>)
    requires
        div is Bar ==> ts.bottom > 0,
    ensures
        r == (if fits_i64(spec_ticks_from_measure(num, div, div_type, ts, ppqn as int)) {
            Some(spec_ticks_from_measure(num, div, div_type, ts, ppqn as int) as i64)
        } else {
            None::<i64>
        }),
{
    let t = exact_ticks(num, div, div_type, ts, ppqn);
    if i64::MIN as i128 <= t && t <= i64::MAX as i128 {
        Some(t as i64)
    } else {
        None
    }
}

/// `p / q` rounds to `t` exactly when `t` lies within half of `q` of `p / q`,
/// a tie going to the `t` farther from zero.
pub proof fn lemma_round_half_away_is(p: int, q: int, t: int)
    requires
        q > 0,
        p >= 0 ==> 2 * q * t - q <= 2 * p < 2 * q * t + q,
        p < 0 ==> 2 * q * t - q < 2 * p <= 2 * q * t + q,
    ensures
        round_half_away(p, q) == t,
{
    if p >= 0 {
        assert(2 * p + q == t * (2 * q) + (2 * p + q - 2 * q * t)) by (nonlinear_arith);
        lemma_fundamental_div_mod_converse(2 * p + q, 2 * q, t, 2 * p + q - 2 * q * t);
    } else {
        assert(-2 * p + q == (-t) * (2 * q) + (-2 * p + q + 2 * q * t)) by (nonlinear_arith);
        lemma_fundamental_div_mod_converse(-2 * p + q, 2 * q, -t, -2 * p + q + 2 * q * t);
    }
}

/// Rounding a non-negative quotient gives a whole number between zero and the
/// dividend.
pub proof fn lemma_round_nonneg(p: int, q: int)
    requires
        p >= 0,
        q >= 1,
    ensures
        0 <= round_half_away(p, q) <= p,
{
    let t = (2 * p + q) / (2 * q);
    lemma_fundamental_div_mod(2 * p + q, 2 * q);
    lemma_mod_bound(2 * p + q, 2 * q);
    let m = (2 * p + q) % (2 * q);
    assert(0 <= t <= p) by (nonlinear_arith)
        requires
            2 * p + q == 2 * q * t + m,
            0 <= m < 2 * q,
            p >= 0,
            q >= 1,
    ;
}

/// One bar holds between zero and `4 * 0xffff * ppqn` ticks.
pub proof fn lemma_bar_ticks_bounds(ts: TimeSig, ppqn: int)
    requires
        ts.bottom > 0,
        0 <= ppqn <= 0xffff_ffff,
    ensures
        0 <= spec_ticks_from_measure(1, Division::Bar, DivType::Whole, ts, ppqn) <= 4 * 0xffff * 0xffff_ffff,
{
    let beats = Measure(1, Division::Bar, DivType::Whole).spec_beats(ts);
    assert(beats == (4 * ts.top, ts.bottom as int));
    lemma_mul_within(beats.0, ppqn, (4 * 0xffff) as int, 0xffff_ffff as int);
    assert(beats.0 * ppqn >= 0) by (nonlinear_arith)
        requires
            beats.0 >= 0,
            ppqn >= 0,
    ;
    lemma_round_nonneg(beats.0 * ppqn, beats.1);
}

/// A beat is worth exactly `ppqn` ticks whatever the time signature: `n` beats
/// make `n * ppqn` ticks, with nothing lost to rounding.
pub proof fn lemma_beat_ticks_meter_free(n: i64, ts: TimeSig, ppqn: int)
    ensures
        spec_ticks_from_measure(n, Division::Beat, DivType::Whole, ts, ppqn) == n * ppqn,
{
    lemma2_to64();
    let beats = Measure(n, Division::Beat, DivType::Whole).spec_beats(ts);
    assert(beats == (n as int, 1int));
    lemma_round_half_away_is(n * ppqn, 1, n * ppqn);
}

} // verus!
