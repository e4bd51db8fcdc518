//! Linear interpolation of a concentration within a matched breakpoint,
//! and the full table lookup that the formula entry points run.

use crate::breakpoints::{
    bp_contains, bp_wf, find_breakpoint, lemma_find_index_from_props, lemma_found_bp_props,
    lemma_table_order, spec_find_bp, spec_find_index, table_wf, Breakpoint,
};
use crate::rounding::{
    lemma_round_half_up_in_range, lemma_round_half_up_monotonic, round, round_half_up,
};
use crate::types::AirQuality;
use vstd::prelude::*;

verus! {

/// Numerator of the interpolation ratio for concentration `c` within
/// breakpoint `bp`: the fractional AQI is this value divided by
/// [`spec_interp_denominator`].
pub open spec fn spec_interp_numerator(bp: Breakpoint, c: int) -> int {
    (bp.aqi_high - bp.aqi_low) * (c - bp.conc_low) + bp.aqi_low * (bp.conc_high - bp.conc_low)
}

/// Denominator of the interpolation ratio: the width of the breakpoint's
/// concentration sub-range.
pub open spec fn spec_interp_denominator(bp: Breakpoint) -> int {
    bp.conc_high - bp.conc_low
}

/// The AQI that linear interpolation assigns to concentration `c` within
/// breakpoint `bp`: the fractional value
/// `(aqi_high - aqi_low) / (conc_high - conc_low) * (c - conc_low) + aqi_low`,
/// rounded half-up to a whole number.
pub open spec fn spec_interp_aqi(bp: Breakpoint, c: int) -> int {
    round_half_up(spec_interp_numerator(bp, c), spec_interp_denominator(bp))
}

/// The complete lookup: the interpolated AQI and severity level of the
/// breakpoint containing `c`, or nothing when `c` lies outside the whole
/// table.
pub open spec fn spec_aqi_result(t: Seq<Breakpoint>, c: int) -> Option<AirQuality> {
    match spec_find_bp(t, c) {
        Some(bp) => Some(
            AirQuality { aqi: spec_interp_aqi(bp, c) as u32, level: bp.level },
        ),
        None => None,
    }
}

/// Interpolation stays inside the breakpoint's own AQI sub-range: a
/// concentration between `conc_low` and `conc_high` yields an AQI between
/// `aqi_low` and `aqi_high`.
pub proof fn lemma_interp_in_range(bp: Breakpoint, c: int)
    requires
        bp_wf(bp),
        bp_contains(bp, c),
    ensures
        bp.aqi_low <= spec_interp_aqi(bp, c) <= bp.aqi_high,
{
    let lo = bp.aqi_low as int;
    let hi = bp.aqi_high as int;
    let cl = bp.conc_low as int;
    let ch = bp.conc_high as int;
    assert(lo * (ch - cl) <= (hi - lo) * (c - cl) + lo * (ch - cl)) by (nonlinear_arith)
        requires
            lo <= hi,
            cl <= c,
    ;
    assert((hi - lo) * (c - cl) + lo * (ch - cl) <= hi * (ch - cl)) by (nonlinear_arith)
        requires
            lo <= hi,
            cl <= c,
            c <= ch,
    ;
    lemma_round_half_up_in_range(spec_interp_numerator(bp, c), ch - cl, lo, hi);
}

/// Within one breakpoint, interpolation is monotonic: a higher
/// concentration never yields a lower AQI.
pub proof fn lemma_interp_monotonic(bp: Breakpoint, c1: int, c2: int)
    requires
        bp_wf(bp),
        bp_contains(bp, c1),
        bp_contains(bp, c2),
        c1 <= c2,
    ensures
        spec_interp_aqi(bp, c1) <= spec_interp_aqi(bp, c2),
{
    let lo = bp.aqi_low as int;
    let hi = bp.aqi_high as int;
    let cl = bp.conc_low as int;
    assert((hi - lo) * (c1 - cl) <= (hi - lo) * (c2 - cl)) by (nonlinear_arith)
        requires
            lo <= hi,
            c1 <= c2,
    ;
    lemma_round_half_up_monotonic(
        spec_interp_numerator(bp, c1),
        spec_interp_numerator(bp, c2),
        spec_interp_denominator(bp),
    );
}

/// Monotonicity of the whole lookup over a well-formed table: when two
/// concentrations both fall inside the table, the higher one never yields
/// a lower AQI, and yields a strictly higher AQI whenever the two fall in
/// different breakpoints — the table's contiguous AQI sub-ranges leave no
/// gap and no overlap between neighbours.
pub proof fn lemma_aqi_monotonic(t: Seq<Breakpoint>, c1: int, c2: int)
    requires
        table_wf(t),
        c1 <= c2,
        spec_find_bp(t, c1) is Some,
        spec_find_bp(t, c2) is Some,
    ensures
        spec_aqi_result(t, c1)->Some_0.aqi <= spec_aqi_result(t, c2)->Some_0.aqi,
        spec_find_bp(t, c1) != spec_find_bp(t, c2) ==> spec_aqi_result(t, c1)->Some_0.aqi
            < spec_aqi_result(t, c2)->Some_0.aqi,
{
    let k1 = spec_find_index(t, c1);
    let k2 = spec_find_index(t, c2);
    lemma_find_index_from_props(t, c1, 0);
    lemma_find_index_from_props(t, c2, 0);
    let bp1 = t[k1];
    let bp2 = t[k2];
    lemma_interp_in_range(bp1, c1);
    lemma_interp_in_range(bp2, c2);
    if k2 < k1 {
        // Impossible: c1 would sit below t[k2] yet inside the later t[k1].
        assert(!bp_contains(t[k2], c1));
        lemma_table_order(t, k2, k1);
        assert(false);
    } else if k1 == k2 {
        lemma_interp_monotonic(bp1, c1, c2);
    } else {
        lemma_table_order(t, k1, k2);
    }
}

/// Looks the concentration up in the table and linearly interpolates the
/// AQI within the matched breakpoint, rounding half-up; `None` when the
/// concentration falls outside every breakpoint of the table.
pub fn calc_aqi(breakpoints: &Vec<Breakpoint>, concentration: u64) -> (r: Option<AirQuality>)
    requires
        table_wf(breakpoints@),
    ensures
        r == spec_aqi_result(breakpoints@, concentration as int),
        r matches Some(aq) ==> aq.aqi <= 500,
{
    match find_breakpoint(breakpoints, concentration) {
        None => None,
        Some(bp) => {
            proof {
                lemma_found_bp_props(breakpoints@, concentration as int);
                lemma_interp_in_range(bp, concentration as int);
            }
            let den = bp.conc_high - bp.conc_low;
            let delta = concentration - bp.conc_low;
            let rise = (bp.aqi_high - bp.aqi_low) as u64;
            proof {
                assert(rise * delta <= 500 * 100_000) by (nonlinear_arith)
                    requires
                        0 <= rise <= 500,
                        0 <= delta <= 100_000,
                ;
                assert((bp.aqi_low as u64) * den <= 500 * 100_000) by (nonlinear_arith)
                    requires
                        0 <= bp.aqi_low <= 500,
                        0 <= den <= 100_000,
                ;
            }
            let num = rise * delta + (bp.aqi_low as u64) * den;
            let aqi = round(num, den);
            proof {
                assert(num as int == spec_interp_numerator(bp, concentration as int));
            }
            Some(AirQuality { aqi: aqi as u32, level: bp.level })
        },
    }
}

} // verus!
