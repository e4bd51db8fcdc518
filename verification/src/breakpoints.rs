//! Breakpoints: the sub-ranges a pollutant table is made of, and the
//! first-match lookup over a table.
//!
//! Each breakpoint maps a closed concentration sub-range onto a closed AQI
//! sub-range with a severity level. Concentrations are held in the table's
//! own unit — the scale the pollutant's formula truncates to — so every
//! bound is a machine integer.

use crate::types::AirQualityLevel;
use vstd::prelude::*;

verus! {

/// One sub-range of a pollutant's table: concentrations from `conc_low` to
/// `conc_high` (inclusive) map linearly onto AQI values from `aqi_low` to
/// `aqi_high` (inclusive), all at severity `level`.
#[derive(Copy, Clone, Debug, PartialEq, Eq, Structural)]
pub struct Breakpoint {
    /// Lowest concentration of the sub-range, in the table's unit
    pub conc_low: u64,
    /// Highest concentration of the sub-range, in the table's unit
    pub conc_high: u64,
    /// The AQI value that `conc_low` maps to
    pub aqi_low: u32,
    /// The AQI value that `conc_high` maps to
    pub aqi_high: u32,
    /// The severity level of the whole sub-range
    pub level: AirQualityLevel,
}

/// A single breakpoint is well-formed: its concentration sub-range is
/// non-degenerate, its AQI sub-range is ordered and stays within the AQI
/// scale, and its concentrations are small enough that interpolation
/// arithmetic cannot overflow.
pub open spec fn bp_wf(bp: Breakpoint) -> bool {
    &&& bp.conc_low < bp.conc_high
    &&& bp.aqi_low <= bp.aqi_high
    &&& bp.aqi_high <= 500
    &&& bp.conc_high <= 100_000
}

/// Whether concentration `c` lies in the breakpoint's closed sub-range.
pub open spec fn bp_contains(bp: Breakpoint, c: int) -> bool {
    bp.conc_low <= c && c <= bp.conc_high
}

/// A whole table is well-formed: every breakpoint is, the concentration
/// sub-ranges are disjoint and strictly increasing (gaps are allowed), and
/// the AQI sub-ranges are contiguous — each one starts right above where
/// the previous one ended, so the table's AQI output has no gap and no
/// overlap.
pub open spec fn table_wf(t: Seq<Breakpoint>) -> bool {
    &&& forall|i: int| 0 <= i < t.len() ==> bp_wf(#[trigger] t[i])
    &&& forall|i: int|
        #![trigger t[i], t[i + 1]]
        0 <= i && i + 1 < t.len() ==> {
            &&& t[i].conc_high < t[i + 1].conc_low
            &&& t[i].aqi_high + 1 == t[i + 1].aqi_low
        }
}

/// Index of the first breakpoint at or after position `i` that contains
/// `c`; the table's length when there is none.
pub open spec fn spec_find_index_from(t: Seq<Breakpoint>, c: int, i: int) -> int
    decreases t.len() - i,
{
    if i < 0 || i >= t.len() {
        t.len() as int
    } else if bp_contains(t[i], c) {
        i
    } else {
        spec_find_index_from(t, c, i + 1)
    }
}

/// Index of the first breakpoint of the table that contains `c`; the
/// table's length when there is none.
pub open spec fn spec_find_index(t: Seq<Breakpoint>, c: int) -> int {
    spec_find_index_from(t, c, 0)
}

/// The first breakpoint of the table whose closed sub-range contains `c`,
/// or nothing when `c` lies outside every sub-range.
pub open spec fn spec_find_bp(t: Seq<Breakpoint>, c: int) -> Option<Breakpoint> {
    if spec_find_index(t, c) < t.len() {
        Some(t[spec_find_index(t, c)])
    } else {
        None
    }
}

/// What the first-match index satisfies: it lies between the start
/// position and the table's length, it points at a breakpoint containing
/// `c` whenever it is inside the table, and no earlier position from the
/// start on contains `c`.
pub proof fn lemma_find_index_from_props(t: Seq<Breakpoint>, c: int, i: int)
    requires
        0 <= i <= t.len(),
    ensures
        i <= spec_find_index_from(t, c, i) <= t.len(),
        spec_find_index_from(t, c, i) < t.len() ==> bp_contains(
            t[spec_find_index_from(t, c, i)],
            c,
        ),
        forall|j: int|
            i <= j < spec_find_index_from(t, c, i) ==> !bp_contains(#[trigger] t[j], c),
    decreases t.len() - i,
{
    if i < t.len() && !bp_contains(t[i], c) {
        lemma_find_index_from_props(t, c, i + 1);
    }
}

/// In a well-formed table, every breakpoint standing before another ends
/// strictly below it, on the concentration axis and on the AQI axis alike.
pub proof fn lemma_table_order(t: Seq<Breakpoint>, i: int, j: int)
    requires
        table_wf(t),
        0 <= i < j < t.len(),
    ensures
        t[i].conc_high < t[j].conc_low,
        t[i].aqi_high < t[j].aqi_low,
    decreases j - i,
{
    assert(t[j - 1].conc_high < t[j - 1 + 1].conc_low && t[j - 1].aqi_high + 1 == t[j - 1
        + 1].aqi_low);
    assert(t[j - 1 + 1] == t[j]);
    if j > i + 1 {
        lemma_table_order(t, i, j - 1);
        assert(bp_wf(t[j - 1]));
    }
}

/// The breakpoint that lookup returns is well-formed and contains the
/// concentration that was looked up.
pub proof fn lemma_found_bp_props(t: Seq<Breakpoint>, c: int)
    requires
        table_wf(t),
        spec_find_bp(t, c) is Some,
    ensures
        bp_wf(spec_find_bp(t, c)->Some_0),
        bp_contains(spec_find_bp(t, c)->Some_0, c),
{
    lemma_find_index_from_props(t, c, 0);
}

/// Returns the first breakpoint of the table whose closed sub-range
/// contains the concentration, or `None` when the concentration falls
/// outside every sub-range — including inside a deliberate gap of the
/// table.
pub fn find_breakpoint(breakpoints: &Vec<Breakpoint>, concentration: u64) -> (r: Option<
    Breakpoint,
>)
    ensures
        r == spec_find_bp(breakpoints@, concentration as int),
{
    let n = breakpoints.len();
    let mut i: usize = 0;
    while i < n
        invariant
            n == breakpoints@.len(),
            0 <= i <= n,
            spec_find_index(breakpoints@, concentration as int) == spec_find_index_from(
                breakpoints@,
                concentration as int,
                i as int,
            ),
        decreases n - i,
    {
        let bp = breakpoints[i];
        if bp.conc_low <= concentration && concentration <= bp.conc_high {
            return Some(bp);
        }
        i = i + 1;
    }
    None
}

} // verus!
