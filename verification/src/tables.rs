//! The per-pollutant breakpoint tables.
//!
//! Each table holds its concentrations in the unit that the pollutant's
//! formula truncates to: thousandths of a ppm for ozone, tenths of a
//! µg/m³ for PM2.5, tenths of a ppm for CO, whole µg/m³ for PM10, whole
//! ppb for SO₂ and NO₂. Every constructor proves its table well-formed:
//! ordered, disjoint on the concentration axis, and contiguous on the AQI
//! axis.

use crate::breakpoints::{table_wf, Breakpoint};
use crate::types::AirQualityLevel;
use vstd::prelude::*;

verus! {

/// The 8-hour ozone table, in thousandths of a ppm: 0.000 to 0.200 ppm.
pub open spec fn spec_ozone8_table() -> Seq<Breakpoint> {
    seq![
        Breakpoint {
            conc_low: 0,
            conc_high: 54,
            aqi_low: 0,
            aqi_high: 50,
            level: AirQualityLevel::Good,
        },
        Breakpoint {
            conc_low: 55,
            conc_high: 70,
            aqi_low: 51,
            aqi_high: 100,
            level: AirQualityLevel::Moderate,
        },
        Breakpoint {
            conc_low: 71,
            conc_high: 85,
            aqi_low: 101,
            aqi_high: 150,
            level: AirQualityLevel::UnhealthySensitive,
        },
        Breakpoint {
            conc_low: 86,
            conc_high: 105,
            aqi_low: 151,
            aqi_high: 200,
            level: AirQualityLevel::Unhealthy,
        },
        Breakpoint {
            conc_low: 106,
            conc_high: 200,
            aqi_low: 201,
            aqi_high: 300,
            level: AirQualityLevel::VeryUnhealthy,
        },
    ]
}

/// Builds the 8-hour ozone table.
pub fn ozone8_table() -> (t: Vec<Breakpoint>)
    ensures
        t@ == spec_ozone8_table(),
        table_wf(t@),
{
    let mut t: Vec<Breakpoint> = Vec::new();
    t.push(Breakpoint { conc_low: 0, conc_high: 54, aqi_low: 0, aqi_high: 50, level: AirQualityLevel::Good });
    t.push(Breakpoint { conc_low: 55, conc_high: 70, aqi_low: 51, aqi_high: 100, level: AirQualityLevel::Moderate });
    t.push(Breakpoint { conc_low: 71, conc_high: 85, aqi_low: 101, aqi_high: 150, level: AirQualityLevel::UnhealthySensitive });
    t.push(Breakpoint { conc_low: 86, conc_high: 105, aqi_low: 151, aqi_high: 200, level: AirQualityLevel::Unhealthy });
    t.push(Breakpoint { conc_low: 106, conc_high: 200, aqi_low: 201, aqi_high: 300, level: AirQualityLevel::VeryUnhealthy });
    proof {
        assert(t@ =~= spec_ozone8_table());
        assert(table_wf(t@));
    }
    t
}

/// The 1-hour ozone table, in thousandths of a ppm: 0.125 to 0.604 ppm.
/// The table deliberately starts above zero; readings below 0.125 ppm
/// belong to the 8-hour formula.
pub open spec fn spec_ozone1_table() -> Seq<Breakpoint> {
    seq![
        Breakpoint {
            conc_low: 125,
            conc_high: 164,
            aqi_low: 101,
            aqi_high: 150,
            level: AirQualityLevel::UnhealthySensitive,
        },
        Breakpoint {
            conc_low: 165,
            conc_high: 204,
            aqi_low: 151,
            aqi_high: 200,
            level: AirQualityLevel::Unhealthy,
        },
        Breakpoint {
            conc_low: 205,
            conc_high: 404,
            aqi_low: 201,
            aqi_high: 300,
            level: AirQualityLevel::VeryUnhealthy,
        },
        Breakpoint {
            conc_low: 405,
            conc_high: 504,
            aqi_low: 301,
            aqi_high: 400,
            level: AirQualityLevel::Hazardous,
        },
        Breakpoint {
            conc_low: 505,
            conc_high: 604,
            aqi_low: 401,
            aqi_high: 500,
            level: AirQualityLevel::Hazardous,
        },
    ]
}

/// Builds the 1-hour ozone table.
pub fn ozone1_table() -> (t: Vec<Breakpoint>)
    ensures
        t@ == spec_ozone1_table(),
        table_wf(t@),
{
    let mut t: Vec<Breakpoint> = Vec::new();
    t.push(Breakpoint { conc_low: 125, conc_high: 164, aqi_low: 101, aqi_high: 150, level: AirQualityLevel::UnhealthySensitive });
    t.push(Breakpoint { conc_low: 165, conc_high: 204, aqi_low: 151, aqi_high: 200, level: AirQualityLevel::Unhealthy });
    t.push(Breakpoint { conc_low: 205, conc_high: 404, aqi_low: 201, aqi_high: 300, level: AirQualityLevel::VeryUnhealthy });
    t.push(Breakpoint { conc_low: 405, conc_high: 504, aqi_low: 301, aqi_high: 400, level: AirQualityLevel::Hazardous });
    t.push(Breakpoint { conc_low: 505, conc_high: 604, aqi_low: 401, aqi_high: 500, level: AirQualityLevel::Hazardous });
    proof {
        assert(t@ =~= spec_ozone1_table());
        assert(table_wf(t@));
    }
    t
}

/// The PM2.5 table, in tenths of a µg/m³: 0.0 to 500.4 µg/m³.
pub open spec fn spec_pm25_table() -> Seq<Breakpoint> {
    seq![
        Breakpoint {
            conc_low: 0,
            conc_high: 120,
            aqi_low: 0,
            aqi_high: 50,
            level: AirQualityLevel::Good,
        },
        Breakpoint {
            conc_low: 121,
            conc_high: 354,
            aqi_low: 51,
            aqi_high: 100,
            level: AirQualityLevel::Moderate,
        },
        Breakpoint {
            conc_low: 355,
            conc_high: 554,
            aqi_low: 101,
            aqi_high: 150,
            level: AirQualityLevel::UnhealthySensitive,
        },
        Breakpoint {
            conc_low: 555,
            conc_high: 1504,
            aqi_low: 151,
            aqi_high: 200,
            level: AirQualityLevel::Unhealthy,
        },
        Breakpoint {
            conc_low: 1505,
            conc_high: 2504,
            aqi_low: 201,
            aqi_high: 300,
            level: AirQualityLevel::VeryUnhealthy,
        },
        Breakpoint {
            conc_low: 2505,
            conc_high: 3504,
            aqi_low: 301,
            aqi_high: 400,
            level: AirQualityLevel::Hazardous,
        },
        Breakpoint {
            conc_low: 3505,
            conc_high: 5004,
            aqi_low: 401,
            aqi_high: 500,
            level: AirQualityLevel::Hazardous,
        },
    ]
}

/// Builds the PM2.5 table.
pub fn pm25_table() -> (t: Vec<Breakpoint>)
    ensures
        t@ == spec_pm25_table(),
        table_wf(t@),
{
    let mut t: Vec<Breakpoint> = Vec::new();
    t.push(Breakpoint { conc_low: 0, conc_high: 120, aqi_low: 0, aqi_high: 50, level: AirQualityLevel::Good });
    t.push(Breakpoint { conc_low: 121, conc_high: 354, aqi_low: 51, aqi_high: 100, level: AirQualityLevel::Moderate });
    t.push(Breakpoint { conc_low: 355, conc_high: 554, aqi_low: 101, aqi_high: 150, level: AirQualityLevel::UnhealthySensitive });
    t.push(Breakpoint { conc_low: 555, conc_high: 1504, aqi_low: 151, aqi_high: 200, level: AirQualityLevel::Unhealthy });
    t.push(Breakpoint { conc_low: 1505, conc_high: 2504, aqi_low: 201, aqi_high: 300, level: AirQualityLevel::VeryUnhealthy });
    t.push(Breakpoint { conc_low: 2505, conc_high: 3504, aqi_low: 301, aqi_high: 400, level: AirQualityLevel::Hazardous });
    t.push(Breakpoint { conc_low: 3505, conc_high: 5004, aqi_low: 401, aqi_high: 500, level: AirQualityLevel::Hazardous });
    proof {
        assert(t@ =~= spec_pm25_table());
        assert(table_wf(t@));
    }
    t
}

/// The PM10 table, in whole µg/m³: 0 to 604 µg/m³.
pub open spec fn spec_pm10_table() -> Seq<Breakpoint> {
    seq![
        Breakpoint {
            conc_low: 0,
            conc_high: 54,
            aqi_low: 0,
            aqi_high: 50,
            level: AirQualityLevel::Good,
        },
        Breakpoint {
            conc_low: 55,
            conc_high: 154,
            aqi_low: 51,
            aqi_high: 100,
            level: AirQualityLevel::Moderate,
        },
        Breakpoint {
            conc_low: 155,
            conc_high: 254,
            aqi_low: 101,
            aqi_high: 150,
            level: AirQualityLevel::UnhealthySensitive,
        },
        Breakpoint {
            conc_low: 255,
            conc_high: 354,
            aqi_low: 151,
            aqi_high: 200,
            level: AirQualityLevel::Unhealthy,
        },
        Breakpoint {
            conc_low: 355,
            conc_high: 424,
            aqi_low: 201,
            aqi_high: 300,
            level: AirQualityLevel::VeryUnhealthy,
        },
        Breakpoint {
            conc_low: 425,
            conc_high: 504,
            aqi_low: 301,
            aqi_high: 400,
            level: AirQualityLevel::Hazardous,
        },
        Breakpoint {
            conc_low: 505,
            conc_high: 604,
            aqi_low: 401,
            aqi_high: 500,
            level: AirQualityLevel::Hazardous,
        },
    ]
}

/// Builds the PM10 table.
pub fn pm10_table() -> (t: Vec<Breakpoint>)
    ensures
        t@ == spec_pm10_table(),
        table_wf(t@),
{
    let mut t: Vec<Breakpoint> = Vec::new();
    t.push(Breakpoint { conc_low: 0, conc_high: 54, aqi_low: 0, aqi_high: 50, level: AirQualityLevel::Good });
    t.push(Breakpoint { conc_low: 55, conc_high: 154, aqi_low: 51, aqi_high: 100, level: AirQualityLevel::Moderate });
    t.push(Breakpoint { conc_low: 155, conc_high: 254, aqi_low: 101, aqi_high: 150, level: AirQualityLevel::UnhealthySensitive });
    t.push(Breakpoint { conc_low: 255, conc_high: 354, aqi_low: 151, aqi_high: 200, level: AirQualityLevel::Unhealthy });
    t.push(Breakpoint { conc_low: 355, conc_high: 424, aqi_low: 201, aqi_high: 300, level: AirQualityLevel::VeryUnhealthy });
    t.push(Breakpoint { conc_low: 425, conc_high: 504, aqi_low: 301, aqi_high: 400, level: AirQualityLevel::Hazardous });
    t.push(Breakpoint { conc_low: 505, conc_high: 604, aqi_low: 401, aqi_high: 500, level: AirQualityLevel::Hazardous });
    proof {
        assert(t@ =~= spec_pm10_table());
        assert(table_wf(t@));
    }
    t
}

/// The 8-hour carbon monoxide table, in tenths of a ppm: 0.0 to 50.4 ppm.
pub open spec fn spec_co_table() -> Seq<Breakpoint> {
    seq![
        Breakpoint {
            conc_low: 0,
            conc_high: 44,
            aqi_low: 0,
            aqi_high: 50,
            level: AirQualityLevel::Good,
        },
        Breakpoint {
            conc_low: 45,
            conc_high: 94,
            aqi_low: 51,
            aqi_high: 100,
            level: AirQualityLevel::Moderate,
        },
        Breakpoint {
            conc_low: 95,
            conc_high: 124,
            aqi_low: 101,
            aqi_high: 150,
            level: AirQualityLevel::UnhealthySensitive,
        },
        Breakpoint {
            conc_low: 125,
            conc_high: 154,
            aqi_low: 151,
            aqi_high: 200,
            level: AirQualityLevel::Unhealthy,
        },
        Breakpoint {
            conc_low: 155,
            conc_high: 304,
            aqi_low: 201,
            aqi_high: 300,
            level: AirQualityLevel::VeryUnhealthy,
        },
        Breakpoint {
            conc_low: 305,
            conc_high: 404,
            aqi_low: 301,
            aqi_high: 400,
            level: AirQualityLevel::Hazardous,
        },
        Breakpoint {
            conc_low: 405,
            conc_high: 504,
            aqi_low: 401,
            aqi_high: 500,
            level: AirQualityLevel::Hazardous,
        },
    ]
}

/// Builds the carbon monoxide table.
pub fn co_table() -> (t: Vec<Breakpoint>)
    ensures
        t@ == spec_co_table(),
        table_wf(t@),
{
    let mut t: Vec<Breakpoint> = Vec::new();
    t.push(Breakpoint { conc_low: 0, conc_high: 44, aqi_low: 0, aqi_high: 50, level: AirQualityLevel::Good });
    t.push(Breakpoint { conc_low: 45, conc_high: 94, aqi_low: 51, aqi_high: 100, level: AirQualityLevel::Moderate });
    t.push(Breakpoint { conc_low: 95, conc_high: 124, aqi_low: 101, aqi_high: 150, level: AirQualityLevel::UnhealthySensitive });
    t.push(Breakpoint { conc_low: 125, conc_high: 154, aqi_low: 151, aqi_high: 200, level: AirQualityLevel::Unhealthy });
    t.push(Breakpoint { conc_low: 155, conc_high: 304, aqi_low: 201, aqi_high: 300, level: AirQualityLevel::VeryUnhealthy });
    t.push(Breakpoint { conc_low: 305, conc_high: 404, aqi_low: 301, aqi_high: 400, level: AirQualityLevel::Hazardous });
    t.push(Breakpoint { conc_low: 405, conc_high: 504, aqi_low: 401, aqi_high: 500, level: AirQualityLevel::Hazardous });
    proof {
        assert(t@ =~= spec_co_table());
        assert(table_wf(t@));
    }
    t
}

/// The 1-hour sulfur dioxide table, in whole ppb: 0 to 185 ppb. Higher
/// readings belong to the 24-hour formula.
pub open spec fn spec_so2_1_table() -> Seq<Breakpoint> {
    seq![
        Breakpoint {
            conc_low: 0,
            conc_high: 35,
            aqi_low: 0,
            aqi_high: 50,
            level: AirQualityLevel::Good,
        },
        Breakpoint {
            conc_low: 36,
            conc_high: 75,
            aqi_low: 51,
            aqi_high: 100,
            level: AirQualityLevel::Moderate,
        },
        Breakpoint {
            conc_low: 76,
            conc_high: 185,
            aqi_low: 101,
            aqi_high: 150,
            level: AirQualityLevel::UnhealthySensitive,
        },
    ]
}

/// Builds the 1-hour sulfur dioxide table.
pub fn so2_1_table() -> (t: Vec<Breakpoint>)
    ensures
        t@ == spec_so2_1_table(),
        table_wf(t@),
{
    let mut t: Vec<Breakpoint> = Vec::new();
    t.push(Breakpoint { conc_low: 0, conc_high: 35, aqi_low: 0, aqi_high: 50, level: AirQualityLevel::Good });
    t.push(Breakpoint { conc_low: 36, conc_high: 75, aqi_low: 51, aqi_high: 100, level: AirQualityLevel::Moderate });
    t.push(Breakpoint { conc_low: 76, conc_high: 185, aqi_low: 101, aqi_high: 150, level: AirQualityLevel::UnhealthySensitive });
    proof {
        assert(t@ =~= spec_so2_1_table());
        assert(table_wf(t@));
    }
    t
}

/// The 24-hour sulfur dioxide table, in whole ppb: 0 to 1004 ppb.
pub open spec fn spec_so2_24_table() -> Seq<Breakpoint> {
    seq![
        Breakpoint {
            conc_low: 0,
            conc_high: 35,
            aqi_low: 0,
            aqi_high: 50,
            level: AirQualityLevel::Good,
        },
        Breakpoint {
            conc_low: 36,
            conc_high: 75,
            aqi_low: 51,
            aqi_high: 100,
            level: AirQualityLevel::Moderate,
        },
        Breakpoint {
            conc_low: 76,
            conc_high: 185,
            aqi_low: 101,
            aqi_high: 150,
            level: AirQualityLevel::UnhealthySensitive,
        },
        Breakpoint {
            conc_low: 186,
            conc_high: 304,
            aqi_low: 151,
            aqi_high: 200,
            level: AirQualityLevel::Unhealthy,
        },
        Breakpoint {
            conc_low: 305,
            conc_high: 604,
            aqi_low: 201,
            aqi_high: 300,
            level: AirQualityLevel::VeryUnhealthy,
        },
        Breakpoint {
            conc_low: 605,
            conc_high: 804,
            aqi_low: 301,
            aqi_high: 400,
            level: AirQualityLevel::Hazardous,
        },
        Breakpoint {
            conc_low: 805,
            conc_high: 1004,
            aqi_low: 401,
            aqi_high: 500,
            level: AirQualityLevel::Hazardous,
        },
    ]
}

/// Builds the 24-hour sulfur dioxide table.
pub fn so2_24_table() -> (t: Vec<Breakpoint>)
    ensures
        t@ == spec_so2_24_table(),
        table_wf(t@),
{
    let mut t: Vec<Breakpoint> = Vec::new();
    t.push(Breakpoint { conc_low: 0, conc_high: 35, aqi_low: 0, aqi_high: 50, level: AirQualityLevel::Good });
    t.push(Breakpoint { conc_low: 36, conc_high: 75, aqi_low: 51, aqi_high: 100, level: AirQualityLevel::Moderate });
    t.push(Breakpoint { conc_low: 76, conc_high: 185, aqi_low: 101, aqi_high: 150, level: AirQualityLevel::UnhealthySensitive });
    t.push(Breakpoint { conc_low: 186, conc_high: 304, aqi_low: 151, aqi_high: 200, level: AirQualityLevel::Unhealthy });
    t.push(Breakpoint { conc_low: 305, conc_high: 604, aqi_low: 201, aqi_high: 300, level: AirQualityLevel::VeryUnhealthy });
    t.push(Breakpoint { conc_low: 605, conc_high: 804, aqi_low: 301, aqi_high: 400, level: AirQualityLevel::Hazardous });
    t.push(Breakpoint { conc_low: 805, conc_high: 1004, aqi_low: 401, aqi_high: 500, level: AirQualityLevel::Hazardous });
    proof {
        assert(t@ =~= spec_so2_24_table());
        assert(table_wf(t@));
    }
    t
}

/// The 1-hour nitrogen dioxide table, in whole ppb: 0 to 2049 ppb.
pub open spec fn spec_no2_table() -> Seq<Breakpoint> {
    seq![
        Breakpoint {
            conc_low: 0,
            conc_high: 53,
            aqi_low: 0,
            aqi_high: 50,
            level: AirQualityLevel::Good,
        },
        Breakpoint {
            conc_low: 54,
            conc_high: 100,
            aqi_low: 51,
            aqi_high: 100,
            level: AirQualityLevel::Moderate,
        },
        Breakpoint {
            conc_low: 101,
            conc_high: 360,
            aqi_low: 101,
            aqi_high: 150,
            level: AirQualityLevel::UnhealthySensitive,
        },
        Breakpoint {
            conc_low: 361,
            conc_high: 649,
            aqi_low: 151,
            aqi_high: 200,
            level: AirQualityLevel::Unhealthy,
        },
        Breakpoint {
            conc_low: 650,
            conc_high: 1249,
            aqi_low: 201,
            aqi_high: 300,
            level: AirQualityLevel::VeryUnhealthy,
        },
        Breakpoint {
            conc_low: 1250,
            conc_high: 1649,
            aqi_low: 301,
            aqi_high: 400,
            level: AirQualityLevel::Hazardous,
        },
        Breakpoint {
            conc_low: 1650,
            conc_high: 2049,
            aqi_low: 401,
            aqi_high: 500,
            level: AirQualityLevel::Hazardous,
        },
    ]
}

/// Builds the nitrogen dioxide table.
pub fn no2_table() -> (t: Vec<Breakpoint>)
    ensures
        t@ == spec_no2_table(),
        table_wf(t@),
{
    let mut t: Vec<Breakpoint> = Vec::new();
    t.push(Breakpoint { conc_low: 0, conc_high: 53, aqi_low: 0, aqi_high: 50, level: AirQualityLevel::Good });
    t.push(Breakpoint { conc_low: 54, conc_high: 100, aqi_low: 51, aqi_high: 100, level: AirQualityLevel::Moderate });
    t.push(Breakpoint { conc_low: 101, conc_high: 360, aqi_low: 101, aqi_high: 150, level: AirQualityLevel::UnhealthySensitive });
    t.push(Breakpoint { conc_low: 361, conc_high: 649, aqi_low: 151, aqi_high: 200, level: AirQualityLevel::Unhealthy });
    t.push(Breakpoint { conc_low: 650, conc_high: 1249, aqi_low: 201, aqi_high: 300, level: AirQualityLevel::VeryUnhealthy });
    t.push(Breakpoint { conc_low: 1250, conc_high: 1649, aqi_low: 301, aqi_high: 400, level: AirQualityLevel::Hazardous });
    t.push(Breakpoint { conc_low: 1650, conc_high: 2049, aqi_low: 401, aqi_high: 500, level: AirQualityLevel::Hazardous });
    proof {
        assert(t@ =~= spec_no2_table());
        assert(table_wf(t@));
    }
    t
}

} // verus!
