//! The per-pollutant formula entry points.
//!
//! Every entry point takes its reading as a fixed-point integer holding
//! ten-thousandths of the pollutant's unit (`121_000` is 12.1), applies the
//! pollutant's correction where one is defined, truncates to the decimal
//! places the published formula keeps, and looks the result up in the
//! pollutant's breakpoint table. A reading whose (corrected, truncated)
//! value falls outside the table yields `None`: the formula does not apply
//! to it, and the caller should fall back to another averaging period or
//! treat the reading as insufficient data.

use crate::interp::{calc_aqi, spec_aqi_result};
use crate::tables::{
    co_table, no2_table, ozone1_table, ozone8_table, pm10_table, pm25_table, so2_1_table,
    so2_24_table, spec_co_table, spec_no2_table, spec_ozone1_table, spec_ozone8_table,
    spec_pm10_table, spec_pm25_table, spec_so2_1_table, spec_so2_24_table,
};
use crate::types::AirQuality;
use vstd::arithmetic::div_mod::{lemma_div_by_multiple, lemma_div_is_ordered};
use vstd::prelude::*;

verus! {

/// Ten to the power `n`.
pub open spec fn pow10(n: nat) -> int
    decreases n,
{
    if n == 0 {
        1
    } else {
        10 * pow10((n - 1) as nat)
    }
}

/// The concrete powers of ten that the truncation scales use.
proof fn lemma_pow10_small()
    ensures
        pow10(0) == 1,
        pow10(1) == 10,
        pow10(2) == 100,
        pow10(3) == 1000,
        pow10(4) == 10000,
{
    assert(pow10(0) == 1);
    assert(pow10(1) == 10);
    assert(pow10(2) == 100);
    assert(pow10(3) == 1000);
    assert(pow10(4) == 10000);
}

/// Truncates a fixed-point reading (ten-thousandths of a unit) to
/// `decimals` decimal places, discarding — never rounding — the finer
/// digits. The result is in units of `10^-decimals`: `trunc(123_499, 1)`
/// is `123` tenths, that is 12.3.
pub fn trunc(value: u64, decimals: u32) -> (r: u64)
    requires
        decimals <= 4,
    ensures
        r == value as int / pow10((4 - decimals) as nat),
{
    proof {
        lemma_pow10_small();
    }
    let divisor: u64 = if decimals == 0 {
        10_000
    } else if decimals == 1 {
        1_000
    } else if decimals == 2 {
        100
    } else if decimals == 3 {
        10
    } else {
        1
    };
    value / divisor
}

/// Result of the 8-hour ozone formula on a reading in ten-thousandths of
/// a ppm: the reading truncated to thousandths of a ppm, looked up in the
/// 8-hour ozone table.
pub open spec fn spec_ozone8(c: int) -> Option<AirQuality> {
    spec_aqi_result(spec_ozone8_table(), c / 10)
}

/// Calculates the ozone Air Quality Index from the provided 8-hour
/// concentration, given in ten-thousandths of a ppm (0.054 ppm is `540`).
///
/// The AQI is defined for concentrations between 0.000 and 0.200 ppm. For
/// values between 0.201 and 0.604 ppm, a 1-hour concentration should be
/// used if available.
pub fn ozone8(concentration: u64) -> (r: Option<AirQuality>)
    ensures
        r == spec_ozone8(concentration as int),
        r matches Some(aq) ==> aq.aqi <= 500,
{
    let table = ozone8_table();
    let truncated = trunc(concentration, 3);
    proof {
        lemma_pow10_small();
    }
    calc_aqi(&table, truncated)
}

/// Result of the 1-hour ozone formula on a reading in ten-thousandths of
/// a ppm: the reading truncated to thousandths of a ppm, looked up in the
/// 1-hour ozone table.
pub open spec fn spec_ozone1(c: int) -> Option<AirQuality> {
    spec_aqi_result(spec_ozone1_table(), c / 10)
}

/// Calculates the ozone Air Quality Index from the provided 1-hour
/// concentration, given in ten-thousandths of a ppm (0.125 ppm is `1250`).
///
/// The AQI is defined for concentrations between 0.125 and 0.604 ppm. For
/// values between 0.000 and 0.124 ppm, an 8-hour concentration should be
/// used if available.
pub fn ozone1(concentration: u64) -> (r: Option<AirQuality>)
    ensures
        r == spec_ozone1(concentration as int),
        r matches Some(aq) ==> aq.aqi <= 500,
{
    let table = ozone1_table();
    let truncated = trunc(concentration, 3);
    proof {
        lemma_pow10_small();
    }
    calc_aqi(&table, truncated)
}

/// Result of the PM2.5 formula on a reading in ten-thousandths of a
/// µg/m³: the reading truncated to tenths of a µg/m³, looked up in the
/// PM2.5 table.
pub open spec fn spec_pm2_5(c: int) -> Option<AirQuality> {
    spec_aqi_result(spec_pm25_table(), c / 1000)
}

/// Calculates the PM2.5 Air Quality Index from the provided 24-hour
/// concentration, given in ten-thousandths of a µg/m³ (12.1 µg/m³ is
/// `121_000`).
///
/// The AQI is defined for concentrations between 0.0 and 500.4 µg/m³.
pub fn pm2_5(concentration: u64) -> (r: Option<AirQuality>)
    ensures
        r == spec_pm2_5(concentration as int),
        r matches Some(aq) ==> aq.aqi <= 500,
{
    let table = pm25_table();
    let truncated = trunc(concentration, 1);
    proof {
        lemma_pow10_small();
    }
    calc_aqi(&table, truncated)
}

/// The EPA-corrected PM2.5 reading, in tenths of a µg/m³: the corrected
/// concentration `0.52 * c - 0.085 * h + 5.71` (with `c` in µg/m³ and `h`
/// the relative humidity as a fraction of one), truncated to one decimal
/// place. With `c` in ten-thousandths of a µg/m³ and `h` in
/// ten-thousandths, the correction is exact integer arithmetic.
pub open spec fn spec_epa_tenths(c: int, h: int) -> int {
    (520 * c - 85 * h + 57_100_000) / 1_000_000
}

/// Result of the EPA-corrected PM2.5 formula: the corrected, truncated
/// reading looked up in the PM2.5 table, and nothing at all when the
/// humidity lies outside 0 to 1.
pub open spec fn spec_pm2_5_epa(c: int, h: int) -> Option<AirQuality> {
    if 0 <= h && h <= 10_000 {
        spec_aqi_result(spec_pm25_table(), spec_epa_tenths(c, h))
    } else {
        None
    }
}

/// Calculates the EPA-corrected PM2.5 Air Quality Index for the provided
/// 24-hour concentration, using the correction published for PurpleAir
/// sensors: `0.52 * concentration - 0.085 * humidity + 5.71`.
///
/// The concentration is given in ten-thousandths of a µg/m³, the relative
/// humidity in ten-thousandths of one (so 38.5 % humidity is `3850`); a
/// humidity above `10_000` is out of the correction's domain and yields
/// `None`. The corrected AQI is defined for concentrations between 0.0
/// and 250.0 µg/m³.
pub fn pm2_5_epa(concentration: u64, humidity: u64) -> (r: Option<AirQuality>)
    ensures
        r == spec_pm2_5_epa(concentration as int, humidity as int),
        r matches Some(aq) ==> aq.aqi <= 500,
{
    if humidity > 10_000 {
        return None;
    }
    let num: u128 = 520 * (concentration as u128) + 57_100_000 - 85 * (humidity as u128);
    let wide_tenths: u128 = num / 1_000_000;
    proof {
        assert(num as int <= u64::MAX * 1_000_000);
        lemma_div_is_ordered(num as int, u64::MAX * 1_000_000, 1_000_000);
        lemma_div_by_multiple(u64::MAX as int, 1_000_000);
    }
    let tenths: u64 = wide_tenths as u64;
    let table = pm25_table();
    calc_aqi(&table, tenths)
}

/// The LRAPA-corrected PM2.5 reading, in tenths of a µg/m³: the corrected
/// concentration `0.5 * c - 0.66` (with `c` in µg/m³), truncated to one
/// decimal place; a corrected value below zero truncates to zero.
pub open spec fn spec_lrapa_tenths(c: int) -> int {
    if c <= 13_200 {
        0
    } else {
        (c - 13_200) / 2_000
    }
}

/// Result of the LRAPA-corrected PM2.5 formula: the corrected, truncated
/// reading looked up in the PM2.5 table, and nothing at all when the raw
/// reading lies above 65.0 µg/m³.
pub open spec fn spec_pm2_5_lrapa(c: int) -> Option<AirQuality> {
    if c <= 650_000 {
        spec_aqi_result(spec_pm25_table(), spec_lrapa_tenths(c))
    } else {
        None
    }
}

/// Calculates the LRAPA-corrected PM2.5 Air Quality Index for the
/// provided 24-hour concentration, using the Lane Regional Air Protection
/// Agency correction for PurpleAir sensors:
/// `0.5 * concentration - 0.66`.
///
/// The concentration is given in ten-thousandths of a µg/m³; a raw
/// reading above 65.0 µg/m³ (`650_000`) is out of the correction's domain
/// and yields `None`, while exactly 65.0 is accepted.
pub fn pm2_5_lrapa(concentration: u64) -> (r: Option<AirQuality>)
    ensures
        r == spec_pm2_5_lrapa(concentration as int),
        r matches Some(aq) ==> aq.aqi <= 500,
{
    if concentration > 650_000 {
        return None;
    }
    let tenths: u64 = if concentration <= 13_200 {
        0
    } else {
        (concentration - 13_200) / 2_000
    };
    let table = pm25_table();
    calc_aqi(&table, tenths)
}

/// The AQandU-corrected PM2.5 reading, in tenths of a µg/m³: the
/// corrected concentration `0.778 * c + 2.65` (with `c` in µg/m³),
/// truncated to one decimal place.
pub open spec fn spec_aqandu_tenths(c: int) -> int {
    (778 * c + 26_500_000) / 1_000_000
}

/// Result of the AQandU-corrected PM2.5 formula: the corrected, truncated
/// reading looked up in the PM2.5 table.
pub open spec fn spec_pm2_5_aqandu(c: int) -> Option<AirQuality> {
    spec_aqi_result(spec_pm25_table(), spec_aqandu_tenths(c))
}

/// Calculates the AQandU-corrected PM2.5 Air Quality Index for the
/// provided 24-hour concentration, using the University of Utah AQandU
/// correction: `0.778 * concentration + 2.65`.
///
/// The concentration is given in ten-thousandths of a µg/m³. The
/// correction has no domain restriction of its own beyond the table's
/// coverage.
pub fn pm2_5_aqandu(concentration: u64) -> (r: Option<AirQuality>)
    ensures
        r == spec_pm2_5_aqandu(concentration as int),
        r matches Some(aq) ==> aq.aqi <= 500,
{
    let num: u128 = 778 * (concentration as u128) + 26_500_000;
    let wide_tenths: u128 = num / 1_000_000;
    proof {
        assert(num as int <= u64::MAX * 1_000_000);
        lemma_div_is_ordered(num as int, u64::MAX * 1_000_000, 1_000_000);
        lemma_div_by_multiple(u64::MAX as int, 1_000_000);
    }
    let tenths: u64 = wide_tenths as u64;
    let table = pm25_table();
    calc_aqi(&table, tenths)
}

/// Result of the PM10 formula on a reading in ten-thousandths of a
/// µg/m³: the reading truncated to a whole number of µg/m³, looked up in
/// the PM10 table.
pub open spec fn spec_pm10(c: int) -> Option<AirQuality> {
    spec_aqi_result(spec_pm10_table(), c / 10_000)
}

/// Calculates the PM10 Air Quality Index from the provided 24-hour
/// concentration, given in ten-thousandths of a µg/m³ (154 µg/m³ is
/// `1_540_000`).
///
/// The AQI is defined for concentrations between 0 and 604 µg/m³; the
/// published breakpoints use whole µg/m³, so the reading truncates to a
/// whole number.
pub fn pm10(concentration: u64) -> (r: Option<AirQuality>)
    ensures
        r == spec_pm10(concentration as int),
        r matches Some(aq) ==> aq.aqi <= 500,
{
    let table = pm10_table();
    let truncated = trunc(concentration, 0);
    proof {
        lemma_pow10_small();
    }
    calc_aqi(&table, truncated)
}

/// Result of the carbon monoxide formula on a reading in ten-thousandths
/// of a ppm: the reading truncated to tenths of a ppm, looked up in the
/// CO table.
pub open spec fn spec_co(c: int) -> Option<AirQuality> {
    spec_aqi_result(spec_co_table(), c / 1000)
}

/// Calculates the carbon monoxide Air Quality Index from the provided
/// 8-hour concentration, given in ten-thousandths of a ppm (9.5 ppm is
/// `95_000`).
///
/// The AQI is defined for concentrations between 0.0 and 50.4 ppm.
pub fn co(concentration: u64) -> (r: Option<AirQuality>)
    ensures
        r == spec_co(concentration as int),
        r matches Some(aq) ==> aq.aqi <= 500,
{
    let table = co_table();
    let truncated = trunc(concentration, 1);
    proof {
        lemma_pow10_small();
    }
    calc_aqi(&table, truncated)
}

/// Result of the 1-hour sulfur dioxide formula on a reading in
/// ten-thousandths of a ppb: the reading truncated to whole ppb, looked
/// up in the 1-hour SO₂ table.
pub open spec fn spec_so2_1(c: int) -> Option<AirQuality> {
    spec_aqi_result(spec_so2_1_table(), c / 10_000)
}

/// Calculates the sulfur dioxide Air Quality Index from the provided
/// 1-hour concentration, given in ten-thousandths of a ppb (35 ppb is
/// `350_000`).
///
/// The AQI is defined for concentrations between 0 and 185 ppb. For
/// values between 186 and 1004 ppb, a 24-hour concentration should be
/// used if available.
pub fn so2_1(concentration: u64) -> (r: Option<AirQuality>)
    ensures
        r == spec_so2_1(concentration as int),
        r matches Some(aq) ==> aq.aqi <= 500,
{
    let table = so2_1_table();
    let truncated = trunc(concentration, 0);
    proof {
        lemma_pow10_small();
    }
    calc_aqi(&table, truncated)
}

/// Result of the 24-hour sulfur dioxide formula on a reading in
/// ten-thousandths of a ppb: the reading truncated to whole ppb, looked
/// up in the 24-hour SO₂ table.
pub open spec fn spec_so2_24(c: int) -> Option<AirQuality> {
    spec_aqi_result(spec_so2_24_table(), c / 10_000)
}

/// Calculates the sulfur dioxide Air Quality Index from the provided
/// 24-hour concentration, given in ten-thousandths of a ppb.
///
/// The AQI is defined for concentrations between 0 and 1004 ppb.
pub fn so2_24(concentration: u64) -> (r: Option<AirQuality>)
    ensures
        r == spec_so2_24(concentration as int),
        r matches Some(aq) ==> aq.aqi <= 500,
{
    let table = so2_24_table();
    let truncated = trunc(concentration, 0);
    proof {
        lemma_pow10_small();
    }
    calc_aqi(&table, truncated)
}

/// Result of the nitrogen dioxide formula on a reading in
/// ten-thousandths of a ppb: the reading truncated to whole ppb, looked
/// up in the NO₂ table.
pub open spec fn spec_no2(c: int) -> Option<AirQuality> {
    spec_aqi_result(spec_no2_table(), c / 10_000)
}

/// Calculates the nitrogen dioxide Air Quality Index from the provided
/// 1-hour concentration, given in ten-thousandths of a ppb.
///
/// The AQI is defined for concentrations between 0 and 2049 ppb.
pub fn no2(concentration: u64) -> (r: Option<AirQuality>)
    ensures
        r == spec_no2(concentration as int),
        r matches Some(aq) ==> aq.aqi <= 500,
{
    let table = no2_table();
    let truncated = trunc(concentration, 0);
    proof {
        lemma_pow10_small();
    }
    calc_aqi(&table, truncated)
}

/// Every formula is a pure function of its arguments: each entry point's
/// contract equates its result with a specification function of the
/// arguments alone, so re-invoking a formula with an identical input
/// always yields an identical result. Stated here for the plain PM2.5
/// formula: any two return values meeting its contract on the same
/// reading are equal.
pub proof fn lemma_pm2_5_deterministic(
    concentration: u64,
    r1: Option<AirQuality>,
    r2: Option<AirQuality>,
)
    requires
        r1 == spec_pm2_5(concentration as int),
        r2 == spec_pm2_5(concentration as int),
    ensures
        r1 == r2,
{
}

/// The same determinism for a formula with an auxiliary input: any two
/// return values meeting the EPA-corrected formula's contract on the same
/// reading and humidity are equal.
pub proof fn lemma_pm2_5_epa_deterministic(
    concentration: u64,
    humidity: u64,
    r1: Option<AirQuality>,
    r2: Option<AirQuality>,
)
    requires
        r1 == spec_pm2_5_epa(concentration as int, humidity as int),
        r2 == spec_pm2_5_epa(concentration as int, humidity as int),
    ensures
        r1 == r2,
{
}

} // verus!
