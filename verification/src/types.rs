//! The value types of the library: severity levels, calculation results,
//! and the whole-number AQI categorization.

use vstd::prelude::*;

verus! {

/// Human-friendly interpretation of an AQI value.
#[derive(Copy, Clone, Debug, PartialEq, Eq, Structural)]
pub enum AirQualityLevel {
    /// The air quality is good and safe for everyone
    Good,
    /// The air quality is moderate, but unusually sensitive people should
    /// avoid heavy outdoor exertion
    Moderate,
    /// The air quality is unhealthy for those with respiratory issues or
    /// other health problems
    UnhealthySensitive,
    /// The air quality is unhealthy for everyone
    Unhealthy,
    /// The air quality is very unhealthy for everyone
    VeryUnhealthy,
    /// The air quality is hazardous and everyone should avoid outdoor
    /// exertion
    Hazardous,
}

/// Result type for AQI calculations.
#[derive(Copy, Clone, Debug, PartialEq, Eq, Structural)]
pub struct AirQuality {
    /// The numerical AQI value, in a range between 0 and 500
    pub aqi: u32,
    /// The human-friendly interpretation of the numeric AQI value
    pub level: AirQualityLevel,
}

/// Error returned when an integer lies outside the AQI range `[0, 500]`
/// and therefore belongs to no severity band.
#[derive(Copy, Clone, Debug, PartialEq, Eq, Structural)]
pub struct AqiRangeError;

impl AqiRangeError {
    /// A static description of the error.
    pub fn message(&self) -> (r: &'static str)
        ensures
            r@ == "Value is out of range for AQI"@,
    {
        "Value is out of range for AQI"
    }
}

/// The severity band a whole-number AQI value falls in: six fixed bands
/// covering 0 to 500, and no band outside that range.
pub open spec fn spec_level_for_aqi(value: int) -> Option<AirQualityLevel> {
    if 0 <= value && value <= 50 {
        Some(AirQualityLevel::Good)
    } else if 50 < value && value <= 100 {
        Some(AirQualityLevel::Moderate)
    } else if 100 < value && value <= 150 {
        Some(AirQualityLevel::UnhealthySensitive)
    } else if 150 < value && value <= 200 {
        Some(AirQualityLevel::Unhealthy)
    } else if 200 < value && value <= 300 {
        Some(AirQualityLevel::VeryUnhealthy)
    } else if 300 < value && value <= 500 {
        Some(AirQualityLevel::Hazardous)
    } else {
        None
    }
}

/// What the fallible integer conversions return: the band for an integer
/// inside `[0, 500]`, and the range error for any integer outside it.
pub open spec fn spec_level_result(value: int) -> Result<AirQualityLevel, AqiRangeError> {
    match spec_level_for_aqi(value) {
        Some(level) => Ok(level),
        None => Err(AqiRangeError),
    }
}

impl AirQualityLevel {
    /// The one shared implementation of the integer bands; every width
    /// delegates here.
    fn classify(value: i64) -> (r: Result<AirQualityLevel, AqiRangeError>)
        ensures
            r == spec_level_result(value as int),
    {
        if value < 0 || value > 500 {
            Err(AqiRangeError)
        } else if value <= 50 {
            Ok(AirQualityLevel::Good)
        } else if value <= 100 {
            Ok(AirQualityLevel::Moderate)
        } else if value <= 150 {
            Ok(AirQualityLevel::UnhealthySensitive)
        } else if value <= 200 {
            Ok(AirQualityLevel::Unhealthy)
        } else if value <= 300 {
            Ok(AirQualityLevel::VeryUnhealthy)
        } else {
            Ok(AirQualityLevel::Hazardous)
        }
    }

    /// Categorizes a `u16` AQI value into its severity band.
    pub fn try_from_u16(value: u16) -> (r: Result<AirQualityLevel, AqiRangeError>)
        ensures
            r == spec_level_result(value as int),
    {
        Self::classify(value as i64)
    }

    /// Categorizes an `i16` AQI value into its severity band.
    pub fn try_from_i16(value: i16) -> (r: Result<AirQualityLevel, AqiRangeError>)
        ensures
            r == spec_level_result(value as int),
    {
        Self::classify(value as i64)
    }

    /// Categorizes a `u32` AQI value into its severity band.
    pub fn try_from_u32(value: u32) -> (r: Result<AirQualityLevel, AqiRangeError>)
        ensures
            r == spec_level_result(value as int),
    {
        Self::classify(value as i64)
    }

    /// Categorizes an `i32` AQI value into its severity band.
    pub fn try_from_i32(value: i32) -> (r: Result<AirQualityLevel, AqiRangeError>)
        ensures
            r == spec_level_result(value as int),
    {
        Self::classify(value as i64)
    }

    /// Categorizes a `u64` AQI value into its severity band.
    pub fn try_from_u64(value: u64) -> (r: Result<AirQualityLevel, AqiRangeError>)
        ensures
            r == spec_level_result(value as int),
    {
        if value > 500 {
            Err(AqiRangeError)
        } else {
            Self::classify(value as i64)
        }
    }

    /// Categorizes an `i64` AQI value into its severity band.
    pub fn try_from_i64(value: i64) -> (r: Result<AirQualityLevel, AqiRangeError>)
        ensures
            r == spec_level_result(value as int),
    {
        Self::classify(value)
    }
}

} // verus!
