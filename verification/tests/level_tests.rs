//! Tests of the whole-number AQI categorization across the integer
//! widths, and of the out-of-range error.

use aqi::{AirQualityLevel, AqiRangeError};

#[test]
fn bands_at_their_edges() {
    assert_eq!(AirQualityLevel::try_from_u16(0), Ok(AirQualityLevel::Good));
    assert_eq!(AirQualityLevel::try_from_u16(50), Ok(AirQualityLevel::Good));
    assert_eq!(
        AirQualityLevel::try_from_u16(51),
        Ok(AirQualityLevel::Moderate)
    );
    assert_eq!(
        AirQualityLevel::try_from_u16(100),
        Ok(AirQualityLevel::Moderate)
    );
    assert_eq!(
        AirQualityLevel::try_from_u16(101),
        Ok(AirQualityLevel::UnhealthySensitive)
    );
    assert_eq!(
        AirQualityLevel::try_from_u16(150),
        Ok(AirQualityLevel::UnhealthySensitive)
    );
    assert_eq!(
        AirQualityLevel::try_from_u16(151),
        Ok(AirQualityLevel::Unhealthy)
    );
    assert_eq!(
        AirQualityLevel::try_from_u16(200),
        Ok(AirQualityLevel::Unhealthy)
    );
    assert_eq!(
        AirQualityLevel::try_from_u16(201),
        Ok(AirQualityLevel::VeryUnhealthy)
    );
    assert_eq!(
        AirQualityLevel::try_from_u16(300),
        Ok(AirQualityLevel::VeryUnhealthy)
    );
    assert_eq!(
        AirQualityLevel::try_from_u16(301),
        Ok(AirQualityLevel::Hazardous)
    );
    assert_eq!(
        AirQualityLevel::try_from_u16(500),
        Ok(AirQualityLevel::Hazardous)
    );
}

#[test]
fn out_of_range_values_fail() {
    assert_eq!(AirQualityLevel::try_from_u16(501), Err(AqiRangeError));
    assert_eq!(AirQualityLevel::try_from_i16(-1), Err(AqiRangeError));
    assert_eq!(AirQualityLevel::try_from_u32(501), Err(AqiRangeError));
    assert_eq!(AirQualityLevel::try_from_i32(-1), Err(AqiRangeError));
    assert_eq!(AirQualityLevel::try_from_u64(u64::MAX), Err(AqiRangeError));
    assert_eq!(AirQualityLevel::try_from_i64(i64::MIN), Err(AqiRangeError));
}

#[test]
fn every_width_agrees() {
    assert_eq!(AirQualityLevel::try_from_i16(0), Ok(AirQualityLevel::Good));
    assert_eq!(
        AirQualityLevel::try_from_u32(150),
        Ok(AirQualityLevel::UnhealthySensitive)
    );
    assert_eq!(
        AirQualityLevel::try_from_i32(300),
        Ok(AirQualityLevel::VeryUnhealthy)
    );
    assert_eq!(
        AirQualityLevel::try_from_u64(500),
        Ok(AirQualityLevel::Hazardous)
    );
    assert_eq!(
        AirQualityLevel::try_from_i64(51),
        Ok(AirQualityLevel::Moderate)
    );
}

#[test]
fn range_error_message() {
    let err = AirQualityLevel::try_from_u16(501).unwrap_err();
    assert_eq!(err.message(), "Value is out of range for AQI");
}
