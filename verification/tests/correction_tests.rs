//! Tests of the sensor-corrected PM2.5 formulas: EPA, LRAPA and AQandU.

use aqi::{pm2_5_aqandu, pm2_5_epa, pm2_5_lrapa, AirQualityLevel};

#[test]
fn epa_accepts_humidity_bounds_inclusive() {
    // Humidity 0.0: corrected reading is 5.71, truncated to 5.7 µg/m³.
    let dry = pm2_5_epa(0, 0).unwrap();
    assert_eq!(dry.aqi, 24);
    assert_eq!(dry.level, AirQualityLevel::Good);
    // Humidity 1.0 (the top of the domain): 5.625 truncates to 5.6 µg/m³.
    let humid = pm2_5_epa(0, 10_000).unwrap();
    assert_eq!(humid.aqi, 23);
    assert_eq!(humid.level, AirQualityLevel::Good);
}

#[test]
fn epa_rejects_humidity_above_one() {
    assert_eq!(pm2_5_epa(0, 10_001), None);
    assert_eq!(pm2_5_epa(100_000, 20_000), None);
}

#[test]
fn epa_corrected_value() {
    // 10 µg/m³ at 50 % humidity: 0.52*10 - 0.085*0.5 + 5.71 = 10.8675,
    // truncated to 10.8, which maps to AQI 45.
    let aq = pm2_5_epa(100_000, 5_000).unwrap();
    assert_eq!(aq.aqi, 45);
    assert_eq!(aq.level, AirQualityLevel::Good);
}

#[test]
fn lrapa_accepts_up_to_65() {
    // Exactly 65.0 µg/m³ is accepted: 0.5*65 - 0.66 = 31.84, truncated
    // to 31.8, which maps to AQI 92.
    let aq = pm2_5_lrapa(650_000).unwrap();
    assert_eq!(aq.aqi, 92);
    assert_eq!(aq.level, AirQualityLevel::Moderate);
}

#[test]
fn lrapa_rejects_above_65() {
    assert_eq!(pm2_5_lrapa(650_001), None);
    assert_eq!(pm2_5_lrapa(1_000_000), None);
}

#[test]
fn lrapa_clamps_negative_corrections() {
    // 0.5*0 - 0.66 and 0.5*1.4 - 0.66 both truncate to 0.0 µg/m³.
    assert_eq!(pm2_5_lrapa(0).unwrap().aqi, 0);
    assert_eq!(pm2_5_lrapa(14_000).unwrap().aqi, 0);
}

#[test]
fn lrapa_corrected_value() {
    // 13.2 µg/m³: 0.5*13.2 - 0.66 = 5.94, truncated to 5.9 → AQI 25.
    assert_eq!(pm2_5_lrapa(132_000).unwrap().aqi, 25);
}

#[test]
fn aqandu_corrected_values() {
    // 0 µg/m³: 2.65 truncates to 2.6 → AQI 11.
    let zero = pm2_5_aqandu(0).unwrap();
    assert_eq!(zero.aqi, 11);
    assert_eq!(zero.level, AirQualityLevel::Good);
    // 100 µg/m³: 80.45 truncates to 80.4 → AQI 164.
    let aq = pm2_5_aqandu(1_000_000).unwrap();
    assert_eq!(aq.aqi, 164);
    assert_eq!(aq.level, AirQualityLevel::Unhealthy);
}

#[test]
fn aqandu_out_of_table() {
    // 769 µg/m³ corrects to 600.9, beyond the table's last breakpoint.
    assert_eq!(pm2_5_aqandu(7_690_000), None);
}
