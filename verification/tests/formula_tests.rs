//! Tests of the per-pollutant formula entry points. Concentrations are
//! fixed-point integers in ten-thousandths of the pollutant's unit.

use aqi::{pm2_5, AirQualityLevel};

#[test]
fn test_pm2_5() {
    let test_data: [(u64, u32); 22] = [
        (0, 0),
        (120_000, 50),
        (121_000, 51),
        (160_000, 59),
        (354_000, 100),
        (355_000, 101),
        (554_000, 150),
        (555_000, 151),
        (850_000, 166),
        (940_000, 171),
        (1_380_000, 194),
        (1_504_000, 200),
        (1_505_000, 201),
        (1_580_000, 208),
        (1_750_000, 225),
        (1_920_000, 242),
        (2_000_000, 250),
        (2_504_000, 300),
        (2_505_000, 301),
        (3_504_000, 400),
        (3_505_000, 401),
        (5_004_000, 500),
    ];

    for (conc, aqi) in test_data.iter() {
        assert_eq!(Some(*aqi), pm2_5(*conc).map(|aq| aq.aqi));
    }
}

#[test]
fn pm2_5_boundary_levels() {
    let good = pm2_5(120_000).unwrap();
    assert_eq!(good.aqi, 50);
    assert_eq!(good.level, AirQualityLevel::Good);
    let moderate = pm2_5(121_000).unwrap();
    assert_eq!(moderate.aqi, 51);
    assert_eq!(moderate.level, AirQualityLevel::Moderate);
    let top = pm2_5(5_004_000).unwrap();
    assert_eq!(top.aqi, 500);
    assert_eq!(top.level, AirQualityLevel::Hazardous);
}

#[test]
fn pm2_5_out_of_table() {
    // 500.5 µg/m³ lies above the last breakpoint.
    assert_eq!(pm2_5(5_005_000), None);
}

#[test]
fn pm2_5_monotonic_on_samples() {
    let samples: [u64; 10] = [
        0, 60_000, 120_000, 121_000, 160_000, 354_000, 355_000, 1_000_000, 2_505_000, 5_004_000,
    ];
    let mut last: u32 = 0;
    for conc in samples.iter() {
        let aqi = pm2_5(*conc).unwrap().aqi;
        assert!(aqi >= last);
        last = aqi;
    }
}

#[test]
fn ozone8_values() {
    assert_eq!(aqi::ozone8(0).unwrap().aqi, 0);
    // 0.0544 ppm truncates to 0.054, the top of the Good band.
    assert_eq!(aqi::ozone8(544).unwrap().aqi, 50);
    let moderate_top = aqi::ozone8(700).unwrap();
    assert_eq!(moderate_top.aqi, 100);
    assert_eq!(moderate_top.level, AirQualityLevel::Moderate);
    let unhealthy = aqi::ozone8(1_000).unwrap();
    assert_eq!(unhealthy.aqi, 187);
    assert_eq!(unhealthy.level, AirQualityLevel::Unhealthy);
    // 0.201 ppm is beyond the 8-hour table; the 1-hour formula applies.
    assert_eq!(aqi::ozone8(2_010), None);
}

#[test]
fn ozone1_values() {
    // Below 0.125 ppm the 1-hour table deliberately has no breakpoint.
    assert_eq!(aqi::ozone1(1_240), None);
    assert_eq!(aqi::ozone1(1_250).unwrap().aqi, 101);
    let top = aqi::ozone1(6_040).unwrap();
    assert_eq!(top.aqi, 500);
    assert_eq!(top.level, AirQualityLevel::Hazardous);
}

#[test]
fn pm10_values() {
    // 54.9999 µg/m³ truncates to 54 µg/m³, still Good.
    assert_eq!(aqi::pm10(549_999).unwrap().aqi, 50);
    assert_eq!(aqi::pm10(1_500_000).unwrap().aqi, 98);
    assert_eq!(aqi::pm10(6_040_000).unwrap().aqi, 500);
    assert_eq!(aqi::pm10(6_050_000), None);
}

#[test]
fn co_values() {
    assert_eq!(aqi::co(44_000).unwrap().aqi, 50);
    let sensitive = aqi::co(95_000).unwrap();
    assert_eq!(sensitive.aqi, 101);
    assert_eq!(sensitive.level, AirQualityLevel::UnhealthySensitive);
    assert_eq!(aqi::co(504_000).unwrap().aqi, 500);
    assert_eq!(aqi::co(505_000), None);
}

#[test]
fn so2_1_values() {
    assert_eq!(aqi::so2_1(350_000).unwrap().aqi, 50);
    // 35.9 ppb truncates to 35 ppb.
    assert_eq!(aqi::so2_1(359_000).unwrap().aqi, 50);
    assert_eq!(aqi::so2_1(1_850_000).unwrap().aqi, 150);
    // Above 185 ppb the 24-hour formula applies.
    assert_eq!(aqi::so2_1(1_860_000), None);
}

#[test]
fn so2_24_values() {
    assert_eq!(aqi::so2_24(1_860_000).unwrap().aqi, 151);
    assert_eq!(aqi::so2_24(3_050_000).unwrap().aqi, 201);
    assert_eq!(aqi::so2_24(10_040_000).unwrap().aqi, 500);
    assert_eq!(aqi::so2_24(10_050_000), None);
}

#[test]
fn no2_values() {
    assert_eq!(aqi::no2(530_000).unwrap().aqi, 50);
    assert_eq!(aqi::no2(1_000_000).unwrap().aqi, 100);
    assert_eq!(aqi::no2(20_490_000).unwrap().aqi, 500);
    assert_eq!(aqi::no2(20_500_000), None);
}

#[test]
fn formulas_are_idempotent() {
    assert_eq!(aqi::ozone8(1_000), aqi::ozone8(1_000));
    assert_eq!(aqi::ozone1(1_250), aqi::ozone1(1_250));
    assert_eq!(aqi::pm2_5(160_000), aqi::pm2_5(160_000));
    assert_eq!(
        aqi::pm2_5_epa(100_000, 5_000),
        aqi::pm2_5_epa(100_000, 5_000)
    );
    assert_eq!(aqi::pm2_5_lrapa(132_000), aqi::pm2_5_lrapa(132_000));
    assert_eq!(aqi::pm2_5_aqandu(1_000_000), aqi::pm2_5_aqandu(1_000_000));
    assert_eq!(aqi::pm10(1_500_000), aqi::pm10(1_500_000));
    assert_eq!(aqi::co(95_000), aqi::co(95_000));
    assert_eq!(aqi::so2_1(350_000), aqi::so2_1(350_000));
    assert_eq!(aqi::so2_24(3_050_000), aqi::so2_24(3_050_000));
    assert_eq!(aqi::no2(530_000), aqi::no2(530_000));
}
