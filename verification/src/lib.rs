//! Air Quality Index (AQI) calculations for common pollutants.
//!
//! The library converts pollutant concentration readings (ozone, PM2.5,
//! PM10, CO, SO₂, NO₂) into the standardized AQI value in `[0, 500]` and a
//! human-readable severity level, following the published piecewise-linear
//! breakpoint formulas, including the EPA, LRAPA and AQandU corrections for
//! low-cost PM2.5 sensors.
//!
//! Concentrations are passed as fixed-point integers holding ten-thousandths
//! of the pollutant's unit, so a PM2.5 reading of 12.1 µg/m³ is `121_000` and
//! an ozone reading of 0.054 ppm is `540`. Four decimal places are finer than
//! any of the formulas keep (each truncates its input to at most three
//! places), so every computation on this representation is exact.

pub mod breakpoints;
pub mod formulas;
pub mod interp;
pub mod rounding;
pub mod tables;
pub mod types;

pub use breakpoints::{find_breakpoint, Breakpoint};
pub use formulas::{
    co, no2, ozone1, ozone8, pm10, pm2_5, pm2_5_aqandu, pm2_5_epa, pm2_5_lrapa, so2_1, so2_24,
    trunc,
};
pub use interp::calc_aqi;
pub use rounding::{round, round_fallback};
pub use types::{AirQuality, AirQualityLevel, AqiRangeError};
