//! Weather forcing: samples and the provider capability.

use vstd::prelude::*;
use crate::instant::Instant;

verus! {

/// Forcing values associated with one instant; immutable once produced.
/// Temperatures are in the library's fixed-point units (hundredths of a
/// degree).
#[derive(Clone, Copy, PartialEq, Eq, Structural, Debug)]
pub struct WeatherSample {
    /// Dry-bulb temperature of the outside air.
    pub dry_bulb_temperature: i64,
}

/// The capability of mapping an instant to its weather forcing. Each provider
/// pins down, through [`WeatherProvider::weather_at`], exactly which sample it
/// returns for each instant.
pub trait WeatherProvider {
    /// The sample this provider returns at instant `t`.
    spec fn weather_at(&self, t: Instant) -> WeatherSample;

    /// Returns the forcing data for instant `t`.
    fn get_weather_data(&self, t: Instant) -> (r: WeatherSample)
        requires
            t.wf(),
        ensures
            r == self.weather_at(t),
    ;
}

/// A provider whose forcing never changes.
#[derive(Clone, Copy, PartialEq, Eq, Structural, Debug)]
pub struct ConstantWeather {
    /// The dry-bulb temperature returned at every instant.
    pub dry_bulb_temperature: i64,
}

impl WeatherProvider for ConstantWeather {
    open spec fn weather_at(&self, t: Instant) -> WeatherSample {
        WeatherSample { dry_bulb_temperature: self.dry_bulb_temperature }
    }

    fn get_weather_data(&self, t: Instant) -> (r: WeatherSample) {
        WeatherSample { dry_bulb_temperature: self.dry_bulb_temperature }
    }
}

/// A provider whose forcing drifts by a fixed amount every full hour.
#[derive(Clone, Copy, PartialEq, Eq, Structural, Debug)]
pub struct DriftingWeather {
    /// Dry-bulb temperature during the first hour of the year.
    pub base_temperature: i32,
    /// Change applied for every full hour elapsed since the year began.
    pub hourly_drift: i32,
}

impl WeatherProvider for DriftingWeather {
    open spec fn weather_at(&self, t: Instant) -> WeatherSample {
        WeatherSample {
            dry_bulb_temperature: (self.base_temperature
                + (t.total_seconds() / 3600) * self.hourly_drift) as i64,
        }
    }

    fn get_weather_data(&self, t: Instant) -> (r: WeatherSample) {
        let hours: u64 = t.to_total_seconds() / 3600;
        let hours_signed: i64 = hours as i64;
        let drift: i64 = self.hourly_drift as i64;
        assert(hours_signed * drift <= 8760 * 0x8000_0000i64
            && hours_signed * drift >= -8760 * 0x8000_0000i64) by (nonlinear_arith)
            requires
                0 <= hours_signed < 8760,
                -0x8000_0000i64 <= drift < 0x8000_0000i64,
        ;
        let temperature: i64 = self.base_temperature as i64 + hours_signed * drift;
        WeatherSample { dry_bulb_temperature: temperature }
    }
}

} // verus!
