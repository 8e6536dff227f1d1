//! Shared request and response value types.
//!
//! Instants are Unix epochs in seconds (UTC). Temperatures and wind speeds
//! are integers in thousandths of their unit — milli-degrees Celsius and
//! milli-metres-per-second — which keeps every contract exact.

use vstd::prelude::*;

verus! {

/// A weather query: a free-text location and an optional instant.
///
/// The address is opaque to this layer and passed through to the upstream
/// service. An absent instant means "now".
#[derive(Debug, Clone)]
pub struct WeatherRequest {
    pub address: String,
    pub when_epoch: Option<i64>,
}

/// The mathematical shape of a `WeatherRequest`.
pub ghost struct RequestV {
    pub address: Seq<char>,
    pub when_epoch: Option<i64>,
}

impl View for WeatherRequest {
    type V = RequestV;

    open spec fn view(&self) -> RequestV {
        RequestV { address: self.address@, when_epoch: self.when_epoch }
    }
}

/// A normalized weather observation, the one response shape every
/// provider's payload is reconciled into.
///
/// Wind speed is always metres per second (in thousandths) whatever unit
/// the upstream reported, and humidity is a percentage in 0–100.
#[derive(Debug, Clone)]
pub struct WeatherResponse {
    pub provider: String,
    pub location_name: String,
    pub temperature_milli_c: i64,
    pub feels_like_milli_c: i64,
    pub condition: String,
    pub humidity_pct: u8,
    pub wind_speed_milli_mps: i64,
    pub observation_time_epoch: i64,
}

/// The mathematical shape of a `WeatherResponse`.
pub ghost struct ObsV {
    pub provider: Seq<char>,
    pub location_name: Seq<char>,
    pub temperature_milli_c: int,
    pub feels_like_milli_c: int,
    pub condition: Seq<char>,
    pub humidity_pct: int,
    pub wind_speed_milli_mps: int,
    pub observation_time_epoch: int,
}

impl View for WeatherResponse {
    type V = ObsV;

    open spec fn view(&self) -> ObsV {
        ObsV {
            provider: self.provider@,
            location_name: self.location_name@,
            temperature_milli_c: self.temperature_milli_c as int,
            feels_like_milli_c: self.feels_like_milli_c as int,
            condition: self.condition@,
            humidity_pct: self.humidity_pct as int,
            wind_speed_milli_mps: self.wind_speed_milli_mps as int,
            observation_time_epoch: self.observation_time_epoch as int,
        }
    }
}

/// The invariant of a normalized observation: humidity is a percentage.
pub open spec fn obs_wf(o: ObsV) -> bool {
    0 <= o.humidity_pct <= 100
}

/// An executable normalization result agrees with its mathematical
/// counterpart: same case, the observation's view is the stated one, and
/// the error's view is the stated one.
pub open spec fn obs_result_matches(
    r: Result<WeatherResponse, crate::error::WeatherError>,
    s: Result<ObsV, crate::error::ErrV>,
) -> bool {
    &&& (r is Ok <==> s is Ok)
    &&& (r matches Ok(o) ==> s matches Ok(ov) && o@ == ov)
    &&& (r matches Err(e) ==> s matches Err(ev) && e@ == ev)
}

} // verus!
