//! Provider identifiers and the provider registry.
//!
//! The provider set is closed: a query is served either by OpenWeather or
//! by WeatherAPI.com. Identifier parsing is total and case-insensitive,
//! and resolving a provider against the credential store fails before any
//! network call when no API key is stored.

use crate::config::Config;
use crate::error::{result_matches, ErrV, WeatherError};
use crate::model::{obs_result_matches, obs_wf, WeatherRequest, WeatherResponse};
use crate::numeric::{i64_to_dec_string, spec_i64_dec, spec_u64_dec, u64_to_dec_string};
use crate::text::{eq_ignore_ascii_case, fold_eq};
use vstd::prelude::*;

pub mod openweather;
pub mod weatherapi;

use openweather::{
    normalize_ow_current, normalize_ow_forecast, spec_ow_current_response,
    spec_ow_forecast_response, spec_ow_plan, OpenWeatherProvider,
};
use weatherapi::{
    normalize_wa_at, normalize_wa_current, spec_wa_at_response, spec_wa_current_response,
    spec_wa_plan, WeatherApiProvider,
};

verus! {

/// One of the supported weather data providers.
#[derive(Debug, Clone, Copy, PartialEq, Eq, Hash, Structural)]
pub enum ProviderId {
    OpenWeather,
    WeatherApi,
}

/// The canonical lowercase string form of a provider identifier.
pub open spec fn spec_id_str(id: ProviderId) -> Seq<char> {
    match id {
        ProviderId::OpenWeather => "openweather"@,
        ProviderId::WeatherApi => "weatherapi"@,
    }
}

/// What a provider identifier string parses to: the identifier whose
/// canonical form it equals up to ASCII case, if any.
pub open spec fn spec_parse_provider_id(s: Seq<char>) -> Option<ProviderId> {
    if fold_eq(s, spec_id_str(ProviderId::OpenWeather)) {
        Some(ProviderId::OpenWeather)
    } else if fold_eq(s, spec_id_str(ProviderId::WeatherApi)) {
        Some(ProviderId::WeatherApi)
    } else {
        None
    }
}

impl ProviderId {
    /// The canonical lowercase name of the provider.
    pub fn as_str(&self) -> (r: &'static str)
        ensures
            r@ == spec_id_str(*self),
    {
        match self {
            ProviderId::OpenWeather => "openweather",
            ProviderId::WeatherApi => "weatherapi",
        }
    }

    /// Every supported provider, in a fixed order.
    pub fn all() -> (r: Vec<ProviderId>)
        ensures
            r@ == seq![ProviderId::OpenWeather, ProviderId::WeatherApi],
    {
        let mut v: Vec<ProviderId> = Vec::new();
        v.push(ProviderId::OpenWeather);
        v.push(ProviderId::WeatherApi);
        proof {
            assert(v@ =~= seq![ProviderId::OpenWeather, ProviderId::WeatherApi]);
        }
        v
    }

    /// Parse a provider identifier, ignoring ASCII case.
    ///
    /// Every string parses or fails: an unrecognized string yields an
    /// error that names the input and, in its rendering, the supported
    /// set.
    pub fn parse(value: &str) -> (r: Result<ProviderId, WeatherError>)
        ensures
            match spec_parse_provider_id(value@) {
                Some(id) => r == Ok::<ProviderId, WeatherError>(id),
                None => r matches Err(e) && e@ == (ErrV::UnknownProvider { input: value@ }),
            },
    {
        if eq_ignore_ascii_case(value, "openweather") {
            Ok(ProviderId::OpenWeather)
        } else if eq_ignore_ascii_case(value, "weatherapi") {
            Ok(ProviderId::WeatherApi)
        } else {
            Err(WeatherError::UnknownProvider { input: value.to_owned() })
        }
    }
}

/// The one upstream HTTP call an adapter plans for a classified request.
///
/// The surrounding application performs the call and hands the status and
/// body back to the adapter's normalizer.
#[derive(Debug, Clone, Copy, PartialEq, Eq, Structural)]
pub enum UpstreamCall {
    /// OpenWeather current conditions.
    OwCurrent,
    /// OpenWeather 5-day/3-hour forecast; the target instant is matched
    /// against the returned series locally.
    OwForecast { target_epoch: i64 },
    /// WeatherAPI.com current conditions.
    WaCurrent,
    /// WeatherAPI.com forecast or history, narrowed upstream by the
    /// target instant and its hour of day.
    WaAt { target_epoch: i64, hour: u8, forecast: bool },
}

/// The endpoint a planned call goes to.
pub open spec fn spec_endpoint_url(call: UpstreamCall) -> Seq<char> {
    match call {
        UpstreamCall::OwCurrent => "https://api.openweathermap.org/data/2.5/weather"@,
        UpstreamCall::OwForecast { .. } => "https://api.openweathermap.org/data/2.5/forecast"@,
        UpstreamCall::WaCurrent => "http://api.weatherapi.com/v1/current.json"@,
        UpstreamCall::WaAt { forecast, .. } => if forecast {
            "http://api.weatherapi.com/v1/forecast.json"@
        } else {
            "http://api.weatherapi.com/v1/history.json"@
        },
    }
}

/// The query parameters a planned call carries, in order.
pub open spec fn spec_query_params(call: UpstreamCall, address: Seq<char>, api_key: Seq<char>) -> Seq<
    (Seq<char>, Seq<char>),
> {
    match call {
        UpstreamCall::OwCurrent | UpstreamCall::OwForecast { .. } => seq![
            ("q"@, address),
            ("appid"@, api_key),
            ("units"@, "metric"@),
        ],
        UpstreamCall::WaCurrent => seq![("key"@, api_key), ("q"@, address)],
        UpstreamCall::WaAt { target_epoch, hour, .. } => seq![
            ("key"@, api_key),
            ("q"@, address),
            ("unixdt"@, spec_i64_dec(target_epoch as int)),
            ("hour"@, spec_u64_dec(hour as int)),
        ],
    }
}

impl UpstreamCall {
    /// The URL of the upstream endpoint this call goes to.
    pub fn endpoint_url(&self) -> (r: &'static str)
        ensures
            r@ == spec_endpoint_url(*self),
    {
        match self {
            UpstreamCall::OwCurrent => "https://api.openweathermap.org/data/2.5/weather",
            UpstreamCall::OwForecast { .. } => "https://api.openweathermap.org/data/2.5/forecast",
            UpstreamCall::WaCurrent => "http://api.weatherapi.com/v1/current.json",
            UpstreamCall::WaAt { forecast, .. } => {
                if *forecast {
                    "http://api.weatherapi.com/v1/forecast.json"
                } else {
                    "http://api.weatherapi.com/v1/history.json"
                }
            },
        }
    }

    /// The query parameters of this call, ready for the transport.
    pub fn query_params(&self, address: &str, api_key: &str) -> (r: Vec<(String, String)>)
        ensures
            r@.map_values(|p: (String, String)| (p.0@, p.1@)) == spec_query_params(
                *self,
                address@,
                api_key@,
            ),
    {
        let mut out: Vec<(String, String)> = Vec::new();
        match self {
            UpstreamCall::OwCurrent | UpstreamCall::OwForecast { .. } => {
                out.push((String::from_str("q"), address.to_owned()));
                out.push((String::from_str("appid"), api_key.to_owned()));
                out.push((String::from_str("units"), String::from_str("metric")));
            },
            UpstreamCall::WaCurrent => {
                out.push((String::from_str("key"), api_key.to_owned()));
                out.push((String::from_str("q"), address.to_owned()));
            },
            UpstreamCall::WaAt { target_epoch, hour, .. } => {
                out.push((String::from_str("key"), api_key.to_owned()));
                out.push((String::from_str("q"), address.to_owned()));
                out.push((String::from_str("unixdt"), i64_to_dec_string(*target_epoch)));
                out.push((String::from_str("hour"), u64_to_dec_string(*hour as u64)));
            },
        }
        proof {
            assert(out@.map_values(|p: (String, String)| (p.0@, p.1@)) =~= spec_query_params(
                *self,
                address@,
                api_key@,
            ));
        }
        out
    }

    /// Normalize the status and body the transport got for this call.
    ///
    /// `now` only serves as the final timestamp fallback of the
    /// current-conditions paths.
    pub fn normalize(&self, status: u16, body: &str, now: i64) -> (r: Result<
        WeatherResponse,
        WeatherError,
    >)
        ensures
            obs_result_matches(r, spec_normalize(*self, status, body@, now)),
            r matches Ok(o) ==> obs_wf(o@),
    {
        match self {
            UpstreamCall::OwCurrent => normalize_ow_current(status, body),
            UpstreamCall::OwForecast { target_epoch } => normalize_ow_forecast(
                status,
                body,
                *target_epoch,
            ),
            UpstreamCall::WaCurrent => normalize_wa_current(status, body, now),
            UpstreamCall::WaAt { target_epoch, forecast, .. } => normalize_wa_at(
                status,
                body,
                *target_epoch,
                *forecast,
            ),
        }
    }
}

/// What normalizing an exchange yields, by planned call.
pub open spec fn spec_normalize(call: UpstreamCall, status: u16, body: Seq<char>, now: i64) -> Result<
    crate::model::ObsV,
    ErrV,
> {
    match call {
        UpstreamCall::OwCurrent => spec_ow_current_response(status, body),
        UpstreamCall::OwForecast { target_epoch } => spec_ow_forecast_response(
            status,
            body,
            target_epoch,
        ),
        UpstreamCall::WaCurrent => spec_wa_current_response(status, body, now),
        UpstreamCall::WaAt { target_epoch, forecast, .. } => spec_wa_at_response(
            status,
            body,
            target_epoch,
            forecast,
        ),
    }
}

/// A resolved provider adapter: a closed set of two variants, each
/// holding its credential.
#[derive(Debug, Clone)]
pub enum WeatherProvider {
    OpenWeather(OpenWeatherProvider),
    WeatherApi(WeatherApiProvider),
}

/// Which upstream call a provider plans for a request, or why none can
/// be made.
pub open spec fn spec_plan_for(id: ProviderId, now: i64, when_epoch: Option<i64>) -> Result<
    UpstreamCall,
    ErrV,
> {
    match id {
        ProviderId::OpenWeather => spec_ow_plan(now, when_epoch),
        ProviderId::WeatherApi => spec_wa_plan(now, when_epoch),
    }
}

impl WeatherProvider {
    /// The identifier of this adapter's provider.
    pub open spec fn spec_id(&self) -> ProviderId {
        match self {
            WeatherProvider::OpenWeather(_) => ProviderId::OpenWeather,
            WeatherProvider::WeatherApi(_) => ProviderId::WeatherApi,
        }
    }

    /// The credential this adapter holds.
    pub open spec fn spec_api_key(&self) -> Seq<char> {
        match self {
            WeatherProvider::OpenWeather(p) => p.api_key@,
            WeatherProvider::WeatherApi(p) => p.api_key@,
        }
    }

    pub fn id(&self) -> (r: ProviderId)
        ensures
            r == self.spec_id(),
    {
        match self {
            WeatherProvider::OpenWeather(_) => ProviderId::OpenWeather,
            WeatherProvider::WeatherApi(_) => ProviderId::WeatherApi,
        }
    }

    pub fn api_key(&self) -> (r: &str)
        ensures
            r@ == self.spec_api_key(),
    {
        match self {
            WeatherProvider::OpenWeather(p) => p.api_key.as_str(),
            WeatherProvider::WeatherApi(p) => p.api_key.as_str(),
        }
    }

    /// Classify the request against `now` and plan the one upstream call,
    /// enforcing the provider's capability limits before any network
    /// activity.
    pub fn plan_fetch(&self, now: i64, request: &WeatherRequest) -> (r: Result<
        UpstreamCall,
        WeatherError,
    >)
        ensures
            result_matches(r, spec_plan_for(self.spec_id(), now, request@.when_epoch)),
    {
        match self {
            WeatherProvider::OpenWeather(p) => p.plan_fetch(now, request),
            WeatherProvider::WeatherApi(p) => p.plan_fetch(now, request),
        }
    }
}

/// Construct a provider adapter from the credential store and an explicit
/// identifier.
///
/// Succeeds exactly when an API key is stored for the provider, so a
/// missing credential fails before any network call could be planned.
pub fn provider_from_config(id: ProviderId, config: &Config) -> (r: Result<
    WeatherProvider,
    WeatherError,
>)
    ensures
        r is Ok <==> config@.providers.contains_key(spec_id_str(id)),
        r matches Ok(p) ==> p.spec_id() == id && p.spec_api_key() == config@.providers[spec_id_str(
            id,
        )],
        r matches Err(e) ==> e@ == (ErrV::MissingCredential { provider: id }),
{
    let api_key = match config.provider_api_key(id) {
        Some(k) => k.to_owned(),
        None => { return Err(WeatherError::MissingCredential { provider: id }) },
    };
    let built = match id {
        ProviderId::OpenWeather => WeatherProvider::OpenWeather(OpenWeatherProvider::new(api_key)),
        ProviderId::WeatherApi => WeatherProvider::WeatherApi(WeatherApiProvider::new(api_key)),
    };
    Ok(built)
}

/// Construct the default provider's adapter from the credential store.
///
/// Fails with `NoDefaultProvider` before any credential lookup when no
/// default is designated, with `UnknownProvider` when the designated name
/// parses to no known provider, and with `MissingCredential` when no API
/// key is stored for it.
pub fn default_provider_from_config(config: &Config) -> (r: Result<WeatherProvider, WeatherError>)
    ensures
        match config@.default_provider {
            None => r matches Err(e) && e@ == ErrV::NoDefaultProvider,
            Some(s) => match spec_parse_provider_id(s) {
                None => r matches Err(e) && e@ == (ErrV::UnknownProvider { input: s }),
                Some(id) => {
                    &&& (r is Ok <==> config@.providers.contains_key(spec_id_str(id)))
                    &&& (r matches Ok(p) ==> p.spec_id() == id && p.spec_api_key()
                        == config@.providers[spec_id_str(id)])
                    &&& (!config@.providers.contains_key(spec_id_str(id)) ==> (r matches Err(e)
                        && e@ == (ErrV::MissingCredential { provider: id })))
                },
            },
        },
{
    let id = match config.default_provider_id() {
        Ok(id) => id,
        Err(e) => { return Err(e) },
    };
    provider_from_config(id, config)
}

/// Parsing is the left inverse of rendering: the canonical name of every
/// provider parses back to that provider.
pub proof fn lemma_provider_id_round_trip(id: ProviderId)
    ensures
        spec_parse_provider_id(spec_id_str(id)) == Some(id),
{
    reveal_strlit("openweather");
    reveal_strlit("weatherapi");
    match id {
        ProviderId::OpenWeather => {
            assert(fold_eq("openweather"@, "openweather"@));
        },
        ProviderId::WeatherApi => {
            assert("openweather"@.len() == 11);
            assert("weatherapi"@.len() == 10);
            assert(fold_eq("weatherapi"@, "weatherapi"@));
        },
    }
}

/// Parsing is case-insensitive: two strings equal up to ASCII case parse
/// to the same result.
pub proof fn lemma_parse_case_insensitive(s1: Seq<char>, s2: Seq<char>)
    requires
        fold_eq(s1, s2),
    ensures
        spec_parse_provider_id(s1) == spec_parse_provider_id(s2),
{
    assert forall|t: Seq<char>| fold_eq(s1, t) == fold_eq(s2, t) by {
        if fold_eq(s1, t) {
            assert forall|i: int| 0 <= i < s2.len() implies crate::text::fold_cp(
                #[trigger] t[i] as u32 as int,
            ) == crate::text::fold_cp(s2[i] as u32 as int) by {
                assert(crate::text::fold_cp(s1[i] as u32 as int) == crate::text::fold_cp(
                    s2[i] as u32 as int,
                ));
            }
            assert(fold_eq(s2, t));
        }
        if fold_eq(s2, t) {
            assert forall|i: int| 0 <= i < s1.len() implies crate::text::fold_cp(
                #[trigger] t[i] as u32 as int,
            ) == crate::text::fold_cp(s1[i] as u32 as int) by {
                assert(crate::text::fold_cp(s1[i] as u32 as int) == crate::text::fold_cp(
                    s2[i] as u32 as int,
                ));
            }
            assert(fold_eq(s1, t));
        }
    }
}

} // verus!
