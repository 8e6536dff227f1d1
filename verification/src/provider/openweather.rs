//! The OpenWeather adapter.
//!
//! Capability limits of the free tier: no historical data at all, and a
//! forecast horizon of five days. A `Past` request and a `Future` request
//! beyond the horizon fail before any call is planned. Current conditions
//! come from a single-object endpoint; forecasts come as a 3-hour-step
//! series from which the entry nearest the target is selected locally.
//! Wind speeds arrive in metres per second already.

use crate::error::{CapabilityLimit, ErrV, WeatherError, result_matches};
use crate::json::{
    get_json_i64, get_json_milli, json_array_get, json_array_len, json_get, json_model, json_of,
    json_parse, json_str, jv_field, jv_i64, jv_milli, jv_str, Jv,
};
use crate::model::{obs_result_matches, obs_wf, ObsV, WeatherRequest, WeatherResponse};
use crate::provider::UpstreamCall;
use crate::series::{epochs_of, nearest_in, nearest_index, EntryV, ForecastEntry};
use crate::text::{spec_truncate_body, truncate_body};
use crate::time::{classify_date, DateRequest};
use vstd::prelude::*;

verus! {

/// The forecast horizon of the free tier: five days, in seconds.
pub const OW_FORECAST_HORIZON_SECS: i64 = 432000;

/// The OpenWeather adapter: the held credential. The HTTP transport is
/// the surrounding application's.
#[derive(Debug, Clone)]
pub struct OpenWeatherProvider {
    pub api_key: String,
}

/// The end of the forecast window: five days past `now`, saturating at
/// the representable maximum.
pub open spec fn spec_ow_max_epoch(now: i64) -> i64 {
    if now as int + OW_FORECAST_HORIZON_SECS as int <= i64::MAX as int {
        (now as int + OW_FORECAST_HORIZON_SECS as int) as i64
    } else {
        i64::MAX
    }
}

/// Which upstream call a request plans to, or why none can be made:
/// `None` means current conditions; a past instant is unsupported; a
/// future instant must lie within the five-day horizon.
pub open spec fn spec_ow_plan(now: i64, when_epoch: Option<i64>) -> Result<UpstreamCall, ErrV> {
    match when_epoch {
        None => Ok(UpstreamCall::OwCurrent),
        Some(t) => if t < now {
            Err(
                ErrV::Capability {
                    limit: CapabilityLimit::HistoryUnsupported { requested_epoch: t },
                },
            )
        } else if t as int - now as int <= OW_FORECAST_HORIZON_SECS as int {
            Ok(UpstreamCall::OwForecast { target_epoch: t })
        } else {
            Err(
                ErrV::Capability {
                    limit: CapabilityLimit::ForecastHorizon {
                        requested_epoch: t,
                        now_epoch: now,
                        max_epoch: spec_ow_max_epoch(now),
                    },
                },
            )
        },
    }
}

impl OpenWeatherProvider {
    pub fn new(api_key: String) -> (p: Self)
        ensures
            p.api_key == api_key,
    {
        Self { api_key }
    }

    /// Classify the request against `now` and plan the one upstream call,
    /// enforcing the capability limits before any network activity.
    pub fn plan_fetch(&self, now: i64, request: &WeatherRequest) -> (r: Result<
        UpstreamCall,
        WeatherError,
    >)
        ensures
            result_matches(r, spec_ow_plan(now, request@.when_epoch)),
    {
        match classify_date(now, request.when_epoch) {
            DateRequest::Current => Ok(UpstreamCall::OwCurrent),
            DateRequest::Past(t) => Err(
                WeatherError::Capability {
                    limit: CapabilityLimit::HistoryUnsupported { requested_epoch: t },
                },
            ),
            DateRequest::Future(t) => {
                if t as i128 - now as i128 <= OW_FORECAST_HORIZON_SECS as i128 {
                    Ok(UpstreamCall::OwForecast { target_epoch: t })
                } else {
                    let max_epoch: i64 = if now <= i64::MAX - OW_FORECAST_HORIZON_SECS {
                        now + OW_FORECAST_HORIZON_SECS
                    } else {
                        i64::MAX
                    };
                    Err(
                        WeatherError::Capability {
                            limit: CapabilityLimit::ForecastHorizon {
                                requested_epoch: t,
                                now_epoch: now,
                                max_epoch,
                            },
                        },
                    )
                }
            },
        }
    }
}

/// The condition text reported: the first description, else "Unknown".
pub open spec fn spec_condition_text(c: Option<Seq<char>>) -> Seq<char> {
    match c {
        Some(s) => s,
        None => "Unknown"@,
    }
}

/// The readings of an OpenWeather `main` object: temperature and
/// feels-like in milli-Celsius, and an integer humidity percentage.
pub open spec fn spec_ow_main(j: Jv) -> Option<(int, int, int)> {
    match (jv_field(j, "temp"@), jv_field(j, "feels_like"@), jv_field(j, "humidity"@)) {
        (Some(tj), Some(fj), Some(hj)) => match (jv_milli(tj), jv_milli(fj), jv_i64(hj)) {
            (Some(t), Some(f), Some(h)) => if 0 <= h <= 100 {
                Some((t, f, h))
            } else {
                None
            },
            _ => None,
        },
        _ => None,
    }
}

/// The condition of an OpenWeather `weather` list: absent on an empty
/// list, else the first entry's description.
pub open spec fn spec_ow_condition(j: Jv) -> Option<Option<Seq<char>>> {
    match j {
        Jv::Arr(a) => if a.len() == 0 {
            Some(None)
        } else {
            match jv_field(a[0], "description"@) {
                Some(d) => match jv_str(d) {
                    Some(s) => Some(Some(s)),
                    None => None,
                },
                None => None,
            }
        },
        _ => None,
    }
}

/// The wind speed of an OpenWeather `wind` object, already in
/// milli-metres-per-second.
pub open spec fn spec_ow_wind(j: Jv) -> Option<int> {
    match jv_field(j, "speed"@) {
        Some(sj) => jv_milli(sj),
        None => None,
    }
}

/// The normalized observation read from an OpenWeather current-conditions
/// document, when the document matches the schema.
pub open spec fn spec_ow_current_obs(j: Jv) -> Option<ObsV> {
    match (
        jv_field(j, "name"@),
        jv_field(j, "dt"@),
        jv_field(j, "main"@),
        jv_field(j, "weather"@),
        jv_field(j, "wind"@),
    ) {
        (Some(namej), Some(dtj), Some(mainj), Some(weatherj), Some(windj)) => match (
            jv_str(namej),
            jv_i64(dtj),
            spec_ow_main(mainj),
            spec_ow_condition(weatherj),
            spec_ow_wind(windj),
        ) {
            (Some(name), Some(dt), Some(m), Some(c), Some(w)) => Some(
                ObsV {
                    provider: "openweather"@,
                    location_name: name,
                    temperature_milli_c: m.0,
                    feels_like_milli_c: m.1,
                    condition: spec_condition_text(c),
                    humidity_pct: m.2,
                    wind_speed_milli_mps: w,
                    observation_time_epoch: dt,
                },
            ),
            _ => None,
        },
        _ => None,
    }
}

/// What normalizing an OpenWeather current-conditions exchange yields:
/// an upstream error on a non-2xx status, a decode error when the body is
/// not a document of the expected schema, else the observation.
pub open spec fn spec_ow_current_response(status: u16, body: Seq<char>) -> Result<ObsV, ErrV> {
    if !(200 <= status < 300) {
        Err(
            ErrV::Upstream {
                operation: "OpenWeather current"@,
                status,
                body_excerpt: spec_truncate_body(body),
            },
        )
    } else {
        match json_of(body) {
            None => Err(ErrV::Decode { detail: "Failed to parse OpenWeather current JSON"@ }),
            Some(j) => match spec_ow_current_obs(j) {
                None => Err(ErrV::Decode { detail: "Failed to parse OpenWeather current JSON"@ }),
                Some(o) => Ok(o),
            },
        }
    }
}

/// Read an OpenWeather `main` object.
fn get_ow_main(v: &serde_json::Value) -> (r: Option<(i64, i64, u8)>)
    ensures
        r is Some <==> spec_ow_main(json_model(*v)) is Some,
        r matches Some(m) ==> spec_ow_main(json_model(*v)) == Some(
            (m.0 as int, m.1 as int, m.2 as int),
        ),
{
    let tj = match json_get(v, "temp") {
        Some(x) => x,
        None => { return None },
    };
    let fj = match json_get(v, "feels_like") {
        Some(x) => x,
        None => { return None },
    };
    let hj = match json_get(v, "humidity") {
        Some(x) => x,
        None => { return None },
    };
    let t = match get_json_milli(tj) {
        Some(x) => x,
        None => { return None },
    };
    let f = match get_json_milli(fj) {
        Some(x) => x,
        None => { return None },
    };
    let h = match get_json_i64(hj) {
        Some(x) => x,
        None => { return None },
    };
    if h < 0 || h > 100 {
        return None;
    }
    Some((t, f, h as u8))
}

/// Read an OpenWeather `weather` list into its optional condition text.
fn get_ow_condition(v: &serde_json::Value) -> (r: Option<Option<String>>)
    ensures
        r is Some <==> spec_ow_condition(json_model(*v)) is Some,
        r matches Some(c) ==> spec_ow_condition(json_model(*v)) == Some(
            match c {
                Some(s) => Some(s@),
                None => None::<Seq<char>>,
            },
        ),
{
    let n = match json_array_len(v) {
        Some(n) => n,
        None => { return None },
    };
    if n == 0 {
        return Some(None);
    }
    let first = match json_array_get(v, 0) {
        Some(e) => e,
        None => { return None },
    };
    let dj = match json_get(first, "description") {
        Some(d) => d,
        None => { return None },
    };
    match json_str(dj) {
        Some(s) => Some(Some(s)),
        None => None,
    }
}

/// Read an OpenWeather `wind` object into milli-metres-per-second.
fn get_ow_wind(v: &serde_json::Value) -> (r: Option<i64>)
    ensures
        r is Some <==> spec_ow_wind(json_model(*v)) is Some,
        r matches Some(w) ==> spec_ow_wind(json_model(*v)) == Some(w as int),
{
    match json_get(v, "speed") {
        Some(sj) => get_json_milli(sj),
        None => None,
    }
}

/// Normalize an OpenWeather current-conditions exchange into the shared
/// response shape.
pub fn normalize_ow_current(status: u16, body: &str) -> (r: Result<WeatherResponse, WeatherError>)
    ensures
        obs_result_matches(r, spec_ow_current_response(status, body@)),
        r matches Ok(o) ==> obs_wf(o@),
{
    if !(200 <= status && status < 300) {
        return Err(
            WeatherError::Upstream {
                operation: String::from_str("OpenWeather current"),
                status,
                body_excerpt: truncate_body(body),
            },
        );
    }
    let parsed = match json_parse(body) {
        Ok(v) => v,
        Err(_) => {
            return Err(
                WeatherError::Decode {
                    detail: String::from_str("Failed to parse OpenWeather current JSON"),
                },
            )
        },
    };
    let decode_failure = WeatherError::Decode {
        detail: String::from_str("Failed to parse OpenWeather current JSON"),
    };
    let namej = match json_get(&parsed, "name") {
        Some(x) => x,
        None => { return Err(decode_failure) },
    };
    let dtj = match json_get(&parsed, "dt") {
        Some(x) => x,
        None => { return Err(decode_failure) },
    };
    let mainj = match json_get(&parsed, "main") {
        Some(x) => x,
        None => { return Err(decode_failure) },
    };
    let weatherj = match json_get(&parsed, "weather") {
        Some(x) => x,
        None => { return Err(decode_failure) },
    };
    let windj = match json_get(&parsed, "wind") {
        Some(x) => x,
        None => { return Err(decode_failure) },
    };
    let name = match json_str(namej) {
        Some(x) => x,
        None => { return Err(decode_failure) },
    };
    let dt = match get_json_i64(dtj) {
        Some(x) => x,
        None => { return Err(decode_failure) },
    };
    let main = match get_ow_main(mainj) {
        Some(x) => x,
        None => { return Err(decode_failure) },
    };
    let condition = match get_ow_condition(weatherj) {
        Some(x) => x,
        None => { return Err(decode_failure) },
    };
    let wind = match get_ow_wind(windj) {
        Some(x) => x,
        None => { return Err(decode_failure) },
    };
    let condition_text: String = match condition {
        Some(c) => c,
        None => String::from_str("Unknown"),
    };
    Ok(
        WeatherResponse {
            provider: String::from_str("openweather"),
            location_name: name,
            temperature_milli_c: main.0,
            feels_like_milli_c: main.1,
            condition: condition_text,
            humidity_pct: main.2,
            wind_speed_milli_mps: wind,
            observation_time_epoch: dt,
        },
    )
}

/// One entry of the forecast series, when it matches the schema.
pub open spec fn spec_ow_entry(j: Jv) -> Option<EntryV> {
    match (jv_field(j, "dt"@), jv_field(j, "main"@), jv_field(j, "weather"@), jv_field(j, "wind"@)) {
        (Some(dtj), Some(mainj), Some(weatherj), Some(windj)) => match (
            jv_i64(dtj),
            spec_ow_main(mainj),
            spec_ow_condition(weatherj),
            spec_ow_wind(windj),
        ) {
            (Some(dt), Some(m), Some(c), Some(w)) => Some(
                EntryV {
                    epoch: dt,
                    temperature_milli_c: m.0,
                    feels_like_milli_c: m.1,
                    humidity_pct: m.2,
                    condition: c,
                    wind_milli: w,
                },
            ),
            _ => None,
        },
        _ => None,
    }
}

/// The whole forecast series, when every entry matches the schema.
pub open spec fn spec_ow_entries(a: Seq<Jv>) -> Option<Seq<EntryV>>
    decreases a.len(),
{
    if a.len() == 0 {
        Some(Seq::empty())
    } else {
        match (spec_ow_entries(a.drop_last()), spec_ow_entry(a.last())) {
            (Some(s), Some(e)) => Some(s.push(e)),
            _ => None,
        }
    }
}

/// The display name synthesized from the forecast envelope's `city`
/// object: "{city name}, {country code}".
pub open spec fn spec_ow_city(j: Jv) -> Option<Seq<char>> {
    match (jv_field(j, "name"@), jv_field(j, "country"@)) {
        (Some(nj), Some(cj)) => match (jv_str(nj), jv_str(cj)) {
            (Some(n), Some(c)) => Some(n + ", "@ + c),
            _ => None,
        },
        _ => None,
    }
}

/// What normalizing an OpenWeather forecast exchange yields: an upstream
/// error on a non-2xx status, a decode error when the body does not match
/// the schema, a data error on an empty series, else the entry nearest
/// the target.
pub open spec fn spec_ow_forecast_response(status: u16, body: Seq<char>, target: i64) -> Result<
    ObsV,
    ErrV,
> {
    if !(200 <= status < 300) {
        Err(
            ErrV::Upstream {
                operation: "OpenWeather forecast"@,
                status,
                body_excerpt: spec_truncate_body(body),
            },
        )
    } else {
        match json_of(body) {
            None => Err(ErrV::Decode { detail: "Failed to parse OpenWeather forecast JSON"@ }),
            Some(j) => match (jv_field(j, "city"@), jv_field(j, "list"@)) {
                (Some(cityj), Some(listj)) => match (spec_ow_city(cityj), listj) {
                    (Some(loc), Jv::Arr(a)) => match spec_ow_entries(a) {
                        None => Err(
                            ErrV::Decode {
                                detail: "Failed to parse OpenWeather forecast JSON"@,
                            },
                        ),
                        Some(es) => if es.len() == 0 {
                            Err(
                                ErrV::Data {
                                    detail: "OpenWeather forecast response contained no data"@,
                                },
                            )
                        } else {
                            let e = es[nearest_in(epochs_of(es), target as int)];
                            Ok(
                                ObsV {
                                    provider: "openweather"@,
                                    location_name: loc,
                                    temperature_milli_c: e.temperature_milli_c,
                                    feels_like_milli_c: e.feels_like_milli_c,
                                    condition: spec_condition_text(e.condition),
                                    humidity_pct: e.humidity_pct,
                                    wind_speed_milli_mps: e.wind_milli,
                                    observation_time_epoch: e.epoch,
                                },
                            )
                        },
                    },
                    _ => Err(
                        ErrV::Decode { detail: "Failed to parse OpenWeather forecast JSON"@ },
                    ),
                },
                _ => Err(ErrV::Decode { detail: "Failed to parse OpenWeather forecast JSON"@ }),
            },
        }
    }
}

/// Read one forecast entry.
fn get_ow_entry(v: &serde_json::Value) -> (r: Option<ForecastEntry>)
    ensures
        r is Some <==> spec_ow_entry(json_model(*v)) is Some,
        r matches Some(e) ==> spec_ow_entry(json_model(*v)) == Some(e@),
{
    let dtj = match json_get(v, "dt") {
        Some(x) => x,
        None => { return None },
    };
    let mainj = match json_get(v, "main") {
        Some(x) => x,
        None => { return None },
    };
    let weatherj = match json_get(v, "weather") {
        Some(x) => x,
        None => { return None },
    };
    let windj = match json_get(v, "wind") {
        Some(x) => x,
        None => { return None },
    };
    let dt = match get_json_i64(dtj) {
        Some(x) => x,
        None => { return None },
    };
    let main = match get_ow_main(mainj) {
        Some(x) => x,
        None => { return None },
    };
    let condition = match get_ow_condition(weatherj) {
        Some(x) => x,
        None => { return None },
    };
    let wind = match get_ow_wind(windj) {
        Some(x) => x,
        None => { return None },
    };
    Some(
        ForecastEntry {
            epoch: dt,
            temperature_milli_c: main.0,
            feels_like_milli_c: main.1,
            humidity_pct: main.2,
            condition,
            wind_milli: wind,
        },
    )
}

/// Read the whole forecast series; fails when any entry fails.
fn parse_ow_entries(v: &serde_json::Value) -> (r: Option<Vec<ForecastEntry>>)
    ensures
        r is Some <==> (json_model(*v) matches Jv::Arr(a) && spec_ow_entries(a) is Some),
        r matches Some(out) ==> spec_ow_entries(json_model(*v)->Arr_0) == Some(
            out@.map_values(|e: ForecastEntry| e@),
        ),
{
    let n = match json_array_len(v) {
        Some(n) => n,
        None => { return None },
    };
    let ghost a = json_model(*v)->Arr_0;
    let mut out: Vec<ForecastEntry> = Vec::new();
    let mut i: usize = 0;
    proof {
        assert(a.subrange(0, 0) =~= Seq::<Jv>::empty());
        assert(out@.map_values(|e: ForecastEntry| e@) =~= Seq::<EntryV>::empty());
    }
    while i < n
        invariant
            i <= n,
            n == a.len(),
            json_model(*v) == Jv::Arr(a),
            spec_ow_entries(a.subrange(0, i as int)) == Some(
                out@.map_values(|e: ForecastEntry| e@),
            ),
        decreases n - i,
    {
        let ej = match json_array_get(v, i) {
            Some(x) => x,
            None => { return None },
        };
        let entry = match get_ow_entry(ej) {
            Some(x) => x,
            None => {
                proof {
                    lemma_ow_entries_bad(a, i as int);
                }
                return None
            },
        };
        proof {
            let pre = a.subrange(0, i as int);
            let cur = a.subrange(0, i as int + 1);
            assert(cur.drop_last() =~= pre);
            assert(cur.last() == a[i as int]);
        }
        let ghost prev = out@.map_values(|e: ForecastEntry| e@);
        let ghost pushed = entry@;
        out.push(entry);
        proof {
            assert(out@.map_values(|e: ForecastEntry| e@) =~= prev.push(pushed));
        }
        i = i + 1;
    }
    proof {
        assert(a.subrange(0, n as int) =~= a);
    }
    Some(out)
}

/// Every entry of a well-formed series carries a percentage humidity.
proof fn lemma_ow_entries_humidity(a: Seq<Jv>, es: Seq<EntryV>)
    requires
        spec_ow_entries(a) == Some(es),
    ensures
        forall|k: int| 0 <= k < es.len() ==> 0 <= (#[trigger] es[k]).humidity_pct <= 100,
    decreases a.len(),
{
    if a.len() > 0 {
        let prev = spec_ow_entries(a.drop_last()).unwrap();
        lemma_ow_entries_humidity(a.drop_last(), prev);
        assert(forall|k: int| 0 <= k < es.len() - 1 ==> es[k] == prev[k]);
    }
}

/// A malformed entry poisons the whole series.
proof fn lemma_ow_entries_bad(a: Seq<Jv>, i: int)
    requires
        0 <= i < a.len(),
        spec_ow_entry(a[i]) is None,
    ensures
        spec_ow_entries(a) is None,
    decreases a.len(),
{
    if a.len() > 0 {
        if i == a.len() - 1 {
        } else {
            lemma_ow_entries_bad(a.drop_last(), i);
        }
    }
}

/// Normalize an OpenWeather forecast exchange into the shared response
/// shape, selecting the entry nearest the target instant.
pub fn normalize_ow_forecast(status: u16, body: &str, target: i64) -> (r: Result<
    WeatherResponse,
    WeatherError,
>)
    ensures
        obs_result_matches(r, spec_ow_forecast_response(status, body@, target)),
        r matches Ok(o) ==> obs_wf(o@),
{
    if !(200 <= status && status < 300) {
        return Err(
            WeatherError::Upstream {
                operation: String::from_str("OpenWeather forecast"),
                status,
                body_excerpt: truncate_body(body),
            },
        );
    }
    let parsed = match json_parse(body) {
        Ok(v) => v,
        Err(_) => {
            return Err(
                WeatherError::Decode {
                    detail: String::from_str("Failed to parse OpenWeather forecast JSON"),
                },
            )
        },
    };
    let decode_failure = WeatherError::Decode {
        detail: String::from_str("Failed to parse OpenWeather forecast JSON"),
    };
    let cityj = match json_get(&parsed, "city") {
        Some(x) => x,
        None => { return Err(decode_failure) },
    };
    let listj = match json_get(&parsed, "list") {
        Some(x) => x,
        None => { return Err(decode_failure) },
    };
    let city_namej = match json_get(cityj, "name") {
        Some(x) => x,
        None => { return Err(decode_failure) },
    };
    let city_countryj = match json_get(cityj, "country") {
        Some(x) => x,
        None => { return Err(decode_failure) },
    };
    let city_name = match json_str(city_namej) {
        Some(x) => x,
        None => { return Err(decode_failure) },
    };
    let city_country = match json_str(city_countryj) {
        Some(x) => x,
        None => { return Err(decode_failure) },
    };
    let entries = match parse_ow_entries(listj) {
        Some(x) => x,
        None => { return Err(decode_failure) },
    };
    let chosen = match nearest_index(&entries, target) {
        Some(j) => j,
        None => {
            return Err(
                WeatherError::Data {
                    detail: String::from_str("OpenWeather forecast response contained no data"),
                },
            )
        },
    };
    let entry = &entries[chosen];
    let condition_text: String = match &entry.condition {
        Some(c) => c.clone(),
        None => String::from_str("Unknown"),
    };
    let location_name = city_name.concat(", ").concat(city_country.as_str());
    proof {
        let es = entries@.map_values(|e: ForecastEntry| e@);
        assert(es[chosen as int] == entry@);
        lemma_ow_entries_humidity(json_model(*listj)->Arr_0, es);
        assert(location_name@ =~= spec_ow_city(
            jv_field(json_of(body@).unwrap(), "city"@).unwrap(),
        ).unwrap());
    }
    Ok(
        WeatherResponse {
            provider: String::from_str("openweather"),
            location_name,
            temperature_milli_c: entry.temperature_milli_c,
            feels_like_milli_c: entry.feels_like_milli_c,
            condition: condition_text,
            humidity_pct: entry.humidity_pct,
            wind_speed_milli_mps: entry.wind_milli,
            observation_time_epoch: entry.epoch,
        },
    )
}

} // verus!
