//! The WeatherAPI.com adapter.
//!
//! No capability limits: current, forecast and history are served
//! uniformly. Forecast and history both take the target instant and its
//! hour of day; the upstream narrows its answer to one day's hourly
//! series, from which the entry nearest the target is selected locally.
//! Wind speeds arrive in kilometres per hour and are converted to metres
//! per second.

use crate::error::{ErrV, WeatherError, result_matches};
use crate::json::{
    get_json_i64, get_json_milli, json_array_get, json_array_len, json_get, json_is_null,
    json_model, json_of, json_parse, json_str, jv_field, jv_i64, jv_milli, jv_str, Jv,
};
use crate::model::{obs_result_matches, obs_wf, ObsV, WeatherRequest, WeatherResponse};
use crate::numeric::{kph_milli_to_mps_milli, spec_kph_to_mps_milli};
use crate::provider::UpstreamCall;
use crate::series::{epochs_of, nearest_in, nearest_index, EntryV, ForecastEntry};
use crate::text::{spec_truncate_body, truncate_body};
use crate::time::{classify_date, hour_of_day, spec_hour_of_day, DateRequest};
use vstd::prelude::*;

verus! {

/// The WeatherAPI.com adapter: the held credential. The HTTP transport
/// is the surrounding application's.
#[derive(Debug, Clone)]
pub struct WeatherApiProvider {
    pub api_key: String,
}

/// Which upstream call a request plans to: current conditions when no
/// instant was given, history for a past instant, forecast otherwise;
/// never a capability error.
pub open spec fn spec_wa_plan(now: i64, when_epoch: Option<i64>) -> Result<UpstreamCall, ErrV> {
    match when_epoch {
        None => Ok(UpstreamCall::WaCurrent),
        Some(t) => Ok(
            UpstreamCall::WaAt {
                target_epoch: t,
                hour: spec_hour_of_day(t as int) as u8,
                forecast: t >= now,
            },
        ),
    }
}

impl WeatherApiProvider {
    pub fn new(api_key: String) -> (p: Self)
        ensures
            p.api_key == api_key,
    {
        Self { api_key }
    }

    /// Classify the request against `now` and plan the one upstream call.
    pub fn plan_fetch(&self, now: i64, request: &WeatherRequest) -> (r: Result<
        UpstreamCall,
        WeatherError,
    >)
        ensures
            result_matches(r, spec_wa_plan(now, request@.when_epoch)),
    {
        match classify_date(now, request.when_epoch) {
            DateRequest::Current => Ok(UpstreamCall::WaCurrent),
            DateRequest::Future(t) => Ok(
                UpstreamCall::WaAt { target_epoch: t, hour: hour_of_day(t), forecast: true },
            ),
            DateRequest::Past(t) => Ok(
                UpstreamCall::WaAt { target_epoch: t, hour: hour_of_day(t), forecast: false },
            ),
        }
    }
}

/// An optional epoch field: absent or null means none; a present value
/// must be an integer.
pub open spec fn spec_wa_opt_epoch(j: Jv, key: Seq<char>) -> Option<Option<int>> {
    match jv_field(j, key) {
        None => Some(None),
        Some(fj) => match fj {
            Jv::Null => Some(None),
            _ => match jv_i64(fj) {
                Some(v) => Some(Some(v)),
                None => None,
            },
        },
    }
}

/// The display name synthesized from the `location` object:
/// "{name}, {country}".
pub open spec fn spec_wa_location_name(j: Jv) -> Option<Seq<char>> {
    match (jv_field(j, "name"@), jv_field(j, "country"@)) {
        (Some(nj), Some(cj)) => match (jv_str(nj), jv_str(cj)) {
            (Some(n), Some(c)) => Some(n + ", "@ + c),
            _ => None,
        },
        _ => None,
    }
}

/// The condition text of a `condition` object: its `text` field.
pub open spec fn spec_wa_condition(j: Jv) -> Option<Seq<char>> {
    match jv_field(j, "text"@) {
        Some(tj) => jv_str(tj),
        None => None,
    }
}

/// The normalized observation read from a WeatherAPI current-conditions
/// document, when the document matches the schema. The observation
/// timestamp prefers the `last_updated_epoch` field, falls back to the
/// location's `localtime_epoch`, and finally to call-time `now`.
pub open spec fn spec_wa_current_obs(j: Jv, now: i64) -> Option<ObsV> {
    match (jv_field(j, "location"@), jv_field(j, "current"@)) {
        (Some(locj), Some(curj)) => match (
            spec_wa_location_name(locj),
            spec_wa_opt_epoch(locj, "localtime_epoch"@),
            jv_field(curj, "temp_c"@),
            jv_field(curj, "feelslike_c"@),
            jv_field(curj, "humidity"@),
            jv_field(curj, "wind_kph"@),
            jv_field(curj, "condition"@),
            spec_wa_opt_epoch(curj, "last_updated_epoch"@),
        ) {
            (
                Some(loc),
                Some(localtime),
                Some(tj),
                Some(fj),
                Some(hj),
                Some(wj),
                Some(cj),
                Some(last_updated),
            ) => match (jv_milli(tj), jv_milli(fj), jv_i64(hj), jv_milli(wj), spec_wa_condition(cj)) {
                (Some(t), Some(f), Some(h), Some(w), Some(c)) => if 0 <= h <= 100 {
                    Some(
                        ObsV {
                            provider: "weatherapi"@,
                            location_name: loc,
                            temperature_milli_c: t,
                            feels_like_milli_c: f,
                            condition: c,
                            humidity_pct: h,
                            wind_speed_milli_mps: spec_kph_to_mps_milli(w),
                            observation_time_epoch: match last_updated {
                                Some(v) => v,
                                None => match localtime {
                                    Some(v) => v,
                                    None => now as int,
                                },
                            },
                        },
                    )
                } else {
                    None
                },
                _ => None,
            },
            _ => None,
        },
        _ => None,
    }
}

/// What normalizing a WeatherAPI current-conditions exchange yields.
pub open spec fn spec_wa_current_response(status: u16, body: Seq<char>, now: i64) -> Result<
    ObsV,
    ErrV,
> {
    if !(200 <= status < 300) {
        Err(
            ErrV::Upstream {
                operation: "WeatherAPI current"@,
                status,
                body_excerpt: spec_truncate_body(body),
            },
        )
    } else {
        match json_of(body) {
            None => Err(ErrV::Decode { detail: "Failed to parse WeatherAPI current JSON"@ }),
            Some(j) => match spec_wa_current_obs(j, now) {
                None => Err(ErrV::Decode { detail: "Failed to parse WeatherAPI current JSON"@ }),
                Some(o) => Ok(o),
            },
        }
    }
}

/// Read an optional epoch field.
fn get_wa_opt_epoch(v: &serde_json::Value, key: &str) -> (r: Option<Option<i64>>)
    ensures
        r is Some <==> spec_wa_opt_epoch(json_model(*v), key@) is Some,
        r matches Some(o) ==> spec_wa_opt_epoch(json_model(*v), key@) == Some(
            match o {
                Some(n) => Some(n as int),
                None => None::<int>,
            },
        ),
{
    match json_get(v, key) {
        None => Some(None),
        Some(fj) => {
            if json_is_null(fj) {
                Some(None)
            } else {
                match get_json_i64(fj) {
                    Some(n) => Some(Some(n)),
                    None => None,
                }
            }
        },
    }
}

/// Read the display name from a `location` object.
fn get_wa_location_name(v: &serde_json::Value) -> (r: Option<String>)
    ensures
        r is Some <==> spec_wa_location_name(json_model(*v)) is Some,
        r matches Some(s) ==> spec_wa_location_name(json_model(*v)) == Some(s@),
{
    let nj = match json_get(v, "name") {
        Some(x) => x,
        None => { return None },
    };
    let cj = match json_get(v, "country") {
        Some(x) => x,
        None => { return None },
    };
    let n = match json_str(nj) {
        Some(x) => x,
        None => { return None },
    };
    let c = match json_str(cj) {
        Some(x) => x,
        None => { return None },
    };
    let joined = n.concat(", ").concat(c.as_str());
    proof {
        assert(joined@ =~= spec_wa_location_name(json_model(*v)).unwrap());
    }
    Some(joined)
}

/// Read the text of a `condition` object.
fn get_wa_condition(v: &serde_json::Value) -> (r: Option<String>)
    ensures
        r is Some <==> spec_wa_condition(json_model(*v)) is Some,
        r matches Some(s) ==> spec_wa_condition(json_model(*v)) == Some(s@),
{
    match json_get(v, "text") {
        Some(tj) => json_str(tj),
        None => None,
    }
}

/// Normalize a WeatherAPI current-conditions exchange into the shared
/// response shape.
pub fn normalize_wa_current(status: u16, body: &str, now: i64) -> (r: Result<
    WeatherResponse,
    WeatherError,
>)
    ensures
        obs_result_matches(r, spec_wa_current_response(status, body@, now)),
        r matches Ok(o) ==> obs_wf(o@),
{
    if !(200 <= status && status < 300) {
        return Err(
            WeatherError::Upstream {
                operation: String::from_str("WeatherAPI current"),
                status,
                body_excerpt: truncate_body(body),
            },
        );
    }
    let parsed = match json_parse(body) {
        Ok(v) => v,
        Err(_) => {
            return Err(
                WeatherError::Decode {
                    detail: String::from_str("Failed to parse WeatherAPI current JSON"),
                },
            )
        },
    };
    let decode_failure = WeatherError::Decode {
        detail: String::from_str("Failed to parse WeatherAPI current JSON"),
    };
    let locj = match json_get(&parsed, "location") {
        Some(x) => x,
        None => { return Err(decode_failure) },
    };
    let curj = match json_get(&parsed, "current") {
        Some(x) => x,
        None => { return Err(decode_failure) },
    };
    let location_name = match get_wa_location_name(locj) {
        Some(x) => x,
        None => { return Err(decode_failure) },
    };
    let localtime = match get_wa_opt_epoch(locj, "localtime_epoch") {
        Some(x) => x,
        None => { return Err(decode_failure) },
    };
    let tj = match json_get(curj, "temp_c") {
        Some(x) => x,
        None => { return Err(decode_failure) },
    };
    let fj = match json_get(curj, "feelslike_c") {
        Some(x) => x,
        None => { return Err(decode_failure) },
    };
    let hj = match json_get(curj, "humidity") {
        Some(x) => x,
        None => { return Err(decode_failure) },
    };
    let wj = match json_get(curj, "wind_kph") {
        Some(x) => x,
        None => { return Err(decode_failure) },
    };
    let cj = match json_get(curj, "condition") {
        Some(x) => x,
        None => { return Err(decode_failure) },
    };
    let last_updated = match get_wa_opt_epoch(curj, "last_updated_epoch") {
        Some(x) => x,
        None => { return Err(decode_failure) },
    };
    let temp = match get_json_milli(tj) {
        Some(x) => x,
        None => { return Err(decode_failure) },
    };
    let feels = match get_json_milli(fj) {
        Some(x) => x,
        None => { return Err(decode_failure) },
    };
    let humidity = match get_json_i64(hj) {
        Some(x) => x,
        None => { return Err(decode_failure) },
    };
    let wind_kph = match get_json_milli(wj) {
        Some(x) => x,
        None => { return Err(decode_failure) },
    };
    let condition = match get_wa_condition(cj) {
        Some(x) => x,
        None => { return Err(decode_failure) },
    };
    if humidity < 0 || humidity > 100 {
        return Err(decode_failure);
    }
    let observation_time_epoch: i64 = match last_updated {
        Some(v) => v,
        None => match localtime {
            Some(v) => v,
            None => now,
        },
    };
    let wind_speed_milli_mps = kph_milli_to_mps_milli(wind_kph);
    Ok(
        WeatherResponse {
            provider: String::from_str("weatherapi"),
            location_name,
            temperature_milli_c: temp,
            feels_like_milli_c: feels,
            condition,
            humidity_pct: humidity as u8,
            wind_speed_milli_mps,
            observation_time_epoch,
        },
    )
}

/// One hourly entry of a forecast or history day, when it matches the
/// schema. The wind reading stays in milli-km/h here; it is converted at
/// selection.
pub open spec fn spec_wa_entry(j: Jv) -> Option<EntryV> {
    match (
        jv_field(j, "time_epoch"@),
        jv_field(j, "temp_c"@),
        jv_field(j, "feelslike_c"@),
        jv_field(j, "humidity"@),
        jv_field(j, "wind_kph"@),
        jv_field(j, "condition"@),
    ) {
        (Some(ej), Some(tj), Some(fj), Some(hj), Some(wj), Some(cj)) => match (
            jv_i64(ej),
            jv_milli(tj),
            jv_milli(fj),
            jv_i64(hj),
            jv_milli(wj),
            spec_wa_condition(cj),
        ) {
            (Some(e), Some(t), Some(f), Some(h), Some(w), Some(c)) => if 0 <= h <= 100 {
                Some(
                    EntryV {
                        epoch: e,
                        temperature_milli_c: t,
                        feels_like_milli_c: f,
                        humidity_pct: h,
                        condition: Some(c),
                        wind_milli: w,
                    },
                )
            } else {
                None
            },
            _ => None,
        },
        _ => None,
    }
}

/// The whole hourly series, when every entry matches the schema.
pub open spec fn spec_wa_entries(a: Seq<Jv>) -> Option<Seq<EntryV>>
    decreases a.len(),
{
    if a.len() == 0 {
        Some(Seq::empty())
    } else {
        match (spec_wa_entries(a.drop_last()), spec_wa_entry(a.last())) {
            (Some(s), Some(e)) => Some(s.push(e)),
            _ => None,
        }
    }
}

/// The operation name of a narrowed query, for error messages.
pub open spec fn spec_wa_at_operation(forecast: bool) -> Seq<char> {
    if forecast {
        "WeatherAPI forecast"@
    } else {
        "WeatherAPI history"@
    }
}

/// The decode-failure message of a narrowed query.
pub open spec fn spec_wa_at_decode_detail(forecast: bool) -> Seq<char> {
    if forecast {
        "Failed to parse WeatherAPI forecast JSON"@
    } else {
        "Failed to parse WeatherAPI history JSON"@
    }
}

/// What normalizing a WeatherAPI forecast or history exchange yields: an
/// upstream error on a non-2xx status, a decode error when the body does
/// not match the schema, a data error when the day list or the hourly
/// list is empty, else the hourly entry nearest the target with its wind
/// converted to metres per second.
pub open spec fn spec_wa_at_response(
    status: u16,
    body: Seq<char>,
    target: i64,
    forecast: bool,
) -> Result<ObsV, ErrV> {
    if !(200 <= status < 300) {
        Err(
            ErrV::Upstream {
                operation: spec_wa_at_operation(forecast),
                status,
                body_excerpt: spec_truncate_body(body),
            },
        )
    } else {
        match json_of(body) {
            None => Err(ErrV::Decode { detail: spec_wa_at_decode_detail(forecast) }),
            Some(j) => match (jv_field(j, "location"@), jv_field(j, "forecast"@)) {
                (Some(locj), Some(fj)) => match (
                    spec_wa_location_name(locj),
                    jv_field(fj, "forecastday"@),
                ) {
                    (Some(loc), Some(daysj)) => match daysj {
                        Jv::Arr(days) => if days.len() == 0 {
                            Err(
                                ErrV::Data {
                                    detail: "WeatherAPI response contained no forecastday data"@,
                                },
                            )
                        } else {
                            match jv_field(days[0], "hour"@) {
                                Some(Jv::Arr(hours)) => match spec_wa_entries(hours) {
                                    None => Err(
                                        ErrV::Decode { detail: spec_wa_at_decode_detail(forecast) },
                                    ),
                                    Some(es) => if es.len() == 0 {
                                        Err(
                                            ErrV::Data {
                                                detail: "WeatherAPI response contained no hourly data"@,
                                            },
                                        )
                                    } else {
                                        let e = es[nearest_in(epochs_of(es), target as int)];
                                        Ok(
                                            ObsV {
                                                provider: "weatherapi"@,
                                                location_name: loc,
                                                temperature_milli_c: e.temperature_milli_c,
                                                feels_like_milli_c: e.feels_like_milli_c,
                                                condition: match e.condition {
                                                    Some(c) => c,
                                                    None => ""@,
                                                },
                                                humidity_pct: e.humidity_pct,
                                                wind_speed_milli_mps: spec_kph_to_mps_milli(
                                                    e.wind_milli,
                                                ),
                                                observation_time_epoch: e.epoch,
                                            },
                                        )
                                    },
                                },
                                _ => Err(
                                    ErrV::Decode { detail: spec_wa_at_decode_detail(forecast) },
                                ),
                            }
                        },
                        _ => Err(ErrV::Decode { detail: spec_wa_at_decode_detail(forecast) }),
                    },
                    _ => Err(ErrV::Decode { detail: spec_wa_at_decode_detail(forecast) }),
                },
                _ => Err(ErrV::Decode { detail: spec_wa_at_decode_detail(forecast) }),
            },
        }
    }
}

/// Read one hourly entry.
fn get_wa_entry(v: &serde_json::Value) -> (r: Option<ForecastEntry>)
    ensures
        r is Some <==> spec_wa_entry(json_model(*v)) is Some,
        r matches Some(e) ==> spec_wa_entry(json_model(*v)) == Some(e@),
{
    let ej = match json_get(v, "time_epoch") {
        Some(x) => x,
        None => { return None },
    };
    let tj = match json_get(v, "temp_c") {
        Some(x) => x,
        None => { return None },
    };
    let fj = match json_get(v, "feelslike_c") {
        Some(x) => x,
        None => { return None },
    };
    let hj = match json_get(v, "humidity") {
        Some(x) => x,
        None => { return None },
    };
    let wj = match json_get(v, "wind_kph") {
        Some(x) => x,
        None => { return None },
    };
    let cj = match json_get(v, "condition") {
        Some(x) => x,
        None => { return None },
    };
    let epoch = match get_json_i64(ej) {
        Some(x) => x,
        None => { return None },
    };
    let temp = match get_json_milli(tj) {
        Some(x) => x,
        None => { return None },
    };
    let feels = match get_json_milli(fj) {
        Some(x) => x,
        None => { return None },
    };
    let humidity = match get_json_i64(hj) {
        Some(x) => x,
        None => { return None },
    };
    let wind_kph = match get_json_milli(wj) {
        Some(x) => x,
        None => { return None },
    };
    let condition = match get_wa_condition(cj) {
        Some(x) => x,
        None => { return None },
    };
    if humidity < 0 || humidity > 100 {
        return None;
    }
    Some(
        ForecastEntry {
            epoch,
            temperature_milli_c: temp,
            feels_like_milli_c: feels,
            humidity_pct: humidity as u8,
            condition: Some(condition),
            wind_milli: wind_kph,
        },
    )
}

/// Read the whole hourly series; fails when any entry fails.
fn parse_wa_entries(v: &serde_json::Value) -> (r: Option<Vec<ForecastEntry>>)
    ensures
        r is Some <==> (json_model(*v) matches Jv::Arr(a) && spec_wa_entries(a) is Some),
        r matches Some(out) ==> spec_wa_entries(json_model(*v)->Arr_0) == Some(
            out@.map_values(|e: ForecastEntry| e@),
        ),
{
    let n = match json_array_len(v) {
        Some(n) => n,
        None => { return None },
    };
    let ghost a = json_model(*v)->Arr_0;
    let mut out: Vec<ForecastEntry> = Vec::new();
    let mut i: usize = 0;
    proof {
        assert(a.subrange(0, 0) =~= Seq::<Jv>::empty());
        assert(out@.map_values(|e: ForecastEntry| e@) =~= Seq::<EntryV>::empty());
    }
    while i < n
        invariant
            i <= n,
            n == a.len(),
            json_model(*v) == Jv::Arr(a),
            spec_wa_entries(a.subrange(0, i as int)) == Some(
                out@.map_values(|e: ForecastEntry| e@),
            ),
        decreases n - i,
    {
        let ej = match json_array_get(v, i) {
            Some(x) => x,
            None => { return None },
        };
        let entry = match get_wa_entry(ej) {
            Some(x) => x,
            None => {
                proof {
                    lemma_wa_entries_bad(a, i as int);
                }
                return None
            },
        };
        proof {
            let pre = a.subrange(0, i as int);
            let cur = a.subrange(0, i as int + 1);
            assert(cur.drop_last() =~= pre);
            assert(cur.last() == a[i as int]);
        }
        let ghost prev = out@.map_values(|e: ForecastEntry| e@);
        let ghost pushed = entry@;
        out.push(entry);
        proof {
            assert(out@.map_values(|e: ForecastEntry| e@) =~= prev.push(pushed));
        }
        i = i + 1;
    }
    proof {
        assert(a.subrange(0, n as int) =~= a);
    }
    Some(out)
}

/// Every entry of a well-formed series carries a percentage humidity.
proof fn lemma_wa_entries_humidity(a: Seq<Jv>, es: Seq<EntryV>)
    requires
        spec_wa_entries(a) == Some(es),
    ensures
        forall|k: int| 0 <= k < es.len() ==> 0 <= (#[trigger] es[k]).humidity_pct <= 100,
    decreases a.len(),
{
    if a.len() > 0 {
        let prev = spec_wa_entries(a.drop_last()).unwrap();
        lemma_wa_entries_humidity(a.drop_last(), prev);
        assert(forall|k: int| 0 <= k < es.len() - 1 ==> es[k] == prev[k]);
    }
}

/// A malformed entry poisons the whole series.
proof fn lemma_wa_entries_bad(a: Seq<Jv>, i: int)
    requires
        0 <= i < a.len(),
        spec_wa_entry(a[i]) is None,
    ensures
        spec_wa_entries(a) is None,
    decreases a.len(),
{
    if a.len() > 0 {
        if i == a.len() - 1 {
        } else {
            lemma_wa_entries_bad(a.drop_last(), i);
        }
    }
}

/// Normalize a WeatherAPI forecast or history exchange into the shared
/// response shape, selecting the hourly entry nearest the target instant.
pub fn normalize_wa_at(status: u16, body: &str, target: i64, forecast: bool) -> (r: Result<
    WeatherResponse,
    WeatherError,
>)
    ensures
        obs_result_matches(r, spec_wa_at_response(status, body@, target, forecast)),
        r matches Ok(o) ==> obs_wf(o@),
{
    if !(200 <= status && status < 300) {
        let operation = if forecast {
            String::from_str("WeatherAPI forecast")
        } else {
            String::from_str("WeatherAPI history")
        };
        return Err(
            WeatherError::Upstream { operation, status, body_excerpt: truncate_body(body) },
        );
    }
    let decode_detail = if forecast {
        String::from_str("Failed to parse WeatherAPI forecast JSON")
    } else {
        String::from_str("Failed to parse WeatherAPI history JSON")
    };
    let parsed = match json_parse(body) {
        Ok(v) => v,
        Err(_) => { return Err(WeatherError::Decode { detail: decode_detail }) },
    };
    let locj = match json_get(&parsed, "location") {
        Some(x) => x,
        None => { return Err(WeatherError::Decode { detail: decode_detail }) },
    };
    let fj = match json_get(&parsed, "forecast") {
        Some(x) => x,
        None => { return Err(WeatherError::Decode { detail: decode_detail }) },
    };
    let location_name = match get_wa_location_name(locj) {
        Some(x) => x,
        None => { return Err(WeatherError::Decode { detail: decode_detail }) },
    };
    let daysj = match json_get(fj, "forecastday") {
        Some(x) => x,
        None => { return Err(WeatherError::Decode { detail: decode_detail }) },
    };
    let days_len = match json_array_len(daysj) {
        Some(n) => n,
        None => { return Err(WeatherError::Decode { detail: decode_detail }) },
    };
    if days_len == 0 {
        return Err(
            WeatherError::Data {
                detail: String::from_str("WeatherAPI response contained no forecastday data"),
            },
        );
    }
    let day0 = match json_array_get(daysj, 0) {
        Some(x) => x,
        None => { return Err(WeatherError::Decode { detail: decode_detail }) },
    };
    let hoursj = match json_get(day0, "hour") {
        Some(x) => x,
        None => { return Err(WeatherError::Decode { detail: decode_detail }) },
    };
    let entries = match parse_wa_entries(hoursj) {
        Some(x) => x,
        None => { return Err(WeatherError::Decode { detail: decode_detail }) },
    };
    let chosen = match nearest_index(&entries, target) {
        Some(j) => j,
        None => {
            return Err(
                WeatherError::Data {
                    detail: String::from_str("WeatherAPI response contained no hourly data"),
                },
            )
        },
    };
    let entry = &entries[chosen];
    let condition_text: String = match &entry.condition {
        Some(c) => c.clone(),
        None => {
            let empty = String::new();
            proof {
                reveal_strlit("");
                assert(empty@ =~= ""@);
            }
            empty
        },
    };
    let wind_speed_milli_mps = kph_milli_to_mps_milli(entry.wind_milli);
    proof {
        let es = entries@.map_values(|e: ForecastEntry| e@);
        assert(es[chosen as int] == entry@);
        lemma_wa_entries_humidity(json_model(*hoursj)->Arr_0, es);
    }
    Ok(
        WeatherResponse {
            provider: String::from_str("weatherapi"),
            location_name,
            temperature_milli_c: entry.temperature_milli_c,
            feels_like_milli_c: entry.feels_like_milli_c,
            condition: condition_text,
            humidity_pct: entry.humidity_pct,
            wind_speed_milli_mps,
            observation_time_epoch: entry.epoch,
        },
    )
}

} // verus!
