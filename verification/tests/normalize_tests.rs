//! End-to-end normalization tests: provider JSON in, normalized
//! observation out.

use weather_core::series::{nearest_index, ForecastEntry};
use weather_core::{UpstreamCall, WeatherError};

const NOW: i64 = 1741608000;

fn entry(epoch: i64) -> ForecastEntry {
    ForecastEntry {
        epoch,
        temperature_milli_c: 0,
        feels_like_milli_c: 0,
        humidity_pct: 50,
        condition: None,
        wind_milli: 0,
    }
}

#[test]
fn nearest_prefers_minimum_absolute_difference() {
    let entries = vec![entry(100), entry(300), entry(700)];
    let chosen = nearest_index(&entries, 250).unwrap();
    assert_eq!(entries[chosen].epoch, 300);
}

#[test]
fn nearest_breaks_ties_toward_the_earliest_entry() {
    let entries = vec![entry(100), entry(400)];
    let chosen = nearest_index(&entries, 250).unwrap();
    assert_eq!(chosen, 0);

    assert!(nearest_index(&Vec::new(), 250).is_none());
}

#[test]
fn openweather_current_normalizes_the_documented_payload() {
    let body = r#"{"name":"Kyiv","dt":1700000000,"main":{"temp":5.0,"feels_like":2.0,"humidity":80},"weather":[{"description":"clear sky"}],"wind":{"speed":3.0}}"#;
    let obs = UpstreamCall::OwCurrent.normalize(200, body, NOW).unwrap();

    assert_eq!(obs.provider, "openweather");
    assert_eq!(obs.location_name, "Kyiv");
    assert_eq!(obs.temperature_milli_c, 5000);
    assert_eq!(obs.feels_like_milli_c, 2000);
    assert_eq!(obs.condition, "clear sky");
    assert_eq!(obs.humidity_pct, 80);
    assert_eq!(obs.wind_speed_milli_mps, 3000);
    assert_eq!(obs.observation_time_epoch, 1700000000);
}

#[test]
fn openweather_current_reports_unknown_condition_on_empty_list() {
    let body = r#"{"name":"Kyiv","dt":1700000000,"main":{"temp":5.0,"feels_like":2.0,"humidity":80},"weather":[],"wind":{"speed":3.0}}"#;
    let obs = UpstreamCall::OwCurrent.normalize(200, body, NOW).unwrap();
    assert_eq!(obs.condition, "Unknown");
}

#[test]
fn openweather_forecast_selects_nearest_entry_and_city_name() {
    let body = r#"{"city":{"name":"Kyiv","country":"UA"},"list":[{"dt":100,"main":{"temp":1.0,"feels_like":1.0,"humidity":10},"weather":[{"description":"a"}],"wind":{"speed":1.0}},{"dt":300,"main":{"temp":2.5,"feels_like":2.0,"humidity":20},"weather":[{"description":"b"}],"wind":{"speed":2.0}},{"dt":700,"main":{"temp":3.0,"feels_like":3.0,"humidity":30},"weather":[{"description":"c"}],"wind":{"speed":3.0}}]}"#;
    let call = UpstreamCall::OwForecast { target_epoch: 250 };
    let obs = call.normalize(200, body, NOW).unwrap();

    assert_eq!(obs.observation_time_epoch, 300);
    assert_eq!(obs.temperature_milli_c, 2500);
    assert_eq!(obs.condition, "b");
    assert_eq!(obs.location_name, "Kyiv, UA");
}

#[test]
fn openweather_forecast_fails_on_empty_series() {
    let body = "{\"city\":{\"name\":\"Kyiv\",\"country\":\"UA\"},\"list\":[]}";
    let call = UpstreamCall::OwForecast { target_epoch: 250 };
    let err = call.normalize(200, body, NOW).unwrap_err();
    match err {
        WeatherError::Data { detail } => {
            assert_eq!(detail, "OpenWeather forecast response contained no data")
        }
        other => panic!("expected a data error, got {other:?}"),
    }
}

#[test]
fn weatherapi_current_converts_wind_from_kph() {
    let body = r#"{"location":{"name":"Kyiv","country":"Ukraine","localtime_epoch":1700000100},"current":{"temp_c":7.5,"feelslike_c":6.0,"humidity":65,"wind_kph":36.0,"condition":{"text":"Sunny"},"last_updated_epoch":1700000000}}"#;
    let obs = UpstreamCall::WaCurrent.normalize(200, body, NOW).unwrap();

    assert_eq!(obs.provider, "weatherapi");
    assert_eq!(obs.location_name, "Kyiv, Ukraine");
    assert_eq!(obs.temperature_milli_c, 7500);
    assert_eq!(obs.feels_like_milli_c, 6000);
    assert_eq!(obs.humidity_pct, 65);
    assert_eq!(obs.condition, "Sunny");
    // 36 km/h is exactly 10 m/s
    assert_eq!(obs.wind_speed_milli_mps, 10000);
    assert_eq!(obs.observation_time_epoch, 1700000000);
}

#[test]
fn weatherapi_current_timestamp_falls_back_to_localtime_then_now() {
    let with_localtime = r#"{"location":{"name":"K","country":"U","localtime_epoch":1700000100},"current":{"temp_c":1.0,"feelslike_c":1.0,"humidity":50,"wind_kph":0,"condition":{"text":"x"}}}"#;
    let obs = UpstreamCall::WaCurrent.normalize(200, with_localtime, NOW).unwrap();
    assert_eq!(obs.observation_time_epoch, 1700000100);

    let with_neither = r#"{"location":{"name":"K","country":"U"},"current":{"temp_c":1.0,"feelslike_c":1.0,"humidity":50,"wind_kph":0,"condition":{"text":"x"},"last_updated_epoch":null}}"#;
    let obs = UpstreamCall::WaCurrent.normalize(200, with_neither, NOW).unwrap();
    assert_eq!(obs.observation_time_epoch, NOW);
}

#[test]
fn weatherapi_hourly_selects_nearest_and_converts_wind() {
    let body = r#"{"location":{"name":"Kyiv","country":"Ukraine"},"forecast":{"forecastday":[{"hour":[{"time_epoch":100,"temp_c":1.0,"feelslike_c":1.0,"humidity":10,"wind_kph":18.0,"condition":{"text":"a"}},{"time_epoch":300,"temp_c":2.0,"feelslike_c":2.0,"humidity":20,"wind_kph":7.2,"condition":{"text":"b"}},{"time_epoch":700,"temp_c":3.0,"feelslike_c":3.0,"humidity":30,"wind_kph":3.6,"condition":{"text":"c"}}]}]}}"#;
    let call = UpstreamCall::WaAt { target_epoch: 250, hour: 0, forecast: true };
    let obs = call.normalize(200, body, NOW).unwrap();

    assert_eq!(obs.observation_time_epoch, 300);
    assert_eq!(obs.condition, "b");
    // 7.2 km/h is exactly 2 m/s
    assert_eq!(obs.wind_speed_milli_mps, 2000);
}

#[test]
fn weatherapi_fails_on_empty_day_and_hour_lists() {
    let no_days = r#"{"location":{"name":"K","country":"U"},"forecast":{"forecastday":[]}}"#;
    let call = UpstreamCall::WaAt { target_epoch: 0, hour: 0, forecast: false };
    match call.normalize(200, no_days, NOW).unwrap_err() {
        WeatherError::Data { detail } => {
            assert_eq!(detail, "WeatherAPI response contained no forecastday data")
        }
        other => panic!("expected a data error, got {other:?}"),
    }

    let no_hours = r#"{"location":{"name":"K","country":"U"},"forecast":{"forecastday":[{"hour":[]}]}}"#;
    match call.normalize(200, no_hours, NOW).unwrap_err() {
        WeatherError::Data { detail } => {
            assert_eq!(detail, "WeatherAPI response contained no hourly data")
        }
        other => panic!("expected a data error, got {other:?}"),
    }
}

#[test]
fn non_success_status_reports_a_truncated_excerpt() {
    let long_body: String = "x".repeat(450);
    let err = UpstreamCall::OwCurrent.normalize(503, &long_body, NOW).unwrap_err();
    match err {
        WeatherError::Upstream { operation, status, body_excerpt } => {
            assert_eq!(operation, "OpenWeather current");
            assert_eq!(status, 503);
            assert_eq!(body_excerpt.len(), 203);
            assert!(body_excerpt.ends_with("..."));
        }
        other => panic!("expected an upstream error, got {other:?}"),
    }
}

#[test]
fn short_bodies_are_quoted_whole() {
    let err = UpstreamCall::WaCurrent.normalize(401, "denied", NOW).unwrap_err();
    match err {
        WeatherError::Upstream { operation, status, body_excerpt } => {
            assert_eq!(operation, "WeatherAPI current");
            assert_eq!(status, 401);
            assert_eq!(body_excerpt, "denied");
        }
        other => panic!("expected an upstream error, got {other:?}"),
    }
}

#[test]
fn malformed_payloads_fail_with_a_decode_error() {
    let invalid_json = UpstreamCall::OwCurrent.normalize(200, "{not json", NOW).unwrap_err();
    match invalid_json {
        WeatherError::Decode { detail } => {
            assert_eq!(detail, "Failed to parse OpenWeather current JSON")
        }
        other => panic!("expected a decode error, got {other:?}"),
    }

    // a schema mismatch: the wind object is missing
    let missing_field = r#"{"name":"Kyiv","dt":1700000000,"main":{"temp":5.0,"feels_like":2.0,"humidity":80},"weather":[]}"#;
    assert!(matches!(
        UpstreamCall::OwCurrent.normalize(200, missing_field, NOW),
        Err(WeatherError::Decode { .. })
    ));

    // humidity above 100 violates the percentage invariant
    let bad_humidity = r#"{"name":"Kyiv","dt":1700000000,"main":{"temp":5.0,"feels_like":2.0,"humidity":101},"weather":[],"wind":{"speed":3.0}}"#;
    assert!(matches!(
        UpstreamCall::OwCurrent.normalize(200, bad_humidity, NOW),
        Err(WeatherError::Decode { .. })
    ));
}

#[test]
fn transport_errors_render_their_detail() {
    let err = WeatherError::Transport { detail: "connection refused".to_string() };
    assert_eq!(err.message(), "Transport error: connection refused");
}

#[test]
fn upstream_errors_render_operation_and_status() {
    let err = UpstreamCall::OwCurrent.normalize(404, "no city", NOW).unwrap_err();
    assert_eq!(
        err.message(),
        "OpenWeather current request failed with status 404: no city"
    );
}

#[test]
fn openweather_current_accepts_instants_before_the_epoch() {
    let body = r#"{"name":"K","dt":-1,"main":{"temp":-0.5,"feels_like":-2.25,"humidity":0},"weather":[],"wind":{"speed":0.0}}"#;
    let obs = UpstreamCall::OwCurrent.normalize(200, body, NOW).unwrap();
    assert_eq!(obs.observation_time_epoch, -1);
    assert_eq!(obs.temperature_milli_c, -500);
    assert_eq!(obs.feels_like_milli_c, -2250);
    assert_eq!(obs.humidity_pct, 0);
    assert_eq!(obs.wind_speed_milli_mps, 0);
}
