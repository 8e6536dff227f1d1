//! Tests of the time classifier, identifier parsing, the registry, and
//! call planning.

use weather_core::{
    classify_date, default_provider_from_config, provider_from_config, CapabilityLimit, Config,
    DateRequest, ProviderId, UpstreamCall, WeatherError, WeatherProvider, WeatherRequest,
};

/// 2025-03-10 12:00:00 UTC.
const NOW: i64 = 1741608000;

#[test]
fn none_means_current() {
    let result = classify_date(NOW, None);
    assert_eq!(result, DateRequest::Current);
}

#[test]
fn past_date_is_past() {
    let past: i64 = NOW - 1;

    let result = classify_date(NOW, Some(past));
    assert_eq!(result, DateRequest::Past(past));
}

#[test]
fn now_or_future_is_future() {
    let same: i64 = NOW;
    let future: i64 = NOW + 3600;

    assert_eq!(classify_date(NOW, Some(same)), DateRequest::Future(same));
    assert_eq!(classify_date(NOW, Some(future)), DateRequest::Future(future));
}

#[test]
fn provider_id_as_str_roundtrip() {
    for id in ProviderId::all() {
        let s = id.as_str();
        let parsed = ProviderId::parse(s).expect("roundtrip should succeed");
        assert_eq!(id, parsed);
    }
}

#[test]
fn provider_id_parse_is_case_insensitive() {
    assert_eq!(ProviderId::parse("OpenWeather").unwrap(), ProviderId::OpenWeather);
    assert_eq!(ProviderId::parse("WEATHERAPI").unwrap(), ProviderId::WeatherApi);
}

#[test]
fn unknown_provider_error() {
    let err = ProviderId::parse("doesnotexist").unwrap_err();
    assert!(err.message().contains("Unknown provider"));
    assert!(err.message().contains("openweather, weatherapi"));
}

#[test]
fn provider_from_config_errors_when_missing_api_key() {
    let cfg = Config::default();
    let err = provider_from_config(ProviderId::OpenWeather, &cfg).unwrap_err();
    assert!(err.message().contains("No API key configured for provider"));
}

#[test]
fn default_provider_from_config_errors_when_not_set() {
    let cfg = Config::default();
    let err = default_provider_from_config(&cfg).unwrap_err();

    let msg = err.message();
    assert!(msg.contains("No default provider configured"));
    assert!(msg.contains("Hint: run `weather configure"));
}

#[test]
fn default_provider_from_config_works_when_set_and_configured() {
    let mut cfg = Config::default();
    cfg.upsert_provider_api_key(ProviderId::OpenWeather, "KEY".to_string());

    let provider = default_provider_from_config(&cfg);
    assert!(provider.is_ok());
}

#[test]
fn resolved_provider_holds_the_stored_credential() {
    let mut cfg = Config::default();
    cfg.upsert_provider_api_key(ProviderId::WeatherApi, "SECRET".to_string());

    let provider = provider_from_config(ProviderId::WeatherApi, &cfg).unwrap();
    assert_eq!(provider.id(), ProviderId::WeatherApi);
    assert_eq!(provider.api_key(), "SECRET");
}

fn openweather_provider() -> WeatherProvider {
    let mut cfg = Config::default();
    cfg.upsert_provider_api_key(ProviderId::OpenWeather, "K".to_string());
    provider_from_config(ProviderId::OpenWeather, &cfg).unwrap()
}

fn weatherapi_provider() -> WeatherProvider {
    let mut cfg = Config::default();
    cfg.upsert_provider_api_key(ProviderId::WeatherApi, "K".to_string());
    provider_from_config(ProviderId::WeatherApi, &cfg).unwrap()
}

fn request_at(when_epoch: Option<i64>) -> WeatherRequest {
    WeatherRequest { address: "Kyiv".to_string(), when_epoch }
}

#[test]
fn openweather_plans_current_when_no_instant_given() {
    let p = openweather_provider();
    let call = p.plan_fetch(NOW, &request_at(None)).unwrap();
    assert_eq!(call, UpstreamCall::OwCurrent);
}

#[test]
fn openweather_rejects_past_requests_without_a_call() {
    let p = openweather_provider();
    let err = p.plan_fetch(NOW, &request_at(Some(NOW - 1))).unwrap_err();
    match err {
        WeatherError::Capability {
            limit: CapabilityLimit::HistoryUnsupported { requested_epoch },
        } => assert_eq!(requested_epoch, NOW - 1),
        other => panic!("expected a capability error, got {other:?}"),
    }
    assert!(err.message().contains("Historical weather"));
}

#[test]
fn openweather_rejects_requests_past_the_horizon() {
    let p = openweather_provider();
    let six_days: i64 = NOW + 6 * 86400;
    let err = p.plan_fetch(NOW, &request_at(Some(six_days))).unwrap_err();
    match err {
        WeatherError::Capability {
            limit: CapabilityLimit::ForecastHorizon { requested_epoch, now_epoch, max_epoch },
        } => {
            assert_eq!(requested_epoch, six_days);
            assert_eq!(now_epoch, NOW);
            assert_eq!(max_epoch, NOW + 5 * 86400);
        }
        other => panic!("expected a capability error, got {other:?}"),
    }
    assert!(err.message().contains("exceeds the 5-day forecast limit"));
}

#[test]
fn openweather_plans_forecast_within_the_horizon() {
    let p = openweather_provider();
    let target: i64 = NOW + 5 * 86400;
    let call = p.plan_fetch(NOW, &request_at(Some(target))).unwrap();
    assert_eq!(call, UpstreamCall::OwForecast { target_epoch: target });
}

#[test]
fn weatherapi_plans_all_three_operations() {
    let p = weatherapi_provider();

    assert_eq!(p.plan_fetch(NOW, &request_at(None)).unwrap(), UpstreamCall::WaCurrent);

    // NOW is noon UTC, so the extracted hour of day is 12
    let future = p.plan_fetch(NOW, &request_at(Some(NOW + 86400))).unwrap();
    assert_eq!(
        future,
        UpstreamCall::WaAt { target_epoch: NOW + 86400, hour: 12, forecast: true }
    );

    let past = p.plan_fetch(NOW, &request_at(Some(NOW - 86400 - 3600))).unwrap();
    assert_eq!(
        past,
        UpstreamCall::WaAt { target_epoch: NOW - 86400 - 3600, hour: 11, forecast: false }
    );
}

#[test]
fn endpoint_urls_follow_the_planned_call() {
    assert_eq!(
        UpstreamCall::OwCurrent.endpoint_url(),
        "https://api.openweathermap.org/data/2.5/weather"
    );
    assert_eq!(
        UpstreamCall::OwForecast { target_epoch: 0 }.endpoint_url(),
        "https://api.openweathermap.org/data/2.5/forecast"
    );
    assert_eq!(
        UpstreamCall::WaCurrent.endpoint_url(),
        "http://api.weatherapi.com/v1/current.json"
    );
    assert_eq!(
        UpstreamCall::WaAt { target_epoch: 0, hour: 0, forecast: true }.endpoint_url(),
        "http://api.weatherapi.com/v1/forecast.json"
    );
    assert_eq!(
        UpstreamCall::WaAt { target_epoch: 0, hour: 0, forecast: false }.endpoint_url(),
        "http://api.weatherapi.com/v1/history.json"
    );
}

#[test]
fn query_params_carry_key_location_and_target() {
    let call = UpstreamCall::WaAt { target_epoch: 1741694400, hour: 12, forecast: true };
    let params = call.query_params("Kyiv", "SECRET");
    assert_eq!(
        params,
        vec![
            ("key".to_string(), "SECRET".to_string()),
            ("q".to_string(), "Kyiv".to_string()),
            ("unixdt".to_string(), "1741694400".to_string()),
            ("hour".to_string(), "12".to_string()),
        ]
    );

    let ow = UpstreamCall::OwCurrent.query_params("Kyiv", "APPID");
    assert_eq!(
        ow,
        vec![
            ("q".to_string(), "Kyiv".to_string()),
            ("appid".to_string(), "APPID".to_string()),
            ("units".to_string(), "metric".to_string()),
        ]
    );
}
