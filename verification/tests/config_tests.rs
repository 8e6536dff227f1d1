//! Tests of the credential store.

use weather_core::{Config, ProviderId};

#[test]
fn default_provider_id_errors_when_not_set() {
    let cfg = Config::default();
    let err = cfg.default_provider_id().unwrap_err();

    assert!(err.message().contains("No default provider configured"));
}

#[test]
fn set_api_key_and_default_for_provider() {
    let mut cfg = Config::default();

    cfg.upsert_provider_api_key(ProviderId::OpenWeather, "OPEN_KEY".into());

    let default = cfg.default_provider_id().expect("default provider must exist");
    assert_eq!(default, ProviderId::OpenWeather);

    let key = cfg.provider_api_key(ProviderId::OpenWeather);
    assert_eq!(key, Some("OPEN_KEY"));
    assert!(cfg.is_provider_configured(ProviderId::OpenWeather));
}

#[test]
fn upsert_does_not_override_existing_default() {
    let mut cfg = Config::default();

    cfg.upsert_provider_api_key(ProviderId::OpenWeather, "OPEN_KEY".into());
    cfg.upsert_provider_api_key(ProviderId::WeatherApi, "WEATHER_KEY".into());

    let default = cfg.default_provider_id().expect("default provider must exist");

    assert_eq!(default, ProviderId::OpenWeather);
    assert!(cfg.is_provider_configured(ProviderId::OpenWeather));
    assert!(cfg.is_provider_configured(ProviderId::WeatherApi));
}

#[test]
fn set_default_provider_overrides_default() {
    let mut cfg = Config::default();

    cfg.upsert_provider_api_key(ProviderId::OpenWeather, "OPEN_KEY".into());
    cfg.upsert_provider_api_key(ProviderId::WeatherApi, "WEATHER_KEY".into());

    let default = cfg.default_provider_id().expect("default provider must exist");
    assert_eq!(default, ProviderId::OpenWeather);

    cfg.set_default_provider(ProviderId::WeatherApi);

    let default = cfg.default_provider_id().expect("default provider must exist");
    assert_eq!(default, ProviderId::WeatherApi);
}

#[test]
fn upsert_replaces_existing_key() {
    let mut cfg = Config::default();

    cfg.upsert_provider_api_key(ProviderId::OpenWeather, "FIRST".into());
    cfg.upsert_provider_api_key(ProviderId::OpenWeather, "SECOND".into());

    assert_eq!(cfg.provider_api_key(ProviderId::OpenWeather), Some("SECOND"));
    assert_eq!(cfg.provider_entries().len(), 1);
}

#[test]
fn has_provider_follows_configuration() {
    let mut cfg = Config::default();
    assert!(!cfg.has_provider(ProviderId::WeatherApi));
    assert!(cfg.provider_config(ProviderId::WeatherApi).is_none());

    cfg.upsert_provider_api_key(ProviderId::WeatherApi, "K".into());
    assert!(cfg.has_provider(ProviderId::WeatherApi));
    assert_eq!(cfg.provider_config(ProviderId::WeatherApi).unwrap().api_key, "K");
    assert!(!cfg.has_provider(ProviderId::OpenWeather));
}

#[test]
fn set_provider_entry_keeps_default_untouched() {
    let mut cfg = Config::default();
    cfg.set_provider_entry("weatherapi".to_string(), "K2".to_string());

    assert!(cfg.default_provider.is_none());
    assert_eq!(cfg.provider_api_key(ProviderId::WeatherApi), Some("K2"));
}

#[test]
fn it_works() {}
