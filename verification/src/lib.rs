//! Core library for a multi-provider weather client.
//!
//! The library resolves a weather query — a location string and an optional
//! instant — into a normalized observation by delegating to one of two
//! third-party weather services. It owns the request classification, the
//! per-provider endpoint selection with its capability limits, and the
//! normalization of the heterogeneous JSON payloads into one response shape.
//! Network transport, credential persistence and presentation live outside
//! this crate; the library hands them plain values and takes plain values
//! back.

pub mod config;
pub mod error;
pub mod json;
pub mod model;
pub mod numeric;
pub mod provider;
pub mod series;
pub mod text;
pub mod time;

pub use config::{Config, ProviderConfig};
pub use error::{CapabilityLimit, WeatherError};
pub use model::{WeatherRequest, WeatherResponse};
pub use provider::openweather::OpenWeatherProvider;
pub use provider::weatherapi::WeatherApiProvider;
pub use provider::{
    default_provider_from_config, provider_from_config, ProviderId, UpstreamCall, WeatherProvider,
};
pub use time::{classify_date, DateRequest};
