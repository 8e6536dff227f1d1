//! The error taxonomy of the library.
//!
//! Every failure of a query is one of these variants, and each carries
//! enough context — provider, requested instant, upstream status and a
//! truncated body excerpt — for a caller to surface it verbatim.

use crate::numeric::{spec_i64_dec, spec_u64_dec, i64_to_dec_string, u64_to_dec_string};
use crate::provider::{spec_id_str, ProviderId};
use vstd::prelude::*;

verus! {

/// A hard limit of a provider's API tier that a request fell outside of.
#[derive(Debug, Clone, Copy, PartialEq, Eq, Structural)]
pub enum CapabilityLimit {
    /// The provider serves no historical data at all.
    HistoryUnsupported { requested_epoch: i64 },
    /// The provider's forecast horizon ends at `max_epoch`.
    ForecastHorizon { requested_epoch: i64, now_epoch: i64, max_epoch: i64 },
}

/// Why a weather query failed. All errors are terminal for the call.
#[derive(Debug, Clone)]
pub enum WeatherError {
    /// The credential store designates no default provider.
    NoDefaultProvider,
    /// A provider identifier string matched no known provider.
    UnknownProvider { input: String },
    /// The provider is known but no API key is stored for it.
    MissingCredential { provider: ProviderId },
    /// The network transport failed before a status was obtained.
    Transport { detail: String },
    /// The upstream service answered with a non-2xx status.
    Upstream { operation: String, status: u16, body_excerpt: String },
    /// The payload did not match the provider's schema.
    Decode { detail: String },
    /// The request falls outside what the provider can serve.
    Capability { limit: CapabilityLimit },
    /// The response was well-formed but held an empty result set.
    Data { detail: String },
}

/// The mathematical shape of a `WeatherError`.
pub ghost enum ErrV {
    NoDefaultProvider,
    UnknownProvider { input: Seq<char> },
    MissingCredential { provider: ProviderId },
    Transport { detail: Seq<char> },
    Upstream { operation: Seq<char>, status: u16, body_excerpt: Seq<char> },
    Decode { detail: Seq<char> },
    Capability { limit: CapabilityLimit },
    Data { detail: Seq<char> },
}

impl View for WeatherError {
    type V = ErrV;

    open spec fn view(&self) -> ErrV {
        match self {
            WeatherError::NoDefaultProvider => ErrV::NoDefaultProvider,
            WeatherError::UnknownProvider { input } => ErrV::UnknownProvider { input: input@ },
            WeatherError::MissingCredential { provider } => ErrV::MissingCredential {
                provider: *provider,
            },
            WeatherError::Transport { detail } => ErrV::Transport { detail: detail@ },
            WeatherError::Upstream { operation, status, body_excerpt } => ErrV::Upstream {
                operation: operation@,
                status: *status,
                body_excerpt: body_excerpt@,
            },
            WeatherError::Decode { detail } => ErrV::Decode { detail: detail@ },
            WeatherError::Capability { limit } => ErrV::Capability { limit: *limit },
            WeatherError::Data { detail } => ErrV::Data { detail: detail@ },
        }
    }
}

/// An executable result agrees with its mathematical counterpart: same
/// case, equal payload, and the error's view is the stated one.
pub open spec fn result_matches<T>(r: Result<T, WeatherError>, s: Result<T, ErrV>) -> bool {
    &&& (r is Ok <==> s is Ok)
    &&& (r matches Ok(v) ==> s matches Ok(sv) && v == sv)
    &&& (r matches Err(e) ==> s matches Err(ev) && e@ == ev)
}

/// The human-readable rendering of each error.
pub open spec fn spec_message(e: ErrV) -> Seq<char> {
    match e {
        ErrV::NoDefaultProvider => "No default provider configured.\nHint: run `weather configure <provider>` (e.g. `weather configure openweather`) first."@,
        ErrV::UnknownProvider { input } => "Unknown provider '"@ + input
            + "'. Supported providers: openweather, weatherapi."@,
        ErrV::MissingCredential { provider } => "No API key configured for provider '"@
            + spec_id_str(provider) + "'.\nHint: run `weather configure "@ + spec_id_str(provider)
            + "` and enter your API key."@,
        ErrV::Transport { detail } => "Transport error: "@ + detail,
        ErrV::Upstream { operation, status, body_excerpt } => operation
            + " request failed with status "@ + spec_u64_dec(status as int) + ": "@ + body_excerpt,
        ErrV::Decode { detail } => detail,
        ErrV::Capability { limit: CapabilityLimit::HistoryUnsupported { requested_epoch } } => "Historical weather (epoch "@
            + spec_i64_dec(requested_epoch as int)
            + ") is not supported by the free OpenWeather API.\nOnly current weather and up to 5 days forecast are available."@,
        ErrV::Capability {
            limit: CapabilityLimit::ForecastHorizon { requested_epoch, now_epoch, max_epoch },
        } => "Requested date (epoch "@ + spec_i64_dec(requested_epoch as int)
            + ") exceeds the 5-day forecast limit of the free OpenWeather API.\nAllowed range: now .. epoch "@
            + spec_i64_dec(max_epoch as int) + "."@,
        ErrV::Data { detail } => detail,
    }
}

impl WeatherError {
    /// Render the error for display.
    pub fn message(&self) -> (r: String)
        ensures
            r@ == spec_message(self@),
    {
        match self {
            WeatherError::NoDefaultProvider => {
                let r = String::from_str(
                    "No default provider configured.\nHint: run `weather configure <provider>` (e.g. `weather configure openweather`) first.",
                );
                r
            },
            WeatherError::UnknownProvider { input } => {
                let r = String::from_str("Unknown provider '").concat(input.as_str()).concat(
                    "'. Supported providers: openweather, weatherapi.",
                );
                proof {
                    assert(r@ =~= spec_message(self@));
                }
                r
            },
            WeatherError::MissingCredential { provider } => {
                let r = String::from_str("No API key configured for provider '").concat(
                    provider.as_str(),
                ).concat("'.\nHint: run `weather configure ").concat(provider.as_str()).concat(
                    "` and enter your API key.",
                );
                proof {
                    assert(r@ =~= spec_message(self@));
                }
                r
            },
            WeatherError::Transport { detail } => {
                let r = String::from_str("Transport error: ").concat(detail.as_str());
                proof {
                    assert(r@ =~= spec_message(self@));
                }
                r
            },
            WeatherError::Upstream { operation, status, body_excerpt } => {
                let status_text = u64_to_dec_string(*status as u64);
                let r = operation.clone().concat(" request failed with status ").concat(
                    status_text.as_str(),
                ).concat(": ").concat(body_excerpt.as_str());
                proof {
                    assert(r@ =~= spec_message(self@));
                }
                r
            },
            WeatherError::Decode { detail } => detail.clone(),
            WeatherError::Capability {
                limit: CapabilityLimit::HistoryUnsupported { requested_epoch },
            } => {
                let epoch_text = i64_to_dec_string(*requested_epoch);
                let r = String::from_str("Historical weather (epoch ").concat(
                    epoch_text.as_str(),
                ).concat(
                    ") is not supported by the free OpenWeather API.\nOnly current weather and up to 5 days forecast are available.",
                );
                proof {
                    assert(r@ =~= spec_message(self@));
                }
                r
            },
            WeatherError::Capability {
                limit: CapabilityLimit::ForecastHorizon { requested_epoch, now_epoch, max_epoch },
            } => {
                let requested_text = i64_to_dec_string(*requested_epoch);
                let max_text = i64_to_dec_string(*max_epoch);
                let r = String::from_str("Requested date (epoch ").concat(
                    requested_text.as_str(),
                ).concat(
                    ") exceeds the 5-day forecast limit of the free OpenWeather API.\nAllowed range: now .. epoch ",
                ).concat(max_text.as_str()).concat(".");
                proof {
                    assert(r@ =~= spec_message(self@));
                }
                r
            },
            WeatherError::Data { detail } => detail.clone(),
        }
    }
}

} // verus!
