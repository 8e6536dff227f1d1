//! The credential store: API keys keyed by provider name, plus an
//! optional default provider.
//!
//! Loading and saving the store are the business of the surrounding
//! application; this module owns the lookup and update rules. The store's
//! mathematical shape is a map from provider name to API key, with the
//! earliest entry winning should the backing list ever hold a name twice.

use crate::error::{ErrV, WeatherError};
use crate::provider::{spec_id_str, spec_parse_provider_id, ProviderId};
use crate::text::str_eq;
use vstd::prelude::*;

verus! {

/// Configuration for a single provider: its API key.
#[derive(Debug, Clone)]
pub struct ProviderConfig {
    pub api_key: String,
}

/// The stored configuration: an optional default provider name and one
/// entry per configured provider.
#[derive(Debug, Clone)]
pub struct Config {
    pub default_provider: Option<String>,
    providers: Vec<(String, ProviderConfig)>,
}

/// The mathematical shape of a `Config`.
pub ghost struct ConfigV {
    pub default_provider: Option<Seq<char>>,
    pub providers: Map<Seq<char>, Seq<char>>,
}

/// The key-value reading of the entry list: earlier entries win.
pub open spec fn providers_map(entries: Seq<(String, ProviderConfig)>) -> Map<Seq<char>, Seq<char>>
    decreases entries.len(),
{
    if entries.len() == 0 {
        Map::empty()
    } else {
        providers_map(entries.drop_first()).insert(entries.first().0@, entries.first().1.api_key@)
    }
}

impl View for Config {
    type V = ConfigV;

    closed spec fn view(&self) -> ConfigV {
        ConfigV {
            default_provider: match self.default_provider {
                Some(ref s) => Some(s@),
                None => None,
            },
            providers: providers_map(self.providers@),
        }
    }
}

proof fn lemma_providers_map_contains(entries: Seq<(String, ProviderConfig)>, key: Seq<char>)
    ensures
        providers_map(entries).contains_key(key) <==> exists|i: int|
            0 <= i < entries.len() && #[trigger] entries[i].0@ == key,
    decreases entries.len(),
{
    if entries.len() > 0 {
        lemma_providers_map_contains(entries.drop_first(), key);
        if entries.first().0@ == key {
            assert(entries[0].0@ == key);
        } else if providers_map(entries).contains_key(key) {
            let i = choose|i: int|
                0 <= i < entries.drop_first().len() && #[trigger] entries.drop_first()[i].0@ == key;
            assert(entries[i + 1].0@ == key);
        } else {
            if exists|i: int| 0 <= i < entries.len() && #[trigger] entries[i].0@ == key {
                let i = choose|i: int| 0 <= i < entries.len() && #[trigger] entries[i].0@ == key;
                assert(entries.drop_first()[i - 1].0@ == key);
            }
        }
    }
}

proof fn lemma_providers_map_first(entries: Seq<(String, ProviderConfig)>, i: int)
    requires
        0 <= i < entries.len(),
        forall|j: int| 0 <= j < i ==> #[trigger] entries[j].0@ != entries[i].0@,
    ensures
        providers_map(entries).contains_key(entries[i].0@),
        providers_map(entries)[entries[i].0@] == entries[i].1.api_key@,
    decreases entries.len(),
{
    if i == 0 {
    } else {
        assert(entries.drop_first()[i - 1] == entries[i]);
        assert(forall|j: int|
            0 <= j < i - 1 ==> #[trigger] entries.drop_first()[j].0@ != entries.drop_first()[i
                - 1].0@) by {
            assert(forall|j: int| 0 <= j < i - 1 ==> entries.drop_first()[j] == entries[j + 1]);
        }
        lemma_providers_map_first(entries.drop_first(), i - 1);
        assert(entries[0].0@ != entries[i].0@);
    }
}

proof fn lemma_providers_map_update(entries: Seq<(String, ProviderConfig)>, i: int, value: (
    String,
    ProviderConfig,
))
    requires
        0 <= i < entries.len(),
        value.0@ == entries[i].0@,
        forall|j: int| 0 <= j < i ==> #[trigger] entries[j].0@ != entries[i].0@,
    ensures
        providers_map(entries.update(i, value)) == providers_map(entries).insert(
            value.0@,
            value.1.api_key@,
        ),
    decreases entries.len(),
{
    let updated = entries.update(i, value);
    if i == 0 {
        assert(updated.drop_first() =~= entries.drop_first());
        assert(providers_map(updated) =~= providers_map(entries).insert(
            value.0@,
            value.1.api_key@,
        ));
    } else {
        assert(updated.drop_first() =~= entries.drop_first().update(i - 1, value));
        assert(entries.drop_first()[i - 1] == entries[i]);
        assert(forall|j: int|
            0 <= j < i - 1 ==> #[trigger] entries.drop_first()[j].0@ != entries.drop_first()[i
                - 1].0@) by {
            assert(forall|j: int| 0 <= j < i - 1 ==> entries.drop_first()[j] == entries[j + 1]);
        }
        lemma_providers_map_update(entries.drop_first(), i - 1, value);
        assert(entries[0].0@ != value.0@);
        assert(providers_map(updated) =~= providers_map(entries).insert(
            value.0@,
            value.1.api_key@,
        ));
    }
}

proof fn lemma_providers_map_push(entries: Seq<(String, ProviderConfig)>, value: (
    String,
    ProviderConfig,
))
    requires
        forall|j: int| 0 <= j < entries.len() ==> #[trigger] entries[j].0@ != value.0@,
    ensures
        providers_map(entries.push(value)) == providers_map(entries).insert(
            value.0@,
            value.1.api_key@,
        ),
    decreases entries.len(),
{
    let pushed = entries.push(value);
    if entries.len() == 0 {
        assert(pushed.drop_first() =~= entries);
        assert(pushed.first() == value);
        assert(providers_map(pushed) =~= providers_map(entries).insert(
            value.0@,
            value.1.api_key@,
        ));
    } else {
        assert(pushed.drop_first() =~= entries.drop_first().push(value));
        assert(forall|j: int|
            0 <= j < entries.drop_first().len() ==> #[trigger] entries.drop_first()[j].0@
                != value.0@) by {
            assert(forall|j: int|
                0 <= j < entries.drop_first().len() ==> entries.drop_first()[j] == entries[j + 1]);
        }
        lemma_providers_map_push(entries.drop_first(), value);
        assert(entries[0].0@ != value.0@);
        assert(providers_map(pushed) =~= providers_map(entries).insert(
            value.0@,
            value.1.api_key@,
        ));
    }
}

impl Config {
    /// Index of the first entry stored under `key`, if any.
    fn find_entry(&self, key: &str) -> (r: Option<usize>)
        ensures
            match r {
                Some(i) => i < self.providers@.len() && self.providers@[i as int].0@ == key@
                    && forall|j: int| 0 <= j < i ==> #[trigger] self.providers@[j].0@ != key@,
                None => forall|j: int|
                    0 <= j < self.providers@.len() ==> #[trigger] self.providers@[j].0@ != key@,
            },
    {
        let n = self.providers.len();
        let mut i: usize = 0;
        while i < n
            invariant
                i <= n,
                n == self.providers@.len(),
                forall|j: int| 0 <= j < i ==> #[trigger] self.providers@[j].0@ != key@,
            decreases n - i,
        {
            if str_eq(self.providers[i].0.as_str(), key) {
                return Some(i);
            }
            i = i + 1;
        }
        None
    }

    /// Return the default provider as a strongly typed identifier.
    ///
    /// Fails with `NoDefaultProvider` when none is designated, and with
    /// `UnknownProvider` when the stored name parses to no known
    /// provider.
    pub fn default_provider_id(&self) -> (r: Result<ProviderId, WeatherError>)
        ensures
            match self@.default_provider {
                None => r matches Err(e) && e@ == ErrV::NoDefaultProvider,
                Some(s) => match spec_parse_provider_id(s) {
                    Some(id) => r == Ok::<ProviderId, WeatherError>(id),
                    None => r matches Err(e) && e@ == (ErrV::UnknownProvider { input: s }),
                },
            },
    {
        match &self.default_provider {
            None => Err(WeatherError::NoDefaultProvider),
            Some(s) => ProviderId::parse(s.as_str()),
        }
    }

    /// Whether an entry is stored for the provider.
    pub fn has_provider(&self, id: ProviderId) -> (r: bool)
        ensures
            r == self@.providers.contains_key(spec_id_str(id)),
    {
        proof {
            lemma_providers_map_contains(self.providers@, spec_id_str(id));
        }
        self.find_entry(id.as_str()).is_some()
    }

    /// The stored configuration for the provider, if any.
    pub fn provider_config(&self, id: ProviderId) -> (r: Option<&ProviderConfig>)
        ensures
            r is Some <==> self@.providers.contains_key(spec_id_str(id)),
            r matches Some(c) ==> c.api_key@ == self@.providers[spec_id_str(id)],
    {
        proof {
            lemma_providers_map_contains(self.providers@, spec_id_str(id));
        }
        match self.find_entry(id.as_str()) {
            Some(i) => {
                proof {
                    lemma_providers_map_first(self.providers@, i as int);
                }
                Some(&self.providers[i].1)
            },
            None => None,
        }
    }

    /// Designate the default provider.
    pub fn set_default_provider(&mut self, id: ProviderId)
        ensures
            final(self)@.default_provider == Some(spec_id_str(id)),
            final(self)@.providers == old(self)@.providers,
    {
        self.default_provider = Some(String::from_str(id.as_str()));
    }

    /// Store `api_key` under `name`, replacing any earlier entry for that
    /// name; the default provider is untouched.
    pub fn set_provider_entry(&mut self, name: String, api_key: String)
        ensures
            final(self)@.providers == old(self)@.providers.insert(name@, api_key@),
            final(self)@.default_provider == old(self)@.default_provider,
    {
        match self.find_entry(name.as_str()) {
            Some(i) => {
                proof {
                    lemma_providers_map_update(
                        self.providers@,
                        i as int,
                        (name, ProviderConfig { api_key }),
                    );
                }
                self.providers.set(i, (name, ProviderConfig { api_key }));
            },
            None => {
                proof {
                    lemma_providers_map_push(self.providers@, (name, ProviderConfig { api_key }));
                }
                self.providers.push((name, ProviderConfig { api_key }));
            },
        }
    }

    /// Set or replace a provider's API key; when no default provider is
    /// designated yet, this provider becomes the default.
    pub fn upsert_provider_api_key(&mut self, provider_id: ProviderId, api_key: String)
        ensures
            final(self)@.providers == old(self)@.providers.insert(spec_id_str(provider_id), api_key@),
            old(self)@.default_provider is Some ==> final(self)@.default_provider == old(
                self,
            )@.default_provider,
            old(self)@.default_provider is None ==> final(self)@.default_provider == Some(
                spec_id_str(provider_id),
            ),
    {
        let name = String::from_str(provider_id.as_str());
        self.set_provider_entry(name, api_key);
        if self.default_provider.is_none() {
            self.default_provider = Some(String::from_str(provider_id.as_str()));
        }
    }

    /// The API key stored for the provider, if any.
    pub fn provider_api_key(&self, provider_id: ProviderId) -> (r: Option<&str>)
        ensures
            r is Some <==> self@.providers.contains_key(spec_id_str(provider_id)),
            r matches Some(k) ==> k@ == self@.providers[spec_id_str(provider_id)],
    {
        match self.provider_config(provider_id) {
            Some(c) => Some(c.api_key.as_str()),
            None => None,
        }
    }

    /// Whether an API key is stored for the provider.
    pub fn is_provider_configured(&self, provider_id: ProviderId) -> (r: bool)
        ensures
            r == self@.providers.contains_key(spec_id_str(provider_id)),
    {
        self.provider_api_key(provider_id).is_some()
    }

    /// The stored entries, for persistence by the surrounding application.
    pub fn provider_entries(&self) -> (r: &Vec<(String, ProviderConfig)>)
        ensures
            providers_map(r@) == self@.providers,
    {
        &self.providers
    }
}

impl Default for Config {
    /// An empty store: no default provider, no entries.
    fn default() -> (c: Config)
        ensures
            c@.default_provider is None,
            c@.providers == Map::<Seq<char>, Seq<char>>::empty(),
    {
        Config { default_provider: None, providers: Vec::new() }
    }
}

} // verus!
