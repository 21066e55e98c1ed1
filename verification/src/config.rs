//! The stored choice of a provider, and the provider it stands for.

use crate::providers::api_ninjas::ApiNinjas;
use crate::providers::weather_api::WeatherApi;
use crate::providers::Provider;
use vstd::prelude::*;

verus! {

/// The providers that can be chosen.
#[derive(Debug, Clone, Copy, PartialEq, Eq, Structural)]
pub enum ProviderType {
    WeatherApi,
    ApiNinjas,
}

impl Default for ProviderType {
    /// The provider that a stored choice names where it names none.
    fn default() -> (provider: ProviderType)
        ensures
            provider == ProviderType::WeatherApi,
    {
        ProviderType::WeatherApi
    }
}

/// What is stored between runs: the chosen provider and the key for it.
#[derive(Debug, Clone, PartialEq, Eq)]
pub struct Configuration {
    pub provider: ProviderType,
    pub api_key: String,
}

impl Default for Configuration {
    /// The default provider with an empty key.
    fn default() -> (configuration: Configuration)
        ensures
            configuration.provider == ProviderType::WeatherApi,
            configuration.api_key@ == Seq::<char>::empty(),
    {
        Configuration { provider: ProviderType::WeatherApi, api_key: String::new() }
    }
}

impl Configuration {
    /// The provider that the configuration names, made with the stored key.
    pub fn select(&self) -> (provider: Provider)
        ensures
            match self.provider {
                ProviderType::WeatherApi => provider matches Provider::WeatherApi(chosen)
                    && chosen.key() == self.api_key@,
                ProviderType::ApiNinjas => provider matches Provider::ApiNinjas(chosen)
                    && chosen.key() == self.api_key@,
            },
    {
        match self.provider {
            ProviderType::WeatherApi => Provider::WeatherApi(WeatherApi::new(self.api_key.as_str())),
            ProviderType::ApiNinjas => Provider::ApiNinjas(ApiNinjas::new(self.api_key.as_str())),
        }
    }
}

} // verus!
