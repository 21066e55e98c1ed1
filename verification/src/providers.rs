//! The weather providers, and what they have in common.

use crate::date::CalendarDate;
use crate::date::DateView;
use crate::error::WeatherError;
use crate::providers::api_ninjas::ApiNinjas;
use crate::providers::weather_api::WeatherApi;
use crate::request::Request;
use crate::request::RequestView;
use vstd::prelude::*;

pub mod api_ninjas;
pub mod weather_api;

verus! {

/// `outcome` is what a lookup owes when `plan` is the request it should
/// make: that request, or the rejection of the date where there is none.
pub open spec fn fulfils(outcome: Result<Request, WeatherError>, plan: Option<RequestView>) -> bool {
    match plan {
        Some(request) => outcome matches Ok(made) && made@ == request,
        None => outcome matches Err(WeatherError::InvalidDate(_)),
    }
}

/// A source of weather: it says which request answers a lookup.
///
/// Sending the request and decoding the reply is the caller's part; the
/// line to show for a decoded reply is [`crate::reply::Reply::summary`].
pub trait WeatherGetter {
    /// The request that answers a lookup of `address` for `date` when the
    /// current day is `today`; `None` where the date is rejected.
    spec fn planned(&self, address: Seq<char>, date: Seq<char>, today: DateView) -> Option<
        RequestView,
    >;

    /// The request that answers a lookup of `address` for `date` when the
    /// current day is `today`.
    fn request_on(&self, address: &str, date: &str, today: CalendarDate) -> (outcome: Result<
        Request,
        WeatherError,
    >)
        ensures
            fulfils(outcome, self.planned(address@, date@, today@)),
    ;

    /// The request that answers a lookup of `address` for `date` on the
    /// current day, which is the local calendar date of the machine where
    /// the lookup needs it.
    fn request(&self, address: &str, date: &str) -> (outcome: Result<Request, WeatherError>)
        ensures
            exists|today: DateView|
                today.valid() && #[trigger] fulfils(
                    outcome,
                    self.planned(address@, date@, today),
                ),
    ;
}

/// One of the providers, chosen when the program starts.
#[derive(Debug, Clone)]
pub enum Provider {
    WeatherApi(WeatherApi),
    ApiNinjas(ApiNinjas),
}

impl WeatherGetter for Provider {
    open spec fn planned(&self, address: Seq<char>, date: Seq<char>, today: DateView) -> Option<
        RequestView,
    > {
        match self {
            Provider::WeatherApi(provider) => provider.planned(address, date, today),
            Provider::ApiNinjas(provider) => provider.planned(address, date, today),
        }
    }

    fn request_on(&self, address: &str, date: &str, today: CalendarDate) -> (outcome: Result<
        Request,
        WeatherError,
    >) {
        match self {
            Provider::WeatherApi(provider) => provider.request_on(address, date, today),
            Provider::ApiNinjas(provider) => provider.request_on(address, date, today),
        }
    }

    fn request(&self, address: &str, date: &str) -> (outcome: Result<Request, WeatherError>) {
        match self {
            Provider::WeatherApi(provider) => {
                let outcome = provider.request(address, date);
                proof {
                    let today = choose|today: DateView|
                        today.valid() && #[trigger] fulfils(
                            outcome,
                            provider.planned(address@, date@, today),
                        );
                    assert(fulfils(outcome, self.planned(address@, date@, today)));
                }
                outcome
            },
            Provider::ApiNinjas(provider) => {
                let outcome = provider.request(address, date);
                proof {
                    let today = choose|today: DateView|
                        today.valid() && #[trigger] fulfils(
                            outcome,
                            provider.planned(address@, date@, today),
                        );
                    assert(fulfils(outcome, self.planned(address@, date@, today)));
                }
                outcome
            },
        }
    }
}

} // verus!
