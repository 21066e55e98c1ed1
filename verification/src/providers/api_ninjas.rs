//! API Ninjas: the weather in a city now, whatever date is asked for.

use crate::date::CalendarDate;
use crate::date::DateView;
use crate::error::WeatherError;
use crate::providers::fulfils;
use crate::providers::WeatherGetter;
use crate::request::Endpoint;
use crate::request::Param;
use crate::request::Request;
use crate::request::RequestView;
use vstd::prelude::*;

verus! {

/// The provider API Ninjas, with the key that its requests carry.
#[derive(Debug, Clone)]
pub struct ApiNinjas {
    api_key: String,
}

impl ApiNinjas {
    /// The provider that sends `api_key` with its requests.
    pub fn new(api_key: &str) -> (provider: Self)
        ensures
            provider.key() == api_key@,
    {
        Self { api_key: api_key.to_owned() }
    }

    /// The key that the requests carry.
    pub closed spec fn key(&self) -> Seq<char> {
        self.api_key@
    }

    /// The request for the weather in `address` now: the city in the query,
    /// the key in a header.
    pub open spec fn weather(&self, address: Seq<char>) -> RequestView {
        RequestView {
            endpoint: Endpoint::Weather,
            query: seq![("city"@, address)],
            headers: seq![("X-Api-Key"@, self.key())],
        }
    }

    /// The request for the weather in `address` now.
    pub fn weather_request(&self, address: &str) -> (request: Request)
        ensures
            request@ == self.weather(address@),
    {
        let mut query = Vec::new();
        query.push(Param::new("city", address));
        let mut headers = Vec::new();
        headers.push(Param::new("X-Api-Key", self.api_key.as_str()));
        let request = Request { endpoint: Endpoint::Weather, query, headers };
        assert(request@.query =~= self.weather(address@).query);
        assert(request@.headers =~= self.weather(address@).headers);
        request
    }
}

/// API Ninjas is asked the same whatever date is asked for and whatever the
/// current day is.
pub proof fn lemma_date_is_ignored(
    provider: ApiNinjas,
    address: Seq<char>,
    date: Seq<char>,
    today: DateView,
    other_date: Seq<char>,
    other_today: DateView,
)
    ensures
        provider.planned(address, date, today) == provider.planned(
            address,
            other_date,
            other_today,
        ),
        provider.planned(address, date, today) == Some(provider.weather(address)),
{
}

impl WeatherGetter for ApiNinjas {
    /// The date and the current day play no part in the request.
    open spec fn planned(&self, address: Seq<char>, date: Seq<char>, today: DateView) -> Option<
        RequestView,
    > {
        Some(self.weather(address))
    }

    fn request_on(&self, address: &str, _date: &str, _today: CalendarDate) -> (outcome: Result<
        Request,
        WeatherError,
    >)
        ensures
            outcome matches Ok(request) && request@ == self.weather(address@),
    {
        Ok(self.weather_request(address))
    }

    fn request(&self, address: &str, date: &str) -> (outcome: Result<Request, WeatherError>)
        ensures
            outcome matches Ok(request) && request@ == self.weather(address@),
    {
        let outcome = Ok(self.weather_request(address));
        proof {
            let today = DateView { year: 2000, month: 1, day: 1 };
            assert(today.valid());
            assert(fulfils(outcome, self.planned(address@, date@, today)));
        }
        outcome
    }
}

} // verus!
