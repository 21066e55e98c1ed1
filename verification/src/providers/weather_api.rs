//! WeatherAPI: the conditions now, the forecast for a day to come, or the
//! record of a day gone by, chosen by the date that is asked for.

use crate::date::lemma_three_way;
use crate::date::text::date_text;
use crate::date::text::is_iso_date;
use crate::date::text::is_iso_shape;
use crate::date::text::iso_date_value;
use crate::date::text::lemma_iso_date_text;
use crate::date::trusted::local_today;
use crate::date::trusted::parsed_date;
use crate::date::CalendarDate;
use crate::date::DateView;
use crate::date::When;
use crate::error::WeatherError;
use crate::providers::fulfils;
use crate::providers::WeatherGetter;
use crate::request::Endpoint;
use crate::request::Param;
use crate::request::Request;
use crate::request::RequestView;
use vstd::prelude::*;

verus! {

/// The provider WeatherAPI, with the key that its requests carry.
#[derive(Debug, Clone)]
pub struct WeatherApi {
    api_key: String,
}

impl WeatherApi {
    /// The provider that sends `api_key` with its requests.
    pub fn new(api_key: &str) -> (provider: Self)
        ensures
            provider.key() == api_key@,
    {
        Self { api_key: api_key.to_owned() }
    }

    /// The key that the requests carry.
    pub closed spec fn key(&self) -> Seq<char> {
        self.api_key@
    }

    /// The request for the conditions in `address` now.
    pub open spec fn current(&self, address: Seq<char>) -> RequestView {
        RequestView {
            endpoint: Endpoint::Current,
            query: seq![("key"@, self.key()), ("q"@, address)],
            headers: seq![],
        }
    }

    /// The request to `endpoint` for the weather in `address` on the day
    /// that `date` writes.
    pub open spec fn forecast(&self, endpoint: Endpoint, address: Seq<char>, date: Seq<char>)
        -> RequestView {
        RequestView {
            endpoint,
            query: seq![("key"@, self.key()), ("q"@, address), ("dt"@, date)],
            headers: seq![],
        }
    }

    /// The request for the weather in `address` on the day `target` when the
    /// current day is `today`: the conditions now for today itself, the
    /// forecast for a later day and the record for an earlier one, each with
    /// the day written out anew.
    pub open spec fn routed(&self, address: Seq<char>, target: DateView, today: DateView)
        -> RequestView {
        match target.relative_to(today) {
            When::Present => self.current(address),
            When::Future => self.forecast(Endpoint::Future, address, date_text(target)),
            When::Past => self.forecast(Endpoint::History, address, date_text(target)),
        }
    }

    /// The request for the conditions in `address` now.
    pub fn current_request(&self, address: &str) -> (request: Request)
        ensures
            request@ == self.current(address@),
    {
        let mut query = Vec::new();
        query.push(Param::new("key", self.api_key.as_str()));
        query.push(Param::new("q", address));
        let request = Request { endpoint: Endpoint::Current, query, headers: Vec::new() };
        assert(request@.query =~= self.current(address@).query);
        assert(request@.headers =~= self.current(address@).headers);
        request
    }

    /// The request to `endpoint` for the weather in `address` on the day
    /// that `date` writes.
    pub fn forecast_request(&self, endpoint: Endpoint, address: &str, date: &str) -> (request:
        Request)
        ensures
            request@ == self.forecast(endpoint, address@, date@),
    {
        let mut query = Vec::new();
        query.push(Param::new("key", self.api_key.as_str()));
        query.push(Param::new("q", address));
        query.push(Param::new("dt", date));
        let request = Request { endpoint, query, headers: Vec::new() };
        assert(request@.query =~= self.forecast(endpoint, address@, date@).query);
        assert(request@.headers =~= self.forecast(endpoint, address@, date@).headers);
        request
    }

    /// The request for the forecast in `address` on the day that `date` writes.
    pub fn future_request(&self, address: &str, date: &str) -> (request: Request)
        ensures
            request@ == self.forecast(Endpoint::Future, address@, date@),
    {
        self.forecast_request(Endpoint::Future, address, date)
    }

    /// The request for the record in `address` of the day that `date` writes.
    pub fn historical_request(&self, address: &str, date: &str) -> (request: Request)
        ensures
            request@ == self.forecast(Endpoint::History, address@, date@),
    {
        self.forecast_request(Endpoint::History, address, date)
    }

    /// The request for the weather in `address` on the day `target` when the
    /// current day is `today`.
    pub fn dispatch(&self, address: &str, target: CalendarDate, today: CalendarDate) -> (request:
        Request)
        ensures
            request@ == self.routed(address@, target@, today@),
            target@ == today@ ==> request@.endpoint == Endpoint::Current,
            target@.before(today@) ==> request@.endpoint == Endpoint::History,
            today@.before(target@) ==> request@.endpoint == Endpoint::Future,
    {
        proof {
            lemma_three_way(target@, today@);
        }
        match target.relative_to(today) {
            When::Present => self.current_request(address),
            When::Future => self.future_request(address, target.to_text().as_str()),
            When::Past => self.historical_request(address, target.to_text().as_str()),
        }
    }
}

impl WeatherGetter for WeatherApi {
    /// No date asks for the conditions now. A date that cannot be read is
    /// rejected. A date that can be read is routed by where it lies in time.
    open spec fn planned(&self, address: Seq<char>, date: Seq<char>, today: DateView) -> Option<
        RequestView,
    > {
        if date.len() == 0 {
            Some(self.current(address))
        } else {
            match parsed_date(date) {
                Some(target) => Some(self.routed(address, target, today)),
                None => None,
            }
        }
    }

    fn request_on(&self, address: &str, date: &str, today: CalendarDate) -> (outcome: Result<
        Request,
        WeatherError,
    >)
        ensures
            date@.len() == 0 ==> (outcome matches Ok(request) && request@ == self.current(
                address@,
            )),
            date@.len() > 0 && parsed_date(date@) is None ==> outcome matches Err(
                WeatherError::InvalidDate(_),
            ),
            date@.len() > 0 && parsed_date(date@) is Some ==> (outcome matches Ok(request) && {
                let target = parsed_date(date@).unwrap();
                &&& target == today@ ==> request@.endpoint == Endpoint::Current
                &&& target.before(today@) ==> request@.endpoint == Endpoint::History
                &&& today@.before(target) ==> request@.endpoint == Endpoint::Future
            }),
            is_iso_date(date@) ==> (outcome matches Ok(request) && request@ == self.routed(
                address@,
                iso_date_value(date@),
                today@,
            )),
            is_iso_shape(date@) && !iso_date_value(date@).valid() ==> outcome matches Err(
                WeatherError::InvalidDate(_),
            ),
            is_iso_date(date@) && iso_date_value(date@) != today@ ==> (outcome matches Ok(request)
                && request@.query == seq![("key"@, self.key()), ("q"@, address@), ("dt"@, date@)]),
    {
        if date.is_empty() {
            Ok(self.current_request(address))
        } else {
            match CalendarDate::parse(date) {
                Ok(target) => {
                    proof {
                        if is_iso_date(date@) {
                            lemma_iso_date_text(date@);
                        }
                    }
                    Ok(self.dispatch(address, target, today))
                },
                Err(error) => Err(error),
            }
        }
    }

    fn request(&self, address: &str, date: &str) -> (outcome: Result<Request, WeatherError>)
        ensures
            date@.len() == 0 ==> (outcome matches Ok(request) && request@ == self.current(
                address@,
            )),
            date@.len() > 0 && parsed_date(date@) is None ==> outcome matches Err(
                WeatherError::InvalidDate(_),
            ),
            date@.len() > 0 && parsed_date(date@) is Some ==> (outcome matches Ok(request) && {
                let written = date_text(parsed_date(date@).unwrap());
                ||| request@ == self.current(address@)
                ||| request@ == self.forecast(Endpoint::Future, address@, written)
                ||| request@ == self.forecast(Endpoint::History, address@, written)
            }),
            is_iso_shape(date@) && !iso_date_value(date@).valid() ==> outcome matches Err(
                WeatherError::InvalidDate(_),
            ),
    {
        if date.is_empty() {
            let outcome = Ok(self.current_request(address));
            proof {
                let today = DateView { year: 2000, month: 1, day: 1 };
                assert(today.valid());
                assert(fulfils(outcome, self.planned(address@, date@, today)));
            }
            outcome
        } else {
            match CalendarDate::parse(date) {
                Ok(target) => {
                    let today = local_today();
                    let outcome = Ok(self.dispatch(address, target, today));
                    assert(fulfils(outcome, self.planned(address@, date@, today@)));
                    outcome
                },
                Err(error) => {
                    let outcome = Err(error);
                    proof {
                        let today = DateView { year: 2000, month: 1, day: 1 };
                        assert(today.valid());
                        assert(fulfils(outcome, self.planned(address@, date@, today)));
                    }
                    outcome
                },
            }
        }
    }
}

} // verus!
