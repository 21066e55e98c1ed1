//! The HTTP request that a lookup asks the caller to send.

use vstd::prelude::*;

verus! {

/// The places a request can go to.
#[derive(Debug, Clone, Copy, PartialEq, Eq, Structural)]
pub enum Endpoint {
    /// API Ninjas: the weather in a city now.
    Weather,
    /// WeatherAPI: the conditions now.
    Current,
    /// WeatherAPI: the forecast for a day to come.
    Future,
    /// WeatherAPI: the record of a day gone by.
    History,
}

impl Endpoint {
    /// The address of the endpoint, without a query.
    pub open spec fn url_text(self) -> Seq<char> {
        match self {
            Endpoint::Weather => "https://api.api-ninjas.com/v1/weather"@,
            Endpoint::Current => "https://api.weatherapi.com/v1/current.json"@,
            Endpoint::Future => "https://api.weatherapi.com/v1/future.json"@,
            Endpoint::History => "https://api.weatherapi.com/v1/history.json"@,
        }
    }

    /// The address of the endpoint, without a query.
    pub fn url(&self) -> (url: &'static str)
        ensures
            url@ == self.url_text(),
    {
        match self {
            Endpoint::Weather => "https://api.api-ninjas.com/v1/weather",
            Endpoint::Current => "https://api.weatherapi.com/v1/current.json",
            Endpoint::Future => "https://api.weatherapi.com/v1/future.json",
            Endpoint::History => "https://api.weatherapi.com/v1/history.json",
        }
    }
}

/// A name with a value: one parameter of a query, or one header.
#[derive(Debug, Clone, PartialEq, Eq)]
pub struct Param {
    pub name: String,
    pub value: String,
}

impl View for Param {
    type V = (Seq<char>, Seq<char>);

    open spec fn view(&self) -> (Seq<char>, Seq<char>) {
        (self.name@, self.value@)
    }
}

impl Param {
    /// The parameter `name` with the value `value`.
    pub fn new(name: &str, value: &str) -> (param: Param)
        ensures
            param@ == (name@, value@),
    {
        Param { name: name.to_owned(), value: value.to_owned() }
    }
}

/// The names and values of `params`, in order.
pub open spec fn params_view(params: Seq<Param>) -> Seq<(Seq<char>, Seq<char>)> {
    params.map_values(|param: Param| param@)
}

/// A GET request: where it goes, the parameters of its query in order, and
/// its headers in order. The values are plain text; encoding them into a URL
/// is left to whoever sends the request.
#[derive(Debug, Clone, PartialEq, Eq)]
pub struct Request {
    pub endpoint: Endpoint,
    pub query: Vec<Param>,
    pub headers: Vec<Param>,
}

/// The mathematical model of a [`Request`].
#[verifier::ext_equal]
pub struct RequestView {
    pub endpoint: Endpoint,
    pub query: Seq<(Seq<char>, Seq<char>)>,
    pub headers: Seq<(Seq<char>, Seq<char>)>,
}

impl View for Request {
    type V = RequestView;

    open spec fn view(&self) -> RequestView {
        RequestView {
            endpoint: self.endpoint,
            query: params_view(self.query@),
            headers: params_view(self.headers@),
        }
    }
}

} // verus!
