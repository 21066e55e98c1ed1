use weather::config::Configuration;
use weather::config::ProviderType;
use weather::date::CalendarDate;
use weather::error::WeatherError;
use weather::providers::api_ninjas::ApiNinjas;
use weather::providers::weather_api::WeatherApi;
use weather::providers::Provider;
use weather::providers::WeatherGetter;
use weather::request::Endpoint;
use weather::request::Param;
use weather::request::Request;

fn day(year: i32, month: u32, day: u32) -> CalendarDate {
    CalendarDate::new(year, month, day).expect("a day that exists")
}

fn params(pairs: &[(&str, &str)]) -> Vec<Param> {
    pairs.iter().map(|(name, value)| Param::new(name, value)).collect()
}

fn current(key: &str, address: &str) -> Request {
    Request {
        endpoint: Endpoint::Current,
        query: params(&[("key", key), ("q", address)]),
        headers: Vec::new(),
    }
}

fn dated(endpoint: Endpoint, key: &str, address: &str, date: &str) -> Request {
    Request {
        endpoint,
        query: params(&[("key", key), ("q", address), ("dt", date)]),
        headers: Vec::new(),
    }
}

#[test]
fn endpoints_have_their_addresses() {
    assert_eq!(Endpoint::Weather.url(), "https://api.api-ninjas.com/v1/weather");
    assert_eq!(Endpoint::Current.url(), "https://api.weatherapi.com/v1/current.json");
    assert_eq!(Endpoint::Future.url(), "https://api.weatherapi.com/v1/future.json");
    assert_eq!(Endpoint::History.url(), "https://api.weatherapi.com/v1/history.json");
}

#[test]
fn a_param_holds_its_name_and_value() {
    let param = Param::new("q", "Paris, France");
    assert_eq!(param.name, "q");
    assert_eq!(param.value, "Paris, France");
}

#[test]
fn api_ninjas_asks_for_the_city_with_the_key_in_a_header() {
    let request = ApiNinjas::new("SECRET").weather_request("Kyiv");
    assert_eq!(
        request,
        Request {
            endpoint: Endpoint::Weather,
            query: params(&[("city", "Kyiv")]),
            headers: params(&[("X-Api-Key", "SECRET")]),
        }
    );
}

#[test]
fn api_ninjas_ignores_the_date() {
    let provider = ApiNinjas::new("k");
    let today = day(2024, 6, 15);
    let expected = provider.weather_request("Oslo");
    for date in ["", "2024-06-15", "2020-01-01", "2030-01-01", "2024-13-40", "not-a-date"] {
        assert_eq!(provider.request_on("Oslo", date, today), Ok(expected.clone()));
        assert_eq!(provider.request("Oslo", date), Ok(expected.clone()));
    }
}

#[test]
fn weather_api_builds_its_requests() {
    let provider = WeatherApi::new("k1");
    assert_eq!(provider.current_request("Rome"), current("k1", "Rome"));
    assert_eq!(
        provider.forecast_request(Endpoint::Future, "Rome", "2031-01-02"),
        dated(Endpoint::Future, "k1", "Rome", "2031-01-02")
    );
    assert_eq!(
        provider.future_request("Rome", "2031-01-02"),
        dated(Endpoint::Future, "k1", "Rome", "2031-01-02")
    );
    assert_eq!(
        provider.historical_request("Rome", "2001-01-02"),
        dated(Endpoint::History, "k1", "Rome", "2001-01-02")
    );
}

#[test]
fn no_date_asks_for_the_conditions_now() {
    let provider = WeatherApi::new("k");
    for today in [day(2024, 6, 15), day(1, 1, 1), day(9999, 12, 31)] {
        assert_eq!(provider.request_on("Lviv", "", today), Ok(current("k", "Lviv")));
    }
    assert_eq!(provider.request("Lviv", ""), Ok(current("k", "Lviv")));
}

#[test]
fn the_date_of_today_asks_for_the_conditions_now() {
    let provider = WeatherApi::new("k");
    assert_eq!(
        provider.request_on("Lviv", "2024-06-15", day(2024, 6, 15)),
        Ok(current("k", "Lviv"))
    );
    assert_eq!(
        provider.dispatch("Lviv", day(2024, 6, 15), day(2024, 6, 15)),
        current("k", "Lviv")
    );
}

#[test]
fn an_earlier_date_asks_for_the_record() {
    let provider = WeatherApi::new("k");
    let today = day(2024, 6, 15);
    for date in ["2024-06-14", "2024-05-31", "2023-12-31", "0001-01-01"] {
        assert_eq!(
            provider.request_on("Lviv", date, today),
            Ok(dated(Endpoint::History, "k", "Lviv", date))
        );
    }
}

#[test]
fn a_later_date_asks_for_the_forecast() {
    let provider = WeatherApi::new("k");
    let today = day(2024, 6, 15);
    for date in ["2024-06-16", "2024-07-01", "2025-01-01", "9999-12-31"] {
        assert_eq!(
            provider.request_on("Lviv", date, today),
            Ok(dated(Endpoint::Future, "k", "Lviv", date))
        );
    }
}

#[test]
fn a_loosely_written_date_is_sent_in_the_strict_form() {
    let provider = WeatherApi::new("k");
    let today = day(2024, 6, 15);
    assert_eq!(
        provider.request_on("Lviv", "2024-1-5", today),
        Ok(dated(Endpoint::History, "k", "Lviv", "2024-01-05"))
    );
    assert_eq!(
        provider.request_on("Lviv", "+2030-7-9", today),
        Ok(dated(Endpoint::Future, "k", "Lviv", "2030-07-09"))
    );
    assert_eq!(provider.request_on("Lviv", "2024-6-15", today), Ok(current("k", "Lviv")));
}

#[test]
fn a_malformed_date_is_an_error_and_no_request() {
    let provider = WeatherApi::new("k");
    let today = day(2024, 6, 15);
    for date in ["2024-13-40", "not-a-date", "2023-02-29", "15-06-2024x", " "] {
        assert!(
            matches!(
                provider.request_on("Lviv", date, today),
                Err(WeatherError::InvalidDate(_))
            ),
            "{date:?}"
        );
        assert!(
            matches!(provider.request("Lviv", date), Err(WeatherError::InvalidDate(_))),
            "{date:?}"
        );
    }
}

#[test]
fn dispatch_writes_the_day_out() {
    let provider = WeatherApi::new("k");
    let today = day(2024, 6, 15);
    assert_eq!(
        provider.dispatch("Lviv", day(2024, 6, 16), today),
        dated(Endpoint::Future, "k", "Lviv", "2024-06-16")
    );
    assert_eq!(
        provider.dispatch("Lviv", day(987, 3, 4), today),
        dated(Endpoint::History, "k", "Lviv", "0987-03-04")
    );
    assert_eq!(
        provider.dispatch("Lviv", day(12000, 3, 4), today),
        dated(Endpoint::Future, "k", "Lviv", "+12000-03-04")
    );
}

#[test]
fn the_clock_places_distant_days() {
    let provider = WeatherApi::new("k");
    assert_eq!(
        provider.request("Lviv", "1900-01-01"),
        Ok(dated(Endpoint::History, "k", "Lviv", "1900-01-01"))
    );
    assert_eq!(
        provider.request("Lviv", "9999-12-31"),
        Ok(dated(Endpoint::Future, "k", "Lviv", "9999-12-31"))
    );
}

#[test]
fn the_local_date_of_now_asks_for_the_conditions_now() {
    let provider = WeatherApi::new("k");
    let before = chrono::Local::now().date_naive();
    let outcome = provider.request("Lviv", &before.to_string());
    let after = chrono::Local::now().date_naive();
    if before == after {
        assert_eq!(outcome, Ok(current("k", "Lviv")));
    }
}

#[test]
fn the_configuration_selects_the_provider() {
    let ninjas = Configuration { provider: ProviderType::ApiNinjas, api_key: "a".to_string() };
    assert!(matches!(ninjas.select(), Provider::ApiNinjas(_)));
    assert_eq!(
        ninjas.select().request("Oslo", "2020-01-01"),
        Ok(ApiNinjas::new("a").weather_request("Oslo"))
    );
    let weather_api =
        Configuration { provider: ProviderType::WeatherApi, api_key: "b".to_string() };
    assert!(matches!(weather_api.select(), Provider::WeatherApi(_)));
    assert_eq!(
        weather_api.select().request_on("Oslo", "2020-01-01", day(2024, 6, 15)),
        Ok(dated(Endpoint::History, "b", "Oslo", "2020-01-01"))
    );
    assert_eq!(weather_api.select().request("Oslo", ""), Ok(current("b", "Oslo")));
}

#[test]
fn the_default_configuration_names_weather_api_with_no_key() {
    assert_eq!(ProviderType::default(), ProviderType::WeatherApi);
    assert_eq!(
        Configuration::default(),
        Configuration { provider: ProviderType::WeatherApi, api_key: String::new() }
    );
}
