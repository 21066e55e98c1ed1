use weather::error::WeatherError;
use weather::reply::forecast_summary;
use weather::reply::Conditions;
use weather::reply::DayAverages;
use weather::reply::Reply;
use weather::report::report;
use weather::report::Report;
use weather::report::Stream;

fn conditions(temperature: f32, humidity: f32, wind_speed: f32) -> Conditions {
    Conditions {
        temperature: temperature.to_string(),
        humidity: humidity.to_string(),
        wind_speed: wind_speed.to_string(),
    }
}

fn averages(temperature: f32, humidity: f32, max_wind_speed: f32) -> DayAverages {
    DayAverages {
        temperature: temperature.to_string(),
        humidity: humidity.to_string(),
        max_wind_speed: max_wind_speed.to_string(),
    }
}

#[test]
fn conditions_are_shown_in_one_line() {
    assert_eq!(
        conditions(20.5, 60.0, 10.0).summary(),
        "Temperature: 20.5, humidity: 60, wind speed: 10"
    );
    assert_eq!(
        Reply::Conditions(conditions(-3.25, 81.0, 0.0)).summary(),
        "Temperature: -3.25, humidity: 81, wind speed: 0"
    );
}

#[test]
fn the_first_day_of_a_forecast_is_shown() {
    let days = vec![averages(11.5, 70.0, 25.2), averages(30.0, 10.0, 1.0)];
    assert_eq!(
        forecast_summary(&days),
        "Average temperature: 11.5, average humidity: 70, max wind speed: 25.2"
    );
    assert_eq!(
        Reply::Forecast(days).summary(),
        "Average temperature: 11.5, average humidity: 70, max wind speed: 25.2"
    );
    assert_eq!(
        averages(1.0, 2.0, 3.0).summary(),
        "Average temperature: 1, average humidity: 2, max wind speed: 3"
    );
}

#[test]
fn an_empty_forecast_is_no_data_and_no_error() {
    assert_eq!(forecast_summary(&Vec::new()), "No data");
    assert_eq!(Reply::Forecast(Vec::new()).summary(), "No data");
    assert_eq!(
        report(&Ok(Reply::Forecast(Vec::new()).summary())),
        Report { stream: Stream::Output, line: "No data".to_string(), exit_code: 0 }
    );
}

#[test]
fn the_weather_goes_to_standard_output() {
    assert_eq!(
        report(&Ok("Temperature: 20.5, humidity: 60, wind speed: 10".to_string())),
        Report {
            stream: Stream::Output,
            line: "Temperature: 20.5, humidity: 60, wind speed: 10".to_string(),
            exit_code: 0,
        }
    );
}

#[test]
fn every_failure_goes_to_standard_error_with_exit_code_one() {
    let failures = [
        WeatherError::Configuration("Couldn't load configuration".to_string()),
        WeatherError::InvalidDate("input contains invalid characters".to_string()),
        WeatherError::Transport("Dns Failed".to_string()),
        WeatherError::Status("status code 403".to_string()),
        WeatherError::Response("missing field `current`".to_string()),
    ];
    for failure in failures {
        let detail = failure.detail().to_string();
        let shown = report(&Err(failure));
        assert_eq!(shown.stream, Stream::Error);
        assert_eq!(shown.exit_code, 1);
        assert_eq!(
            shown.line,
            format!(
                "An application error occured: {detail}. Please, use correct input format or try again later."
            )
        );
    }
}

#[test]
fn a_failure_is_described_by_its_detail() {
    assert_eq!(WeatherError::Configuration("z".to_string()).detail(), "z");
    assert_eq!(WeatherError::InvalidDate("a".to_string()).detail(), "a");
    assert_eq!(WeatherError::Transport("b".to_string()).detail(), "b");
    assert_eq!(WeatherError::Status("c".to_string()).detail(), "c");
    assert_eq!(WeatherError::Response("d".to_string()).detail(), "d");
}
