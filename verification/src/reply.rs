//! What a provider answered, and the line of text that is shown for it.
//!
//! The providers send numbers. They are held here as the text that shows
//! them, in the unit in which the provider sent them.

use vstd::prelude::*;
use vstd::string::StringExecFns;

verus! {

/// The weather at one moment.
#[derive(Debug, Clone, PartialEq, Eq)]
pub struct Conditions {
    pub temperature: String,
    pub humidity: String,
    pub wind_speed: String,
}

/// The weather of one day, in averages and a maximum.
#[derive(Debug, Clone, PartialEq, Eq)]
pub struct DayAverages {
    pub temperature: String,
    pub humidity: String,
    pub max_wind_speed: String,
}

/// A decoded reply: the conditions now, or the days of a forecast or record.
#[derive(Debug, Clone, PartialEq, Eq)]
pub enum Reply {
    Conditions(Conditions),
    Forecast(Vec<DayAverages>),
}

impl Conditions {
    /// The line that shows these conditions.
    pub open spec fn summary_text(&self) -> Seq<char> {
        "Temperature: "@ + self.temperature@ + ", humidity: "@ + self.humidity@
            + ", wind speed: "@ + self.wind_speed@
    }

    /// The line that shows these conditions.
    pub fn summary(&self) -> (line: String)
        ensures
            line@ == self.summary_text(),
    {
        let mut line = "Temperature: ".to_owned();
        line.append(self.temperature.as_str());
        line.append(", humidity: ");
        line.append(self.humidity.as_str());
        line.append(", wind speed: ");
        line.append(self.wind_speed.as_str());
        line
    }
}

impl DayAverages {
    /// The line that shows this day.
    pub open spec fn summary_text(&self) -> Seq<char> {
        "Average temperature: "@ + self.temperature@ + ", average humidity: "@ + self.humidity@
            + ", max wind speed: "@ + self.max_wind_speed@
    }

    /// The line that shows this day.
    pub fn summary(&self) -> (line: String)
        ensures
            line@ == self.summary_text(),
    {
        let mut line = "Average temperature: ".to_owned();
        line.append(self.temperature.as_str());
        line.append(", average humidity: ");
        line.append(self.humidity.as_str());
        line.append(", max wind speed: ");
        line.append(self.max_wind_speed.as_str());
        line
    }
}

/// The line that shows a forecast or record: its first day, and `No data`
/// where it has no day.
pub open spec fn forecast_summary_text(days: Seq<DayAverages>) -> Seq<char> {
    if days.len() == 0 {
        "No data"@
    } else {
        days[0].summary_text()
    }
}

/// The line that shows a forecast or record: its first day, and `No data`
/// where it has no day. An empty list is no failure.
pub fn forecast_summary(days: &Vec<DayAverages>) -> (line: String)
    ensures
        line@ == forecast_summary_text(days@),
        days@.len() == 0 ==> line@ == "No data"@,
{
    if days.len() == 0 {
        "No data".to_owned()
    } else {
        days[0].summary()
    }
}

impl Reply {
    /// The line that shows this reply.
    pub open spec fn summary_text(&self) -> Seq<char> {
        match self {
            Reply::Conditions(conditions) => conditions.summary_text(),
            Reply::Forecast(days) => forecast_summary_text(days@),
        }
    }

    /// The line that shows this reply.
    pub fn summary(&self) -> (line: String)
        ensures
            line@ == self.summary_text(),
    {
        match self {
            Reply::Conditions(conditions) => conditions.summary(),
            Reply::Forecast(days) => forecast_summary(days),
        }
    }
}

} // verus!
