//! The ways a lookup can fail.

use vstd::prelude::*;

verus! {

/// Why a lookup gave no weather. Each kind carries the words that describe
/// the failure to the user.
#[derive(Debug, Clone, PartialEq, Eq)]
pub enum WeatherError {
    /// The stored configuration is missing or cannot be read.
    Configuration(String),
    /// The date argument could not be read as a date.
    InvalidDate(String),
    /// The request could not be sent, or no reply arrived.
    Transport(String),
    /// The provider answered with a status that is no success.
    Status(String),
    /// The reply did not have the expected shape.
    Response(String),
}

impl WeatherError {
    /// The words that describe the failure.
    pub open spec fn detail_text(&self) -> Seq<char> {
        match self {
            WeatherError::Configuration(detail) => detail@,
            WeatherError::InvalidDate(detail) => detail@,
            WeatherError::Transport(detail) => detail@,
            WeatherError::Status(detail) => detail@,
            WeatherError::Response(detail) => detail@,
        }
    }

    /// The words that describe the failure.
    pub fn detail(&self) -> (detail: &str)
        ensures
            detail@ == self.detail_text(),
    {
        match self {
            WeatherError::Configuration(detail) => detail.as_str(),
            WeatherError::InvalidDate(detail) => detail.as_str(),
            WeatherError::Transport(detail) => detail.as_str(),
            WeatherError::Status(detail) => detail.as_str(),
            WeatherError::Response(detail) => detail.as_str(),
        }
    }
}

} // verus!
