//! What the program shows for the outcome of a lookup, and how it ends.

use crate::error::WeatherError;
use vstd::prelude::*;
use vstd::string::StringExecFns;

verus! {

/// Where a line goes.
#[derive(Debug, Clone, Copy, PartialEq, Eq, Structural)]
pub enum Stream {
    /// Standard output.
    Output,
    /// Standard error.
    Error,
}

/// One line to print, where to print it, and the exit code of the process.
#[derive(Debug, Clone, PartialEq, Eq)]
pub struct Report {
    pub stream: Stream,
    pub line: String,
    pub exit_code: i32,
}

/// The line that tells the user of a failure which `detail` describes.
pub open spec fn failure_text(detail: Seq<char>) -> Seq<char> {
    "An application error occured: "@ + detail
        + ". Please, use correct input format or try again later."@
}

/// The report on the outcome of a lookup: the weather on standard output
/// and exit code 0, or the words for the failure on standard error and exit
/// code 1, whatever kind of failure it is.
pub fn report(outcome: &Result<String, WeatherError>) -> (report: Report)
    ensures
        match outcome {
            Ok(weather) => report.stream == Stream::Output && report.line@ == weather@
                && report.exit_code == 0,
            Err(error) => report.stream == Stream::Error && report.line@ == failure_text(
                error.detail_text(),
            ) && report.exit_code == 1,
        },
{
    match outcome {
        Ok(weather) => Report { stream: Stream::Output, line: weather.clone(), exit_code: 0 },
        Err(error) => {
            let mut line = "An application error occured: ".to_owned();
            line.append(error.detail());
            line.append(". Please, use correct input format or try again later.");
            Report { stream: Stream::Error, line, exit_code: 1 }
        },
    }
}

} // verus!
