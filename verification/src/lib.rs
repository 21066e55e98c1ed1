//! The decision core of a command-line weather client.
//!
//! The crate performs no input or output. A lookup is split in two steps
//! around the one HTTP exchange that the caller performs: a provider turns an
//! address and a date into the [`request::Request`] to send, and the decoded
//! [`reply::Reply`] is turned into the line of text to show.

pub mod config;
pub mod date;
pub mod error;
pub mod providers;
pub mod reply;
pub mod report;
pub mod request;
