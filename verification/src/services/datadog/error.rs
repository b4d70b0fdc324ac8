//! Errors of the Datadog client.

use vstd::prelude::*;
use crate::text::{decimal, decimal_string, join2};
use vstd::string::StringExecFns;

verus! {

/// What can go wrong when metrics are sent to Datadog.
#[derive(Debug)]
pub enum DatadogError {
    /// The system time could not be read.
    TimeError(String),
    /// The request did not reach Datadog or its response did not arrive.
    Network(String),
    /// Datadog answered with an error status; the response body follows.
    HttpError(u16, String),
}

impl DatadogError {
    /// The error in words.
    pub open spec fn message_text(&self) -> Seq<char> {
        match self {
            DatadogError::TimeError(detail) => "Time error: "@ + detail@,
            DatadogError::Network(detail) => "Network error: "@ + detail@,
            DatadogError::HttpError(status, body) => "HTTP error "@ + decimal(*status as nat) + ": "@
                + body@,
        }
    }

    /// The error in words.
    pub fn message(&self) -> (text: String)
        ensures
            text@ == self.message_text(),
    {
        match self {
            DatadogError::TimeError(detail) => join2("Time error: ", detail.as_str()),
            DatadogError::Network(detail) => join2("Network error: ", detail.as_str()),
            DatadogError::HttpError(status, body) => {
                let mut text = String::from_str("HTTP error ");
                text.append(decimal_string(*status as u64).as_str());
                text.append(": ");
                text.append(body.as_str());
                text
            },
        }
    }
}

} // verus!
