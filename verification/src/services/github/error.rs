//! Errors of the GitHub client.

use vstd::prelude::*;
use crate::text::{decimal, decimal_string, join2};
use vstd::string::StringExecFns;

verus! {

/// What can go wrong when metrics are fetched from GitHub.
#[derive(Debug)]
pub enum GitHubError {
    /// Status 401: the token was not accepted.
    Authentication(String),
    /// Status 403: the token lacks a permission.
    Authorization(String),
    /// Status 404: there is no such enterprise or team.
    NotFound(String),
    /// Status 422: the request was not valid.
    Validation(String),
    /// Status 429: too many requests.
    RateLimit(String),
    /// The request did not reach GitHub or its response did not arrive.
    Network(String),
    /// The response is not a list of snapshots; the kind of metrics asked
    /// for and the parser's complaint follow.
    ParseError(String, String),
    /// Any other error status, with the response body.
    HttpError(u16, String),
}

impl GitHubError {
    /// The error in words.
    pub open spec fn message_text(&self) -> Seq<char> {
        match self {
            GitHubError::Authentication(body) => "Authentication error: Invalid GitHub token - "@
                + body@,
            GitHubError::Authorization(body) => "Authorization error: Insufficient permissions - "@
                + body@,
            GitHubError::NotFound(body) => "Resource not found: "@ + body@,
            GitHubError::Validation(body) => "Validation error: "@ + body@,
            GitHubError::RateLimit(body) => "Rate limit exceeded: "@ + body@,
            GitHubError::Network(detail) => "Network error: "@ + detail@,
            GitHubError::ParseError(context, detail) => "Error parsing GitHub "@ + context@
                + " metrics: "@ + detail@,
            GitHubError::HttpError(status, body) => "HTTP error "@ + decimal(*status as nat) + ": "@
                + body@,
        }
    }

    /// The error in words.
    pub fn message(&self) -> (text: String)
        ensures
            text@ == self.message_text(),
    {
        match self {
            GitHubError::Authentication(body) => join2(
                "Authentication error: Invalid GitHub token - ",
                body.as_str(),
            ),
            GitHubError::Authorization(body) => join2(
                "Authorization error: Insufficient permissions - ",
                body.as_str(),
            ),
            GitHubError::NotFound(body) => join2("Resource not found: ", body.as_str()),
            GitHubError::Validation(body) => join2("Validation error: ", body.as_str()),
            GitHubError::RateLimit(body) => join2("Rate limit exceeded: ", body.as_str()),
            GitHubError::Network(detail) => join2("Network error: ", detail.as_str()),
            GitHubError::ParseError(context, detail) => {
                let mut text = String::from_str("Error parsing GitHub ");
                text.append(context.as_str());
                text.append(" metrics: ");
                text.append(detail.as_str());
                text
            },
            GitHubError::HttpError(status, body) => {
                let mut text = String::from_str("HTTP error ");
                text.append(decimal_string(*status as u64).as_str());
                text.append(": ");
                text.append(body.as_str());
                text
            },
        }
    }
}

} // verus!
