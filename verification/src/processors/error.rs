//! Errors of a run.

use vstd::prelude::*;
use crate::services::datadog::error::DatadogError;
use crate::services::github::error::GitHubError;
use crate::text::{decimal, decimal_string, join2};
use vstd::string::StringExecFns;

verus! {

/// Why the processing of one scope failed.
#[derive(Debug)]
pub enum ProcessError {
    /// The metrics of the scope could not be fetched.
    Fetch(GitHubError),
    /// A batch of the scope's points was refused; the index of the batch,
    /// counted from zero, and the reason follow. Earlier batches were
    /// delivered, later ones were not sent.
    Dispatch(usize, DatadogError),
}

impl ProcessError {
    /// The failure of the enterprise scope in words. A failed fetch is
    /// introduced as such; a refused batch is told in the words of the
    /// Datadog error.
    pub open spec fn enterprise_message_text(&self) -> Seq<char> {
        match self {
            ProcessError::Fetch(cause) => "Failed to fetch enterprise metrics: "@
                + cause.message_text(),
            ProcessError::Dispatch(_, cause) => cause.message_text(),
        }
    }

    /// The failure of a team in words. A failed fetch is introduced as such;
    /// a refused batch is told in the words of the Datadog error.
    pub open spec fn team_message_text(&self) -> Seq<char> {
        match self {
            ProcessError::Fetch(cause) => "Failed to fetch team metrics: "@ + cause.message_text(),
            ProcessError::Dispatch(_, cause) => cause.message_text(),
        }
    }

    /// The failure of the enterprise scope in words.
    pub fn enterprise_message(&self) -> (text: String)
        ensures
            text@ == self.enterprise_message_text(),
    {
        match self {
            ProcessError::Fetch(cause) => join2(
                "Failed to fetch enterprise metrics: ",
                cause.message().as_str(),
            ),
            ProcessError::Dispatch(_, cause) => cause.message(),
        }
    }

    /// The failure of a team in words.
    pub fn team_message(&self) -> (text: String)
        ensures
            text@ == self.team_message_text(),
    {
        match self {
            ProcessError::Fetch(cause) => join2(
                "Failed to fetch team metrics: ",
                cause.message().as_str(),
            ),
            ProcessError::Dispatch(_, cause) => cause.message(),
        }
    }
}

/// The failure of one team.
#[derive(Debug)]
pub struct TeamFailure {
    pub team_slug: String,
    pub error: ProcessError,
}

impl TeamFailure {
    /// The failure in words.
    pub open spec fn message_text(&self) -> Seq<char> {
        self.error.team_message_text()
    }

    /// The failure in words.
    pub fn message(&self) -> (text: String)
        ensures
            text@ == self.message_text(),
    {
        self.error.team_message()
    }
}

/// The failures of the teams of a run, in the order of the teams. There is
/// such an error only where at least one team failed.
#[derive(Debug)]
pub struct AggregateError {
    pub failures: Vec<TeamFailure>,
}

impl AggregateError {
    /// The error in words: how many teams failed.
    pub open spec fn message_text(&self) -> Seq<char> {
        "Failed to process "@ + decimal(self.failures@.len()) + " teams"@
    }

    /// The number of teams that failed.
    pub fn count(&self) -> (n: usize)
        ensures
            n == self.failures@.len(),
    {
        self.failures.len()
    }

    /// The error in words: how many teams failed.
    pub fn message(&self) -> (text: String)
        ensures
            text@ == self.message_text(),
    {
        let mut text = String::from_str("Failed to process ");
        text.append(decimal_string(self.failures.len() as u64).as_str());
        text.append(" teams");
        text
    }
}

} // verus!
