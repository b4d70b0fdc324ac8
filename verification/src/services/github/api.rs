//! The GitHub client: which request fetches the usage metrics of a scope,
//! and what the outcome of such a request means.

use vstd::prelude::*;
use crate::models::github::CopilotMetrics;
use crate::services::github::error::GitHubError;
use crate::services::transport::HttpFailure;
use crate::text::{join2, join3};
use vstd::string::StringExecFns;

verus! {

/// A request for usage metrics: a GET of `url` with the query parameter
/// `since` and three headers, under two timeouts.
#[derive(Debug)]
pub struct MetricsRequest {
    pub url: String,
    /// Value of the query parameter `since`.
    pub since: String,
    /// Value of the header `Accept`.
    pub accept: String,
    /// Value of the header `Authorization`.
    pub authorization: String,
    /// Value of the header `X-GitHub-Api-Version`.
    pub api_version: String,
    pub connect_timeout_secs: u64,
    pub read_timeout_secs: u64,
    /// The kind of scope asked for: `enterprise` or `team`.
    pub context: String,
}

/// What became of a request for usage metrics.
#[derive(Debug)]
pub enum FetchOutcome {
    /// The response was a list of snapshots.
    Parsed(Vec<CopilotMetrics>),
    /// The response was not a list of snapshots; the parser's complaint.
    Unparsable(String),
    /// The response arrived but its body could not be read.
    Unreadable(String),
    /// The request failed.
    Failed(HttpFailure),
}

/// The error that a failed request stands for. The statuses 401, 403, 404,
/// 422 and 429 have errors of their own.
pub open spec fn api_error(failure: HttpFailure) -> GitHubError {
    match failure {
        HttpFailure::Status(status, body) => if status == 401 {
            GitHubError::Authentication(body)
        } else if status == 403 {
            GitHubError::Authorization(body)
        } else if status == 404 {
            GitHubError::NotFound(body)
        } else if status == 422 {
            GitHubError::Validation(body)
        } else if status == 429 {
            GitHubError::RateLimit(body)
        } else {
            GitHubError::HttpError(status, body)
        },
        HttpFailure::Transport(detail) => GitHubError::Network(detail),
    }
}

/// Whether `result` is what the outcome of a request for `context` metrics
/// means: the snapshots if they were parsed, else the error that says why
/// there are none.
pub open spec fn fetch_result_of(
    context: Seq<char>,
    outcome: FetchOutcome,
    result: Result<Vec<CopilotMetrics>, GitHubError>,
) -> bool {
    match outcome {
        FetchOutcome::Parsed(metrics) => result == Ok::<Vec<CopilotMetrics>, GitHubError>(metrics),
        FetchOutcome::Unparsable(detail) => result matches Err(GitHubError::ParseError(c, d))
            && c@ == context && d@ == detail@,
        FetchOutcome::Unreadable(detail) => result matches Err(GitHubError::Network(d)) && d@
            == "Failed to read response: "@ + detail@,
        FetchOutcome::Failed(failure) => result == Err::<Vec<CopilotMetrics>, GitHubError>(
            api_error(failure),
        ),
    }
}

/// A client for the Copilot metrics endpoints of the GitHub API.
#[derive(Clone, Debug)]
pub struct GitHubClient {
    token: String,
}

impl GitHubClient {
    /// The access token that the client authenticates with.
    pub closed spec fn token_text(&self) -> Seq<char> {
        self.token@
    }

    /// Makes a client with the given access token.
    pub fn new(token: &str) -> (client: GitHubClient)
        ensures
            client.token_text() == token@,
    {
        GitHubClient { token: String::from_str(token) }
    }

    /// The request for the metrics of a whole enterprise since `since_date`.
    pub fn fetch_enterprise_metrics(&self, enterprise_id: &str, since_date: &str) -> (request:
        MetricsRequest)
        ensures
            request.url@ == "https://api.github.com/enterprises/"@ + enterprise_id@
                + "/copilot/metrics"@,
            request.context@ == "enterprise"@,
            self.asks(request, since_date@),
    {
        let url = join3(
            "https://api.github.com/enterprises/",
            enterprise_id,
            "/copilot/metrics",
        );
        self.fetch_metrics(url.as_str(), since_date, "enterprise")
    }

    /// The request for the metrics of one team of an enterprise since
    /// `since_date`.
    pub fn fetch_team_metrics(&self, enterprise_id: &str, team_slug: &str, since_date: &str) -> (request:
        MetricsRequest)
        ensures
            request.url@ == "https://api.github.com/enterprises/"@ + enterprise_id@ + "/team/"@
                + team_slug@ + "/copilot/metrics"@,
            request.context@ == "team"@,
            self.asks(request, since_date@),
    {
        let mut url = join3("https://api.github.com/enterprises/", enterprise_id, "/team/");
        url.append(team_slug);
        url.append("/copilot/metrics");
        self.fetch_metrics(url.as_str(), since_date, "team")
    }

    /// Whether the request asks for the metrics since `since_date` in this
    /// client's name: in the JSON format of API version 2022-11-28, with the
    /// client's token as bearer, giving up on a connection after 5 seconds
    /// and on a response after 30.
    pub open spec fn asks(&self, request: MetricsRequest, since_date: Seq<char>) -> bool {
        &&& request.since@ == since_date
        &&& request.accept@ == "application/vnd.github+json"@
        &&& request.authorization@ == "Bearer "@ + self.token_text()
        &&& request.api_version@ == "2022-11-28"@
        &&& request.connect_timeout_secs == 5
        &&& request.read_timeout_secs == 30
    }

    /// The request for the metrics at `url` since `since_date`; `context`
    /// names the kind of scope.
    pub fn fetch_metrics(&self, url: &str, since_date: &str, context: &str) -> (request:
        MetricsRequest)
        ensures
            request.url@ == url@,
            request.context@ == context@,
            self.asks(request, since_date@),
    {
        MetricsRequest {
            url: String::from_str(url),
            since: String::from_str(since_date),
            accept: String::from_str("application/vnd.github+json"),
            authorization: join2("Bearer ", self.token.as_str()),
            api_version: String::from_str("2022-11-28"),
            connect_timeout_secs: 5,
            read_timeout_secs: 30,
            context: String::from_str(context),
        }
    }

    /// Names the error that a failed request stands for.
    pub fn handle_api_error(&self, failure: HttpFailure) -> (error: GitHubError)
        ensures
            error == api_error(failure),
    {
        match failure {
            HttpFailure::Status(status, body) => {
                if status == 401 {
                    GitHubError::Authentication(body)
                } else if status == 403 {
                    GitHubError::Authorization(body)
                } else if status == 404 {
                    GitHubError::NotFound(body)
                } else if status == 422 {
                    GitHubError::Validation(body)
                } else if status == 429 {
                    GitHubError::RateLimit(body)
                } else {
                    GitHubError::HttpError(status, body)
                }
            },
            HttpFailure::Transport(detail) => GitHubError::Network(detail),
        }
    }

    /// Reads the outcome of a request for `context` metrics: the snapshots,
    /// of which there may be none, or the error that says why there are none.
    pub fn fetch_result(&self, context: &str, outcome: FetchOutcome) -> (result: Result<
        Vec<CopilotMetrics>,
        GitHubError,
    >)
        ensures
            fetch_result_of(context@, outcome, result),
    {
        match outcome {
            FetchOutcome::Parsed(metrics) => Ok(metrics),
            FetchOutcome::Unparsable(detail) => Err(
                GitHubError::ParseError(String::from_str(context), detail),
            ),
            FetchOutcome::Unreadable(detail) => Err(
                GitHubError::Network(join2("Failed to read response: ", detail.as_str())),
            ),
            FetchOutcome::Failed(failure) => Err(self.handle_api_error(failure)),
        }
    }
}

} // verus!
