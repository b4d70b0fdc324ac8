//! Errors, requests, namespaces and the small pieces of text.

use ghrust::clock::{seconds_since_epoch, timestamp_of};
use ghrust::models::github::CopilotMetrics;
use ghrust::processors::error::{ProcessError, TeamFailure};
use ghrust::processors::namespace::resolve_namespace;
use ghrust::services::datadog::{DatadogClient, DatadogError};
use ghrust::services::github::api::FetchOutcome;
use ghrust::services::github::metrics::calculate_default_since_date;
use ghrust::services::github::{
    get_enterprise_metrics, get_team_metrics, GitHubClient, GitHubError,
};
use ghrust::services::transport::HttpFailure;
use ghrust::settings::parse_team_slugs;
use ghrust::text::{copy_strings, decimal_string, join2, join3};

#[test]
fn github_errors_in_words() {
    let body = || "b".to_string();
    assert_eq!(
        GitHubError::Authentication(body()).message(),
        "Authentication error: Invalid GitHub token - b"
    );
    assert_eq!(
        GitHubError::Authorization(body()).message(),
        "Authorization error: Insufficient permissions - b"
    );
    assert_eq!(GitHubError::NotFound(body()).message(), "Resource not found: b");
    assert_eq!(GitHubError::Validation(body()).message(), "Validation error: b");
    assert_eq!(GitHubError::RateLimit(body()).message(), "Rate limit exceeded: b");
    assert_eq!(GitHubError::Network(body()).message(), "Network error: b");
    assert_eq!(
        GitHubError::ParseError("team".to_string(), body()).message(),
        "Error parsing GitHub team metrics: b"
    );
    assert_eq!(GitHubError::HttpError(500, body()).message(), "HTTP error 500: b");
}

#[test]
fn datadog_errors_in_words() {
    assert_eq!(DatadogError::TimeError("t".to_string()).message(), "Time error: t");
    assert_eq!(DatadogError::Network("n".to_string()).message(), "Network error: n");
    assert_eq!(DatadogError::HttpError(403, "no".to_string()).message(), "HTTP error 403: no");
    assert_eq!(DatadogError::HttpError(0, String::new()).message(), "HTTP error 0: ");
}

#[test]
fn process_errors_in_words() {
    let fetch = ProcessError::Fetch(GitHubError::NotFound("x".to_string()));
    assert_eq!(fetch.team_message(), "Failed to fetch team metrics: Resource not found: x");
    assert_eq!(
        fetch.enterprise_message(),
        "Failed to fetch enterprise metrics: Resource not found: x"
    );
    let refused = ProcessError::Dispatch(12, DatadogError::HttpError(65535, "y".to_string()));
    assert_eq!(refused.team_message(), "HTTP error 65535: y");
    assert_eq!(refused.enterprise_message(), "HTTP error 65535: y");
    let failure = TeamFailure {
        team_slug: "pts".to_string(),
        error: ProcessError::Fetch(GitHubError::RateLimit("slow".to_string())),
    };
    assert_eq!(failure.message(), "Failed to fetch team metrics: Rate limit exceeded: slow");
}

#[test]
fn statuses_have_errors_of_their_own() {
    let client = GitHubClient::new("t");
    let of = |status: u16| client.handle_api_error(HttpFailure::Status(status, "b".to_string()));
    assert!(matches!(of(401), GitHubError::Authentication(b) if b == "b"));
    assert!(matches!(of(403), GitHubError::Authorization(b) if b == "b"));
    assert!(matches!(of(404), GitHubError::NotFound(b) if b == "b"));
    assert!(matches!(of(422), GitHubError::Validation(b) if b == "b"));
    assert!(matches!(of(429), GitHubError::RateLimit(b) if b == "b"));
    assert!(matches!(of(500), GitHubError::HttpError(500, b) if b == "b"));
    assert!(matches!(of(400), GitHubError::HttpError(400, _)));
    assert!(matches!(
        client.handle_api_error(HttpFailure::Transport("dns".to_string())),
        GitHubError::Network(d) if d == "dns"
    ));
}

fn one_snapshot() -> CopilotMetrics {
    CopilotMetrics {
        date: "2024-01-01".to_string(),
        total_active_users: None,
        total_engaged_users: None,
        copilot_ide_code_completions: None,
        copilot_ide_chat: None,
        copilot_dotcom_chat: None,
        copilot_dotcom_pull_requests: None,
    }
}

#[test]
fn the_outcome_of_a_fetch_is_read() {
    let client = GitHubClient::new("t");
    let parsed = client.fetch_result("team", FetchOutcome::Parsed(vec![one_snapshot()]));
    assert_eq!(parsed.unwrap()[0].date, "2024-01-01");
    let empty = client.fetch_result("team", FetchOutcome::Parsed(vec![]));
    assert!(empty.unwrap().is_empty());
    assert!(matches!(
        client.fetch_result("team", FetchOutcome::Unparsable("eof".to_string())),
        Err(GitHubError::ParseError(c, d)) if c == "team" && d == "eof"
    ));
    assert!(matches!(
        client.fetch_result("enterprise", FetchOutcome::Unreadable("reset".to_string())),
        Err(GitHubError::Network(d)) if d == "Failed to read response: reset"
    ));
    assert!(matches!(
        client.fetch_result(
            "enterprise",
            FetchOutcome::Failed(HttpFailure::Status(404, "gone".to_string()))
        ),
        Err(GitHubError::NotFound(b)) if b == "gone"
    ));
}

#[test]
fn the_outcome_of_a_submission_is_read() {
    let client = DatadogClient::new("k".to_string());
    assert!(client.submit_result(Ok(())).is_ok());
    assert!(matches!(
        client.submit_result(Err(HttpFailure::Status(400, "bad".to_string()))),
        Err(DatadogError::HttpError(400, b)) if b == "bad"
    ));
    assert!(matches!(
        client.submit_result(Err(HttpFailure::Transport("timeout".to_string()))),
        Err(DatadogError::Network(d)) if d == "timeout"
    ));
}

#[test]
fn requests_for_metrics() {
    let client = GitHubClient::new("ghp_x");
    let enterprise = client.fetch_enterprise_metrics("123", "2024-01-01");
    assert_eq!(enterprise.url, "https://api.github.com/enterprises/123/copilot/metrics");
    assert_eq!(enterprise.since, "2024-01-01");
    assert_eq!(enterprise.accept, "application/vnd.github+json");
    assert_eq!(enterprise.authorization, "Bearer ghp_x");
    assert_eq!(enterprise.api_version, "2022-11-28");
    assert_eq!(enterprise.connect_timeout_secs, 5);
    assert_eq!(enterprise.read_timeout_secs, 30);
    assert_eq!(enterprise.context, "enterprise");
    let team = client.fetch_team_metrics("123", "eng", "2024-02-02");
    assert_eq!(team.url, "https://api.github.com/enterprises/123/team/eng/copilot/metrics");
    assert_eq!(team.since, "2024-02-02");
    assert_eq!(team.context, "team");
    let other = client.fetch_metrics("https://example.test/x", "s", "c");
    assert_eq!(other.url, "https://example.test/x");
    assert_eq!(other.context, "c");
    assert_eq!(other.authorization, "Bearer ghp_x");
}

#[test]
fn metrics_are_asked_for_thirty_days_back() {
    assert_eq!(calculate_default_since_date(1_700_000_000).unwrap(), "2023-10-15");
    assert_eq!(calculate_default_since_date(30 * 86_400).unwrap(), "1970-01-01");
    assert_eq!(calculate_default_since_date(30 * 86_400 - 1).unwrap(), "1969-12-31");
    assert_eq!(calculate_default_since_date(0).unwrap(), "1969-12-02");
    assert!(calculate_default_since_date(i64::MIN).is_none());
    assert!(calculate_default_since_date(i64::MAX).is_none());

    let client = GitHubClient::new("t");
    let request = get_enterprise_metrics(&client, "9", 1_700_000_000).unwrap();
    assert_eq!(request.since, "2023-10-15");
    assert_eq!(request.url, "https://api.github.com/enterprises/9/copilot/metrics");
    let request = get_team_metrics(&client, "9", "pts", 1_709_251_200).unwrap();
    assert_eq!(request.since, "2024-01-31");
    assert_eq!(request.url, "https://api.github.com/enterprises/9/team/pts/copilot/metrics");
    assert!(get_enterprise_metrics(&client, "9", i64::MIN).is_none());
    assert!(get_team_metrics(&client, "9", "pts", i64::MAX).is_none());
}

#[test]
fn the_clock_gives_a_timestamp() {
    let client = DatadogClient::new("k".to_string());
    let now = client.current_timestamp().unwrap();
    assert!(now > 1_600_000_000);
    assert!(seconds_since_epoch().unwrap() >= now as u64);
    assert_eq!(client.timestamp_from(Ok(5)).unwrap(), 5);
    assert!(matches!(
        client.timestamp_from(Err("before epoch".to_string())),
        Err(DatadogError::TimeError(m)) if m == "before epoch"
    ));
    assert_eq!(timestamp_of(0), 0);
    assert_eq!(timestamp_of(i64::MAX as u64), i64::MAX);
    assert_eq!(timestamp_of(i64::MAX as u64 + 1), i64::MIN);
    assert_eq!(timestamp_of(u64::MAX), -1);
}

#[test]
fn namespaces_of_scopes() {
    assert_eq!(resolve_namespace("github.copilot", None), "github.copilot");
    assert_eq!(resolve_namespace("github.copilot", Some("pts")), "github.copilot.team.pts");
    assert_eq!(resolve_namespace("", Some("")), ".team.");
    assert_ne!(resolve_namespace("ns", Some("a")), resolve_namespace("ns", Some("b")));
    assert_ne!(resolve_namespace("ns", Some("a")), resolve_namespace("ns", Some("a.team.a")));
}

#[test]
fn team_slugs_are_read_from_a_line() {
    let none: Vec<String> = Vec::new();
    assert_eq!(parse_team_slugs("a,b"), vec!["a", "b"]);
    assert_eq!(parse_team_slugs("  alpha , beta team,\tgamma\n"), vec!["alpha", "beta team", "gamma"]);
    assert_eq!(parse_team_slugs(""), none);
    assert_eq!(parse_team_slugs(" , ,, "), none);
    assert_eq!(parse_team_slugs(","), none);
    assert_eq!(parse_team_slugs("solo"), vec!["solo"]);
    assert_eq!(parse_team_slugs(",x,"), vec!["x"]);
    assert_eq!(parse_team_slugs("é\u{a0}, ü "), vec!["é", "ü"]);
}

#[test]
fn numbers_in_decimal() {
    assert_eq!(decimal_string(0), "0");
    assert_eq!(decimal_string(7), "7");
    assert_eq!(decimal_string(10), "10");
    assert_eq!(decimal_string(1234567890), "1234567890");
    assert_eq!(decimal_string(u64::MAX), "18446744073709551615");
}

#[test]
fn pieces_of_text() {
    assert_eq!(join2("a", "b"), "ab");
    assert_eq!(join2("", ""), "");
    assert_eq!(join3("a", ".", "b"), "a.b");
    let list = vec!["x".to_string(), "y".to_string()];
    assert_eq!(copy_strings(&list), list);
}
