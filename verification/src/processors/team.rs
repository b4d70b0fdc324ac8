//! Processing the metrics of single teams of an enterprise.

use vstd::prelude::*;
use crate::handler::{Run, RunConfig, DEFAULT_CHUNK_SIZE};
use crate::services::datadog::client::DatadogClient;
use crate::services::github::api::GitHubClient;
use crate::text::{copy_strings, owned, text_of, texts};
use vstd::string::StringExecFns;

verus! {

/// Sets up a run over one team alone: the metrics of the team since
/// `since_date` are to be fetched with the GitHub token, flattened under
/// `<datadog_namespace>.team.<team_slug>` with every point taken at
/// `timestamp`, and delivered with the Datadog key in batches of 100. With a
/// rollup namespace the chat totals are added under it. No metrics at all
/// is a success with nothing delivered. A run with another batch size or
/// with an injected snapshot is set up with `Run::start`.
pub fn process_team_metrics(
    github_token: &str,
    enterprise_id: &str,
    team_slug: &str,
    datadog_api_key: &str,
    datadog_namespace: &str,
    rollup_namespace: Option<&str>,
    timestamp: i64,
    since_date: &str,
) -> (run: Run)
    ensures
        run.wf(),
        run.fresh(),
        !run.enterprise_pending,
        run.github.token_text() == github_token@,
        run.datadog.key() == datadog_api_key@,
        run.datadog.url() == "https://api.datadoghq.eu/api/v2/series"@,
        run.enterprise_id@ == enterprise_id@,
        run.timestamp == timestamp,
        run.since_date@ == since_date@,
        run.config.namespace@ == datadog_namespace@,
        run.config.team_slugs@.len() == 1,
        texts(run.config.team_slugs@) == seq![team_slug@],
        run.rollup() == text_of(rollup_namespace),
        run.config.chunk_size == DEFAULT_CHUNK_SIZE,
        run.config.injected_snapshot is None,
        run.config.skip_enterprise == !run.enterprise_pending,
        run.rehearsed@.len() == 0,
{
    let github_client = GitHubClient::new(github_token);
    let datadog_client = DatadogClient::new(String::from_str(datadog_api_key));
    let mut team_slugs: Vec<String> = Vec::new();
    team_slugs.push(String::from_str(team_slug));
    assert(texts(team_slugs@) =~= seq![team_slug@]);
    let config = RunConfig {
        namespace: String::from_str(datadog_namespace),
        team_slugs,
        skip_enterprise: true,
        rollup_namespace: owned(rollup_namespace),
        chunk_size: DEFAULT_CHUNK_SIZE,
        injected_snapshot: None,
    };
    Run::start(github_client, datadog_client, enterprise_id, config, timestamp, since_date)
}

/// Sets up a run over a list of teams, in the order of the list. Each team
/// is processed as a team alone would be; a team that fails does not stop
/// the run, and the report of the run lists the teams that failed. A run
/// with another batch size or with an injected snapshot is set up with
/// `Run::start`.
pub fn process_all_teams(
    github_token: &str,
    enterprise_id: &str,
    team_slugs: &[String],
    datadog_api_key: &str,
    datadog_namespace: &str,
    rollup_namespace: Option<&str>,
    timestamp: i64,
    since_date: &str,
) -> (run: Run)
    ensures
        run.wf(),
        run.fresh(),
        !run.enterprise_pending,
        run.github.token_text() == github_token@,
        run.datadog.key() == datadog_api_key@,
        run.datadog.url() == "https://api.datadoghq.eu/api/v2/series"@,
        run.enterprise_id@ == enterprise_id@,
        run.timestamp == timestamp,
        run.since_date@ == since_date@,
        run.config.namespace@ == datadog_namespace@,
        run.config.team_slugs@.len() == team_slugs@.len(),
        texts(run.config.team_slugs@) == texts(team_slugs@),
        run.rollup() == text_of(rollup_namespace),
        run.config.chunk_size == DEFAULT_CHUNK_SIZE,
        run.config.injected_snapshot is None,
        run.config.skip_enterprise == !run.enterprise_pending,
        run.rehearsed@.len() == 0,
{
    let github_client = GitHubClient::new(github_token);
    let datadog_client = DatadogClient::new(String::from_str(datadog_api_key));
    let config = RunConfig {
        namespace: String::from_str(datadog_namespace),
        team_slugs: copy_strings(team_slugs),
        skip_enterprise: true,
        rollup_namespace: owned(rollup_namespace),
        chunk_size: DEFAULT_CHUNK_SIZE,
        injected_snapshot: None,
    };
    Run::start(github_client, datadog_client, enterprise_id, config, timestamp, since_date)
}

} // verus!
