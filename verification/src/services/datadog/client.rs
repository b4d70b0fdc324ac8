//! The Datadog client: turns usage snapshots into series of points.

use vstd::prelude::*;
use crate::models::github::{
    CopilotDotcomChat, CopilotDotcomPullRequests, CopilotIdeChat, CopilotIdeCodeCompletions,
    CopilotMetrics, Editor, Language, Model, Repository,
};
use crate::services::datadog::flattening::{
    all_points, chat_total, code_completions_points, completions_part, core_points,
    dotcom_chat_part, dotcom_chat_points, dotcom_pr_points, editor_points, editors_points,
    ide_chat_part, ide_chat_points, language_points, languages_points, model_points,
    models_points, pull_requests_part, repositories_points, repository_points, rollup_points,
    snapshot_points, ChatCounter,
};
use crate::clock::{seconds_since_epoch, timestamp_of, wrapped};
use crate::services::datadog::dispatch::Dispatch;
use crate::services::datadog::error::DatadogError;
use crate::services::datadog::models::{standard_tags, MetricPoint, MetricSeries};
use crate::services::transport::HttpFailure;
use crate::services::datadog::totals::{
    checked_chat_total, rollup_in_range, snapshot_in_range, snapshots_in_range,
};
use crate::text::{copy_strings, join2, text_of, texts};

verus! {

/// Adds the points of one language entry.
fn add_language(
    series: &mut MetricSeries,
    language: &Language,
    path: &str,
    timestamp: i64,
    enclosing: &[String],
)
    ensures
        final(series)@ == old(series)@ + language_points(
            *language,
            path@,
            timestamp as int,
            texts(enclosing@),
        ),
{
    let mut tags = copy_strings(enclosing);
    tags.push(join2("language:", language.name.as_str()));
    assert(texts(tags@) =~= texts(enclosing@).push("language:"@ + language.name@));
    series.add_point(
        MetricPoint::new(
            join2(path, ".total_engaged_users"),
            language.total_engaged_users,
            timestamp,
            copy_strings(tags.as_slice()),
        ),
    );
    series.add_optional_i64_point(
        join2(path, ".total_code_suggestions"),
        language.total_code_suggestions,
        timestamp,
        tags.as_slice(),
    );
    series.add_optional_i64_point(
        join2(path, ".total_code_acceptances"),
        language.total_code_acceptances,
        timestamp,
        tags.as_slice(),
    );
    series.add_optional_i64_point(
        join2(path, ".total_code_lines_suggested"),
        language.total_code_lines_suggested,
        timestamp,
        tags.as_slice(),
    );
    series.add_optional_i64_point(
        join2(path, ".total_code_lines_accepted"),
        language.total_code_lines_accepted,
        timestamp,
        tags.as_slice(),
    );
}

/// Adds the points of a list of language entries.
fn add_languages(
    series: &mut MetricSeries,
    languages: &Vec<Language>,
    path: &str,
    timestamp: i64,
    enclosing: &[String],
)
    ensures
        final(series)@ == old(series)@ + languages_points(
            languages@,
            path@,
            timestamp as int,
            texts(enclosing@),
        ),
{
    let mut i: usize = 0;
    while i < languages.len()
        invariant
            i <= languages.len(),
            series@ == old(series)@ + languages_points(
                languages@.take(i as int),
                path@,
                timestamp as int,
                texts(enclosing@),
            ),
        decreases languages.len() - i,
    {
        add_language(series, &languages[i], path, timestamp, enclosing);
        assert(languages@.take(i + 1).drop_last() =~= languages@.take(i as int));
        i = i + 1;
    }
    assert(languages@.take(i as int) =~= languages@);
}

/// Adds the points of one model entry.
fn add_model(
    series: &mut MetricSeries,
    model: &Model,
    path: &str,
    timestamp: i64,
    enclosing: &[String],
)
    ensures
        final(series)@ == old(series)@ + model_points(
            *model,
            path@,
            timestamp as int,
            texts(enclosing@),
        ),
{
    let is_custom = if model.is_custom_model {
        "true"
    } else {
        "false"
    };
    let mut tags = copy_strings(enclosing);
    tags.push(join2("model:", model.name.as_str()));
    tags.push(join2("is_custom_model:", is_custom));
    assert(texts(tags@) =~= texts(enclosing@).push("model:"@ + model.name@).push(
        "is_custom_model:"@ + is_custom@,
    ));
    series.add_point(
        MetricPoint::new(
            join2(path, ".total_engaged_users"),
            model.total_engaged_users,
            timestamp,
            copy_strings(tags.as_slice()),
        ),
    );
    series.add_optional_i64_point(
        join2(path, ".total_chats"),
        model.total_chats,
        timestamp,
        tags.as_slice(),
    );
    series.add_optional_i64_point(
        join2(path, ".total_chat_insertion_events"),
        model.total_chat_insertion_events,
        timestamp,
        tags.as_slice(),
    );
    series.add_optional_i64_point(
        join2(path, ".total_chat_copy_events"),
        model.total_chat_copy_events,
        timestamp,
        tags.as_slice(),
    );
    series.add_optional_i64_point(
        join2(path, ".total_pr_summaries_created"),
        model.total_pr_summaries_created,
        timestamp,
        tags.as_slice(),
    );
}

/// Adds the points of a list of model entries.
fn add_models(
    series: &mut MetricSeries,
    models: &Vec<Model>,
    path: &str,
    timestamp: i64,
    enclosing: &[String],
)
    ensures
        final(series)@ == old(series)@ + models_points(
            models@,
            path@,
            timestamp as int,
            texts(enclosing@),
        ),
{
    let mut i: usize = 0;
    while i < models.len()
        invariant
            i <= models.len(),
            series@ == old(series)@ + models_points(
                models@.take(i as int),
                path@,
                timestamp as int,
                texts(enclosing@),
            ),
        decreases models.len() - i,
    {
        add_model(series, &models[i], path, timestamp, enclosing);
        assert(models@.take(i + 1).drop_last() =~= models@.take(i as int));
        i = i + 1;
    }
    assert(models@.take(i as int) =~= models@);
}

/// Adds the points of one editor entry and of its models.
fn add_editor(
    series: &mut MetricSeries,
    editor: &Editor,
    path: &str,
    timestamp: i64,
    enclosing: &[String],
)
    ensures
        final(series)@ == old(series)@ + editor_points(
            *editor,
            path@,
            timestamp as int,
            texts(enclosing@),
        ),
{
    let mut tags = copy_strings(enclosing);
    tags.push(join2("editor:", editor.name.as_str()));
    assert(texts(tags@) =~= texts(enclosing@).push("editor:"@ + editor.name@));
    series.add_point(
        MetricPoint::new(
            join2(path, ".total_engaged_users"),
            editor.total_engaged_users,
            timestamp,
            copy_strings(tags.as_slice()),
        ),
    );
    if let Some(models) = &editor.models {
        let models_path = join2(path, ".models");
        add_models(series, models, models_path.as_str(), timestamp, tags.as_slice());
    }
}

/// Adds the points of a list of editor entries.
fn add_editors(
    series: &mut MetricSeries,
    editors: &Vec<Editor>,
    path: &str,
    timestamp: i64,
    enclosing: &[String],
)
    ensures
        final(series)@ == old(series)@ + editors_points(
            editors@,
            path@,
            timestamp as int,
            texts(enclosing@),
        ),
{
    let mut i: usize = 0;
    while i < editors.len()
        invariant
            i <= editors.len(),
            series@ == old(series)@ + editors_points(
                editors@.take(i as int),
                path@,
                timestamp as int,
                texts(enclosing@),
            ),
        decreases editors.len() - i,
    {
        add_editor(series, &editors[i], path, timestamp, enclosing);
        assert(editors@.take(i + 1).drop_last() =~= editors@.take(i as int));
        i = i + 1;
    }
    assert(editors@.take(i as int) =~= editors@);
}

/// Adds the points of one repository entry and of its models.
fn add_repository(
    series: &mut MetricSeries,
    repository: &Repository,
    path: &str,
    timestamp: i64,
    enclosing: &[String],
)
    ensures
        final(series)@ == old(series)@ + repository_points(
            *repository,
            path@,
            timestamp as int,
            texts(enclosing@),
        ),
{
    let mut tags = copy_strings(enclosing);
    tags.push(join2("repository:", repository.name.as_str()));
    assert(texts(tags@) =~= texts(enclosing@).push("repository:"@ + repository.name@));
    series.add_point(
        MetricPoint::new(
            join2(path, ".total_engaged_users"),
            repository.total_engaged_users,
            timestamp,
            copy_strings(tags.as_slice()),
        ),
    );
    let models_path = join2(path, ".models");
    add_models(series, &repository.models, models_path.as_str(), timestamp, tags.as_slice());
}

/// Adds the points of a list of repository entries.
fn add_repositories(
    series: &mut MetricSeries,
    repositories: &Vec<Repository>,
    path: &str,
    timestamp: i64,
    enclosing: &[String],
)
    ensures
        final(series)@ == old(series)@ + repositories_points(
            repositories@,
            path@,
            timestamp as int,
            texts(enclosing@),
        ),
{
    let mut i: usize = 0;
    while i < repositories.len()
        invariant
            i <= repositories.len(),
            series@ == old(series)@ + repositories_points(
                repositories@.take(i as int),
                path@,
                timestamp as int,
                texts(enclosing@),
            ),
        decreases repositories.len() - i,
    {
        add_repository(series, &repositories[i], path, timestamp, enclosing);
        assert(repositories@.take(i + 1).drop_last() =~= repositories@.take(i as int));
        i = i + 1;
    }
    assert(repositories@.take(i as int) =~= repositories@);
}

/// The submission of one batch of points.
#[derive(Debug)]
pub struct SubmitRequest {
    pub url: String,
    /// Value of the header `Content-Type`.
    pub content_type: String,
    /// Value of the header `DD-API-KEY`.
    pub api_key: String,
    /// The points of the batch, in order.
    pub series: Vec<MetricPoint>,
}

/// What the outcome of a submission means.
pub open spec fn submit_result_of(outcome: Result<(), HttpFailure>) -> Result<(), DatadogError> {
    match outcome {
        Ok(_) => Ok(()),
        Err(HttpFailure::Status(status, body)) => Err(DatadogError::HttpError(status, body)),
        Err(HttpFailure::Transport(detail)) => Err(DatadogError::Network(detail)),
    }
}

/// A client for the Datadog series API of the EU site.
#[derive(Debug)]
pub struct DatadogClient {
    api_key: String,
    api_url: String,
}

impl DatadogClient {
    /// The key that the client authenticates with.
    pub closed spec fn key(&self) -> Seq<char> {
        self.api_key@
    }

    /// The address that the client submits series to.
    pub closed spec fn url(&self) -> Seq<char> {
        self.api_url@
    }

    /// Makes a client for the EU site with the given API key.
    pub fn new(api_key: String) -> (client: DatadogClient)
        ensures
            client.key() == api_key@,
            client.url() == "https://api.datadoghq.eu/api/v2/series"@,
    {
        let api_url = "https://api.datadoghq.eu/api/v2/series".to_string();
        DatadogClient { api_key, api_url }
    }

    /// The key that the client authenticates with.
    pub fn api_key(&self) -> (key: &str)
        ensures
            key@ == self.key(),
    {
        self.api_key.as_str()
    }

    /// The address that the client submits series to.
    pub fn api_url(&self) -> (url: &str)
        ensures
            url@ == self.url(),
    {
        self.api_url.as_str()
    }

    /// Reads the clock and gives the current Unix timestamp. Nothing is known
    /// of what the clock says; a clock that cannot be read gives a time
    /// error.
    pub fn current_timestamp(&self) -> (now: Result<i64, DatadogError>)
        ensures
            now matches Err(error) ==> error is TimeError,
    {
        let reading = seconds_since_epoch();
        self.timestamp_from(reading)
    }

    /// The Unix timestamp that a reading of the clock stands for: the seconds
    /// read, or a time error with the clock's complaint.
    pub fn timestamp_from(&self, reading: Result<u64, String>) -> (now: Result<i64, DatadogError>)
        ensures
            match reading {
                Ok(seconds) => now matches Ok(timestamp) && timestamp == wrapped(seconds),
                Err(complaint) => now == Err::<i64, DatadogError>(
                    DatadogError::TimeError(complaint),
                ),
            },
    {
        match reading {
            Ok(seconds) => Ok(timestamp_of(seconds)),
            Err(complaint) => Err(DatadogError::TimeError(complaint)),
        }
    }

    /// Prepares the delivery of a list of snapshots: flattens them under
    /// `namespace` and cuts the series into batches of `chunk_size` points.
    /// No batch has been delivered yet.
    pub fn send_metrics(
        &self,
        metrics: &[CopilotMetrics],
        namespace: &str,
        timestamp: i64,
        rollup_namespace: Option<&str>,
        chunk_size: usize,
    ) -> (dispatch: Dispatch)
        requires
            chunk_size > 0,
            rollup_namespace is Some ==> snapshots_in_range(metrics@),
        ensures
            dispatch.wf(),
            dispatch.sent == 0,
            dispatch.chunk_size == chunk_size,
            dispatch.series() == all_points(
                metrics@,
                namespace@,
                timestamp as int,
                text_of(rollup_namespace),
            ),
    {
        let all_series = self.prepare_all_metrics(metrics, namespace, timestamp, rollup_namespace);
        Dispatch::new(all_series, chunk_size)
    }

    /// The submission of one batch: a POST of the batch as JSON to the
    /// client's address, authenticated with the client's key.
    pub fn send_metrics_chunk(&self, series: Vec<MetricPoint>) -> (request: SubmitRequest)
        ensures
            request.url@ == self.url(),
            request.content_type@ == "application/json"@,
            request.api_key@ == self.key(),
            request.series == series,
    {
        SubmitRequest {
            url: self.api_url.clone(),
            content_type: "application/json".to_string(),
            api_key: self.api_key.clone(),
            series,
        }
    }

    /// Reads the outcome of a submission: an error status becomes an HTTP
    /// error with the response body, a failure on the way a network error.
    pub fn submit_result(&self, outcome: Result<(), HttpFailure>) -> (result: Result<
        (),
        DatadogError,
    >)
        ensures
            result == submit_result_of(outcome),
    {
        match outcome {
            Ok(()) => Ok(()),
            Err(HttpFailure::Status(status, body)) => Err(DatadogError::HttpError(status, body)),
            Err(HttpFailure::Transport(detail)) => Err(DatadogError::Network(detail)),
        }
    }

    /// Moves every point of `source` to the end of `target`, in order.
    pub fn merge_series(&self, target: &mut MetricSeries, source: &mut MetricSeries)
        ensures
            final(target)@ == old(target)@ + old(source)@,
            final(source)@ == Seq::<crate::services::datadog::models::PointView>::empty(),
    {
        let mut moved: Vec<MetricPoint> = Vec::new();
        std::mem::swap(&mut moved, &mut source.points);
        assert(source@ =~= Seq::<crate::services::datadog::models::PointView>::empty());
        target.points.append(&mut moved);
        assert(target@ =~= old(target)@ + old(source)@);
    }

    /// Flattens the code completions block of a snapshot dated `date`.
    pub fn prepare_ide_code_completions_metrics(
        &self,
        completions: &CopilotIdeCodeCompletions,
        namespace: &str,
        date: &str,
        timestamp: i64,
    ) -> (series: MetricSeries)
        ensures
            series@ == code_completions_points(*completions, namespace@, date@, timestamp as int),
    {
        let mut series = MetricSeries::new();
        let prefix = join2(namespace, ".ide.code_completions");
        let base_tags = standard_tags(date);
        series.add_point(
            MetricPoint::new(
                join2(prefix.as_str(), ".total_engaged_users"),
                completions.total_engaged_users,
                timestamp,
                copy_strings(base_tags.as_slice()),
            ),
        );
        if let Some(languages) = &completions.languages {
            let path = join2(prefix.as_str(), ".languages");
            add_languages(&mut series, languages, path.as_str(), timestamp, base_tags.as_slice());
        }
        if let Some(editors) = &completions.editors {
            let path = join2(prefix.as_str(), ".editors");
            add_editors(&mut series, editors, path.as_str(), timestamp, base_tags.as_slice());
        }
        series
    }

    /// Adds up the chat sessions, copy events and insertion events of every
    /// model of every editor, an absent counter counting as zero.
    pub fn calculate_ide_chat_totals(&self, ide_chat: &CopilotIdeChat) -> (totals: (i64, i64, i64))
        requires
            rollup_in_range(*ide_chat),
        ensures
            totals.0 == chat_total(*ide_chat, ChatCounter::Chats),
            totals.1 == chat_total(*ide_chat, ChatCounter::CopyEvents),
            totals.2 == chat_total(*ide_chat, ChatCounter::InsertionEvents),
    {
        let chats = checked_chat_total(ide_chat, ChatCounter::Chats);
        let copies = checked_chat_total(ide_chat, ChatCounter::CopyEvents);
        let insertions = checked_chat_total(ide_chat, ChatCounter::InsertionEvents);
        (chats.unwrap(), copies.unwrap(), insertions.unwrap())
    }

    /// Says whether the chat totals of the block can be added up, that is,
    /// whether `calculate_ide_chat_totals` may be called on it.
    pub fn ide_chat_totals_in_range(&self, ide_chat: &CopilotIdeChat) -> (in_range: bool)
        ensures
            in_range == rollup_in_range(*ide_chat),
    {
        checked_chat_total(ide_chat, ChatCounter::Chats).is_some() && checked_chat_total(
            ide_chat,
            ChatCounter::CopyEvents,
        ).is_some() && checked_chat_total(ide_chat, ChatCounter::InsertionEvents).is_some()
    }

    /// Flattens the editor chat block of a snapshot dated `date`. With a
    /// rollup namespace, the three chat totals are added under it.
    pub fn prepare_ide_chat_metrics(
        &self,
        ide_chat: &CopilotIdeChat,
        namespace: &str,
        date: &str,
        timestamp: i64,
        rollup_namespace: Option<&str>,
    ) -> (series: MetricSeries)
        requires
            rollup_namespace is Some ==> rollup_in_range(*ide_chat),
        ensures
            series@ == ide_chat_points(
                *ide_chat,
                namespace@,
                date@,
                timestamp as int,
                text_of(rollup_namespace),
            ),
    {
        let mut series = MetricSeries::new();
        let prefix = join2(namespace, ".ide.chat");
        let base_tags = standard_tags(date);
        series.add_point(
            MetricPoint::new(
                join2(prefix.as_str(), ".total_engaged_users"),
                ide_chat.total_engaged_users,
                timestamp,
                copy_strings(base_tags.as_slice()),
            ),
        );
        if let Some(editors) = &ide_chat.editors {
            let path = join2(prefix.as_str(), ".editors");
            add_editors(&mut series, editors, path.as_str(), timestamp, base_tags.as_slice());
        }
        if let Some(rollup) = rollup_namespace {
            let (total_chats, total_copies, total_insertions) = self.calculate_ide_chat_totals(
                ide_chat,
            );
            let ghost before = series@;
            series.add_point(
                MetricPoint::new(
                    join2(rollup, ".copilot_ide_chat.total_chats"),
                    total_chats,
                    timestamp,
                    copy_strings(base_tags.as_slice()),
                ),
            );
            series.add_point(
                MetricPoint::new(
                    join2(rollup, ".copilot_ide_chat.total_chat_copy_events"),
                    total_copies,
                    timestamp,
                    copy_strings(base_tags.as_slice()),
                ),
            );
            series.add_point(
                MetricPoint::new(
                    join2(rollup, ".copilot_ide_chat.total_chat_insertion_events"),
                    total_insertions,
                    timestamp,
                    base_tags,
                ),
            );
            assert(series@ =~= before + rollup_points(
                *ide_chat,
                rollup@,
                timestamp as int,
                crate::services::datadog::models::standard_tag_texts(date@),
            ));
        }
        series
    }

    /// Says whether every snapshot can be flattened with the rollup enabled,
    /// that is, whether the chat totals of each editor chat block can be
    /// computed.
    pub fn rollup_ready(&self, metrics: &[CopilotMetrics]) -> (ready: bool)
        ensures
            ready == snapshots_in_range(metrics@),
    {
        let mut i: usize = 0;
        while i < metrics.len()
            invariant
                i <= metrics.len(),
                snapshots_in_range(metrics@.take(i as int)),
            decreases metrics.len() - i,
        {
            if let Some(chat) = &metrics[i].copilot_ide_chat {
                if !self.ide_chat_totals_in_range(chat) {
                    assert(!snapshot_in_range(metrics@[i as int]));
                    return false;
                }
            }
            assert forall|j: int| 0 <= j < i + 1 implies snapshot_in_range(
                #[trigger] metrics@.take(i + 1)[j],
            ) by {
                if j < i {
                    assert(metrics@.take(i + 1)[j] == metrics@.take(i as int)[j]);
                }
            }
            i = i + 1;
        }
        assert(metrics@.take(i as int) =~= metrics@);
        true
    }

    /// Adds the two user counts of a snapshot, zero where the snapshot has
    /// none.
    fn add_core(
        &self,
        series: &mut MetricSeries,
        metric: &CopilotMetrics,
        namespace: &str,
        timestamp: i64,
    )
        ensures
            final(series)@ == old(series)@ + core_points(*metric, namespace@, timestamp as int),
    {
        let base_tags = standard_tags(metric.date.as_str());
        let active = match metric.total_active_users {
            Some(v) => v,
            None => 0,
        };
        let engaged = match metric.total_engaged_users {
            Some(v) => v,
            None => 0,
        };
        series.add_point(
            MetricPoint::new(
                join2(namespace, ".total_active_users"),
                active,
                timestamp,
                copy_strings(base_tags.as_slice()),
            ),
        );
        series.add_point(
            MetricPoint::new(join2(namespace, ".total_engaged_users"), engaged, timestamp, base_tags),
        );
    }

    /// Adds the points of one snapshot: the two user counts, zero where the
    /// snapshot has none, then the feature blocks that are present.
    fn add_snapshot(
        &self,
        series: &mut MetricSeries,
        metric: &CopilotMetrics,
        namespace: &str,
        timestamp: i64,
        rollup_namespace: Option<&str>,
    )
        requires
            rollup_namespace is Some ==> snapshot_in_range(*metric),
        ensures
            final(series)@ == old(series)@ + snapshot_points(
                *metric,
                namespace@,
                timestamp as int,
                text_of(rollup_namespace),
            ),
    {
        let date = metric.date.as_str();
        let ghost core = core_points(*metric, namespace@, timestamp as int);
        let ghost completions_part = completions_part(*metric, namespace@, timestamp as int);
        let ghost ide_chat_part = ide_chat_part(
            *metric,
            namespace@,
            timestamp as int,
            text_of(rollup_namespace),
        );
        let ghost dotcom_chat_part = dotcom_chat_part(*metric, namespace@, timestamp as int);
        let ghost pull_requests_part = pull_requests_part(*metric, namespace@, timestamp as int);

        self.add_core(series, metric, namespace, timestamp);
        if let Some(completions) = &metric.copilot_ide_code_completions {
            let mut subseries = self.prepare_ide_code_completions_metrics(
                completions,
                namespace,
                date,
                timestamp,
            );
            self.merge_series(series, &mut subseries);
        }
        assert(series@ =~= old(series)@ + (core + completions_part));
        if let Some(ide_chat) = &metric.copilot_ide_chat {
            let mut subseries = self.prepare_ide_chat_metrics(
                ide_chat,
                namespace,
                date,
                timestamp,
                rollup_namespace,
            );
            self.merge_series(series, &mut subseries);
        }
        assert(series@ =~= old(series)@ + (core + completions_part + ide_chat_part));
        if let Some(dotcom_chat) = &metric.copilot_dotcom_chat {
            let mut subseries = self.prepare_dotcom_chat_metrics(
                dotcom_chat,
                namespace,
                date,
                timestamp,
            );
            self.merge_series(series, &mut subseries);
        }
        assert(series@ =~= old(series)@ + (core + completions_part + ide_chat_part
            + dotcom_chat_part));
        if let Some(dotcom_pr) = &metric.copilot_dotcom_pull_requests {
            let mut subseries = self.prepare_dotcom_pr_metrics(
                dotcom_pr,
                namespace,
                date,
                timestamp,
            );
            self.merge_series(series, &mut subseries);
        }
        assert(series@ =~= old(series)@ + (core + completions_part + ide_chat_part
            + dotcom_chat_part + pull_requests_part));
    }

    /// Flattens one snapshot into a series, every metric name under
    /// `namespace` and every point taken at `timestamp`.
    pub fn prepare_snapshot_metrics(
        &self,
        metric: &CopilotMetrics,
        namespace: &str,
        timestamp: i64,
        rollup_namespace: Option<&str>,
    ) -> (series: MetricSeries)
        requires
            rollup_namespace is Some ==> snapshot_in_range(*metric),
        ensures
            series@ == snapshot_points(
                *metric,
                namespace@,
                timestamp as int,
                text_of(rollup_namespace),
            ),
    {
        let mut series = MetricSeries::new();
        self.add_snapshot(&mut series, metric, namespace, timestamp, rollup_namespace);
        series
    }

    /// Flattens a list of snapshots into one series, snapshot after snapshot,
    /// every metric name under `namespace` and every point taken at
    /// `timestamp`.
    pub fn prepare_all_metrics(
        &self,
        metrics: &[CopilotMetrics],
        namespace: &str,
        timestamp: i64,
        rollup_namespace: Option<&str>,
    ) -> (series: MetricSeries)
        requires
            rollup_namespace is Some ==> snapshots_in_range(metrics@),
        ensures
            series@ == all_points(
                metrics@,
                namespace@,
                timestamp as int,
                text_of(rollup_namespace),
            ),
    {
        let mut all_series = MetricSeries::new();
        let mut i: usize = 0;
        while i < metrics.len()
            invariant
                i <= metrics.len(),
                rollup_namespace is Some ==> snapshots_in_range(metrics@),
                all_series@ == all_points(
                    metrics@.take(i as int),
                    namespace@,
                    timestamp as int,
                    text_of(rollup_namespace),
                ),
            decreases metrics.len() - i,
        {
            self.add_snapshot(&mut all_series, &metrics[i], namespace, timestamp, rollup_namespace);
            assert(metrics@.take(i + 1).drop_last() =~= metrics@.take(i as int));
            i = i + 1;
        }
        assert(metrics@.take(i as int) =~= metrics@);
        all_series
    }

    /// Flattens the github.com chat block of a snapshot dated `date`.
    pub fn prepare_dotcom_chat_metrics(
        &self,
        chat: &CopilotDotcomChat,
        namespace: &str,
        date: &str,
        timestamp: i64,
    ) -> (series: MetricSeries)
        ensures
            series@ == dotcom_chat_points(*chat, namespace@, date@, timestamp as int),
    {
        let mut series = MetricSeries::new();
        let prefix = join2(namespace, ".dotcom.chat");
        let base_tags = standard_tags(date);
        series.add_point(
            MetricPoint::new(
                join2(prefix.as_str(), ".total_engaged_users"),
                chat.total_engaged_users,
                timestamp,
                copy_strings(base_tags.as_slice()),
            ),
        );
        if let Some(models) = &chat.models {
            let path = join2(prefix.as_str(), ".models");
            add_models(&mut series, models, path.as_str(), timestamp, base_tags.as_slice());
        }
        series
    }

    /// Flattens the pull requests block of a snapshot dated `date`.
    pub fn prepare_dotcom_pr_metrics(
        &self,
        pr: &CopilotDotcomPullRequests,
        namespace: &str,
        date: &str,
        timestamp: i64,
    ) -> (series: MetricSeries)
        ensures
            series@ == dotcom_pr_points(*pr, namespace@, date@, timestamp as int),
    {
        let mut series = MetricSeries::new();
        let prefix = join2(namespace, ".dotcom.pull_requests");
        let base_tags = standard_tags(date);
        series.add_point(
            MetricPoint::new(
                join2(prefix.as_str(), ".total_engaged_users"),
                pr.total_engaged_users,
                timestamp,
                copy_strings(base_tags.as_slice()),
            ),
        );
        if let Some(repositories) = &pr.repositories {
            let path = join2(prefix.as_str(), ".repositories");
            add_repositories(
                &mut series,
                repositories,
                path.as_str(),
                timestamp,
                base_tags.as_slice(),
            );
        }
        series
    }
}

} // verus!
