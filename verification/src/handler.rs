//! A run of the pipeline over the enterprise and its teams.
//!
//! A run goes through its scopes in order: the enterprise first, unless it
//! is skipped, then each team. For each scope it asks for the scope's
//! metrics, flattens what came back and delivers the points batch by batch.
//! A scope that fails is recorded and the run goes on with the next scope.
//!
//! The run itself talks to nobody. It says what is to be done next, a fetch
//! or a submission, and is told how that went.

use vstd::prelude::*;
use crate::models::github::CopilotMetrics;
use crate::processors::error::{AggregateError, ProcessError, TeamFailure};
use crate::processors::namespace::{namespace_of, resolve_namespace};
use crate::services::datadog::client::{DatadogClient, SubmitRequest};
use crate::services::datadog::dispatch::{lemma_chunk_sizes, Dispatch};
use crate::services::datadog::error::DatadogError;
use crate::services::datadog::flattening::{all_points, snapshot_points};
use crate::services::datadog::models::{point_views, MetricSeries, PointView};
use crate::services::datadog::totals::{snapshot_in_range, snapshots_in_range};
use crate::services::github::api::{GitHubClient, MetricsRequest};
use crate::services::github::error::GitHubError;
use crate::text::{owned_text, text_of};
use vstd::string::StringExecFns;

verus! {

/// The number of points in a full batch unless the configuration says
/// otherwise.
pub const DEFAULT_CHUNK_SIZE: usize = 100;

/// What a run is configured with.
#[derive(Debug)]
pub struct RunConfig {
    /// The namespace of the enterprise's metrics; a team's metrics go under
    /// `<namespace>.team.<slug>`.
    pub namespace: String,
    /// The teams to process, in this order.
    pub team_slugs: Vec<String>,
    /// Whether to leave the enterprise scope out and process the teams only.
    pub skip_enterprise: bool,
    /// Where given, the chat totals of each editor chat block are added under
    /// this namespace.
    pub rollup_namespace: Option<String>,
    /// The number of points in a full batch; at least one.
    pub chunk_size: usize,
    /// Where given, nothing is fetched and nothing is sent: this snapshot is
    /// flattened for every scope and the series are kept for inspection.
    pub injected_snapshot: Option<CopilotMetrics>,
}

impl Default for RunConfig {
    /// The configuration of a run over the enterprise alone, under the
    /// namespace `metrics.default`, in batches of 100.
    fn default() -> (config: RunConfig)
        ensures
            config.namespace@ == "metrics.default"@,
            config.team_slugs@.len() == 0,
            !config.skip_enterprise,
            config.rollup_namespace is None,
            config.chunk_size == DEFAULT_CHUNK_SIZE,
            config.injected_snapshot is None,
    {
        RunConfig {
            namespace: "metrics.default".to_string(),
            team_slugs: Vec::new(),
            skip_enterprise: false,
            rollup_namespace: None,
            chunk_size: DEFAULT_CHUNK_SIZE,
            injected_snapshot: None,
        }
    }
}

/// What a run needs done next.
#[derive(Debug)]
pub enum Action {
    /// Fetch the metrics of the current scope with this request.
    Fetch(MetricsRequest),
    /// Submit this batch of the current scope's points.
    Submit(SubmitRequest),
    /// Nothing: every scope has been processed.
    Finish,
}

/// What a run is told.
#[derive(Debug)]
pub enum Event {
    /// How the fetch went: the snapshots of the scope, or why there are none.
    Fetched(Result<Vec<CopilotMetrics>, GitHubError>),
    /// How the submission went.
    Submitted(Result<(), DatadogError>),
}

/// How a run ended.
#[derive(Debug)]
pub struct RunReport {
    /// Why the enterprise scope failed, if it did.
    pub enterprise_failure: Option<ProcessError>,
    /// The teams that failed and why, in the order of the teams.
    pub team_failures: Vec<TeamFailure>,
}

impl RunReport {
    /// Says whether every scope succeeded.
    pub fn succeeded(&self) -> (ok: bool)
        ensures
            ok == (self.enterprise_failure is None && self.team_failures@.len() == 0),
    {
        self.enterprise_failure.is_none() && self.team_failures.len() == 0
    }

    /// Splits the report in two: the result of the enterprise scope, and the
    /// result of the teams, which is an error that lists the failures where
    /// at least one team failed.
    pub fn into_results(self) -> (results: (Result<(), ProcessError>, Result<(), AggregateError>))
        ensures
            match self.enterprise_failure {
                Some(error) => results.0 == Err::<(), ProcessError>(error),
                None => results.0 is Ok,
            },
            self.team_failures@.len() == 0 ==> results.1 is Ok,
            self.team_failures@.len() > 0 ==> results.1 == Err::<(), AggregateError>(
                AggregateError { failures: self.team_failures },
            ),
    {
        let enterprise = match self.enterprise_failure {
            Some(error) => Err(error),
            None => Ok(()),
        };
        let teams = if self.team_failures.len() == 0 {
            Ok(())
        } else {
            Err(AggregateError { failures: self.team_failures })
        };
        (enterprise, teams)
    }
}

/// A run: its setup, how far it has come, and what has failed so far.
#[derive(Debug)]
pub struct Run {
    pub github: GitHubClient,
    pub datadog: DatadogClient,
    pub enterprise_id: String,
    pub config: RunConfig,
    /// The second that every point of the run is taken at.
    pub timestamp: i64,
    /// The date from which metrics are asked for.
    pub since_date: String,
    /// Whether the enterprise scope is still to be processed.
    pub enterprise_pending: bool,
    /// The number of teams processed so far.
    pub next_team: usize,
    /// The delivery of the current scope's points, while it is under way.
    pub dispatch: Option<Dispatch>,
    pub enterprise_failure: Option<ProcessError>,
    pub team_failures: Vec<TeamFailure>,
    /// With an injected snapshot: its series for each scope, in order.
    pub rehearsed: Vec<MetricSeries>,
}

impl Run {
    /// The rollup namespace, where the run has one.
    pub open spec fn rollup(&self) -> Option<Seq<char>> {
        owned_text(self.config.rollup_namespace)
    }

    /// Whether every scope has been processed.
    pub open spec fn finished(&self) -> bool {
        !self.enterprise_pending && self.next_team == self.config.team_slugs@.len()
    }

    /// The team that is being processed, or none while the enterprise is.
    pub open spec fn current_team(&self) -> Option<Seq<char>> {
        if self.enterprise_pending {
            None
        } else {
            Some(self.config.team_slugs@[self.next_team as int]@)
        }
    }

    /// The namespace of the scope that is being processed.
    pub open spec fn current_namespace(&self) -> Seq<char> {
        namespace_of(self.config.namespace@, self.current_team())
    }

    /// The number of scopes that are not finished yet.
    pub open spec fn scopes_left(&self) -> nat {
        let enterprise: nat = if self.enterprise_pending {
            1
        } else {
            0
        };
        (enterprise + self.config.team_slugs@.len() - self.next_team) as nat
    }

    /// The number of scopes that have failed so far.
    pub open spec fn failure_count(&self) -> nat {
        let enterprise: nat = if self.enterprise_failure is Some {
            1
        } else {
            0
        };
        enterprise + self.team_failures@.len()
    }

    /// The state of a run is in order: a delivery is under way only while a
    /// scope is being processed, and then it has a batch left; and no scope
    /// has failed that the run has not been at.
    pub open spec fn wf(&self) -> bool {
        &&& self.config.chunk_size > 0
        &&& self.next_team <= self.config.team_slugs@.len()
        &&& self.enterprise_pending ==> self.enterprise_failure is None && self.next_team == 0
        &&& self.team_failures@.len() <= self.next_team
        &&& self.dispatch matches Some(dispatch) ==> {
            &&& !self.finished()
            &&& dispatch.wf()
            &&& !dispatch.finished()
            &&& dispatch.chunk_size == self.config.chunk_size
        }
    }

    /// Whether the run can take the event: with a rollup namespace, the chat
    /// totals of fetched snapshots must be computable.
    pub open spec fn admits(&self, event: Event) -> bool {
        self.config.rollup_namespace is Some ==> (event matches Event::Fetched(Ok(metrics))
            ==> snapshots_in_range(metrics@))
    }

    /// Whether `self` has the setup of `before`.
    pub open spec fn same_setup(&self, before: Run) -> bool {
        &&& self.github == before.github
        &&& self.datadog == before.datadog
        &&& self.enterprise_id == before.enterprise_id
        &&& self.config == before.config
        &&& self.timestamp == before.timestamp
        &&& self.since_date == before.since_date
        &&& self.rehearsed == before.rehearsed
    }

    /// Whether `self` has the setup of `before`, whatever it has rehearsed.
    pub open spec fn same_setup_but_rehearsal(&self, before: Run) -> bool {
        &&& self.github == before.github
        &&& self.datadog == before.datadog
        &&& self.enterprise_id == before.enterprise_id
        &&& self.config == before.config
        &&& self.timestamp == before.timestamp
        &&& self.since_date == before.since_date
    }

    /// Whether `self` has the failures of `before` and no others.
    pub open spec fn same_failures(&self, before: Run) -> bool {
        &&& self.enterprise_failure == before.enterprise_failure
        &&& self.team_failures@ == before.team_failures@
    }

    /// Whether `self` is where `before` was, with nothing changed.
    pub open spec fn unchanged_from(&self, before: Run) -> bool {
        &&& self.enterprise_pending == before.enterprise_pending
        &&& self.next_team == before.next_team
        &&& self.same_failures(before)
        &&& match before.dispatch {
            Some(delivery) => self.delivers(delivery.series(), delivery.sent as nat),
            None => self.dispatch is None,
        }
    }

    /// Whether `self` is at the scope after the one `before` was at, with no
    /// delivery under way.
    pub open spec fn moved_on_from(&self, before: Run) -> bool {
        &&& self.dispatch is None
        &&& !self.enterprise_pending
        &&& self.next_team == if before.enterprise_pending {
            before.next_team as int
        } else {
            before.next_team + 1
        }
    }

    /// Whether `self` came from `before` by the success of the current scope.
    pub open spec fn succeeded_from(&self, before: Run) -> bool {
        &&& self.moved_on_from(before)
        &&& self.same_failures(before)
    }

    /// Whether `self` came from `before` by the failure of the current scope
    /// with `error`: the failure is recorded for that scope and the run has
    /// moved on.
    pub open spec fn failed_from(&self, before: Run, error: ProcessError) -> bool {
        &&& self.moved_on_from(before)
        &&& if before.enterprise_pending {
            &&& self.enterprise_failure == Some(error)
            &&& self.team_failures@ == before.team_failures@
        } else {
            &&& self.enterprise_failure == before.enterprise_failure
            &&& self.team_failures@ == before.team_failures@.push(
                TeamFailure {
                    team_slug: before.config.team_slugs@[before.next_team as int],
                    error,
                },
            )
        }
    }

    /// Whether `self` is delivering `series` with `sent` batches delivered.
    pub open spec fn delivers(&self, series: Seq<PointView>, sent: nat) -> bool {
        &&& self.dispatch matches Some(delivery)
        &&& delivery.wf()
        &&& delivery.series() == series
        &&& delivery.sent == sent
        &&& delivery.chunk_size == self.config.chunk_size
    }

    /// Whether `self` is at the scope `before` was at, delivering `series`
    /// with `sent` batches delivered.
    pub open spec fn delivering_from(&self, before: Run, series: Seq<PointView>, sent: nat) -> bool {
        &&& self.enterprise_pending == before.enterprise_pending
        &&& self.next_team == before.next_team
        &&& self.same_failures(before)
        &&& self.delivers(series, sent)
    }

    /// The step of a run: what `after` must be when `before` is told `event`.
    ///
    /// A finished run stays as it is, and so does a run told something it
    /// did not wait for. A fetch that failed fails the scope. Snapshots that
    /// were fetched are flattened under the scope's namespace: with no points
    /// the scope has succeeded, else their delivery starts. A batch that was
    /// accepted is followed by the next one, or by the success of the scope
    /// if it was the last. A batch that was refused fails the scope: the
    /// batches after it are not sent.
    pub open spec fn steps_to(before: Run, event: Event, after: Run) -> bool {
        &&& after.same_setup(before)
        &&& if before.finished() {
            after.unchanged_from(before)
        } else {
            match (before.dispatch, event) {
                (None, Event::Fetched(Err(error))) => after.failed_from(
                    before,
                    ProcessError::Fetch(error),
                ),
                (None, Event::Fetched(Ok(metrics))) => {
                    let series = all_points(
                        metrics@,
                        before.current_namespace(),
                        before.timestamp as int,
                        before.rollup(),
                    );
                    if series.len() == 0 {
                        after.succeeded_from(before)
                    } else {
                        after.delivering_from(before, series, 0)
                    }
                },
                (Some(delivery), Event::Submitted(Ok(_))) => {
                    if delivery.sent + 1 == delivery.batches().len() {
                        after.succeeded_from(before)
                    } else {
                        after.delivering_from(before, delivery.series(), (delivery.sent + 1) as nat)
                    }
                },
                (Some(delivery), Event::Submitted(Err(error))) => after.failed_from(
                    before,
                    ProcessError::Dispatch(delivery.sent, error),
                ),
                _ => after.unchanged_from(before),
            }
        }
    }

    /// Whether `action` is what the run needs done next: nothing if it has
    /// finished, the submission of the next batch if a delivery is under
    /// way, else the fetch of the current scope's metrics.
    pub open spec fn prescribes(&self, action: Action) -> bool {
        if self.finished() {
            action is Finish
        } else {
            match self.dispatch {
                Some(delivery) => {
                    &&& action matches Action::Submit(request)
                    &&& request.url@ == self.datadog.url()
                    &&& request.content_type@ == "application/json"@
                    &&& request.api_key@ == self.datadog.key()
                    &&& point_views(request.series@) == delivery.batches()[delivery.sent as int]
                },
                None => {
                    &&& action matches Action::Fetch(request)
                    &&& self.github.asks(request, self.since_date@)
                    &&& match self.current_team() {
                        None => {
                            &&& request.url@ == "https://api.github.com/enterprises/"@
                                + self.enterprise_id@ + "/copilot/metrics"@
                            &&& request.context@ == "enterprise"@
                        },
                        Some(slug) => {
                            &&& request.url@ == "https://api.github.com/enterprises/"@
                                + self.enterprise_id@ + "/team/"@ + slug + "/copilot/metrics"@
                            &&& request.context@ == "team"@
                        },
                    }
                },
            }
        }
    }

    /// Whether the run has not started on any scope yet.
    pub open spec fn fresh(&self) -> bool {
        &&& self.next_team == 0
        &&& self.dispatch is None
        &&& self.enterprise_failure is None
        &&& self.team_failures@.len() == 0
    }

    /// Whether the run was set up with these values.
    pub open spec fn set_up_with(
        &self,
        github: GitHubClient,
        datadog: DatadogClient,
        enterprise_id: Seq<char>,
        config: RunConfig,
        timestamp: i64,
        since_date: Seq<char>,
    ) -> bool {
        &&& self.github == github
        &&& self.datadog == datadog
        &&& self.enterprise_id@ == enterprise_id
        &&& self.config == config
        &&& self.timestamp == timestamp
        &&& self.since_date@ == since_date
    }

    /// The series of the injected snapshot for the run's scope number
    /// `index`, counted from zero in the order of the scopes.
    pub open spec fn rehearsal(&self, snapshot: CopilotMetrics, index: int) -> Seq<PointView> {
        let scope = if self.config.skip_enterprise {
            Some(self.config.team_slugs@[index]@)
        } else if index == 0 {
            None
        } else {
            Some(self.config.team_slugs@[index - 1]@)
        };
        snapshot_points(
            snapshot,
            namespace_of(self.config.namespace@, scope),
            self.timestamp as int,
            self.rollup(),
        )
    }

    /// Whether the run holds the series of the injected snapshot for each of
    /// its scopes, in order.
    pub open spec fn rehearsed_all(&self, snapshot: CopilotMetrics) -> bool {
        &&& self.rehearsed@.len() == self.config.team_slugs@.len() + if self.config.skip_enterprise {
            0int
        } else {
            1int
        }
        &&& forall|index: int|
            0 <= index < self.rehearsed@.len() ==> (#[trigger] self.rehearsed@[index])@
                == self.rehearsal(snapshot, index)
    }

    /// Sets up a run. Without an injected snapshot the run is at its first
    /// scope: the enterprise, or the first team if the enterprise is skipped.
    /// With an injected snapshot the run is over at once: the snapshot has
    /// been flattened for every scope, nothing is to be fetched or sent, and
    /// no scope has failed.
    pub fn start(
        github: GitHubClient,
        datadog: DatadogClient,
        enterprise_id: &str,
        config: RunConfig,
        timestamp: i64,
        since_date: &str,
    ) -> (run: Run)
        requires
            config.chunk_size > 0,
            config.rollup_namespace is Some ==> (config.injected_snapshot matches Some(snapshot)
                ==> snapshot_in_range(snapshot)),
        ensures
            run.wf(),
            run.set_up_with(github, datadog, enterprise_id@, config, timestamp, since_date@),
            run.dispatch is None,
            run.enterprise_failure is None,
            run.team_failures@.len() == 0,
            match config.injected_snapshot {
                None => {
                    &&& run.enterprise_pending == !config.skip_enterprise
                    &&& run.next_team == 0
                    &&& run.rehearsed@.len() == 0
                },
                Some(snapshot) => run.finished() && run.rehearsed_all(snapshot),
            },
    {
        let mut run = Run {
            github,
            datadog,
            enterprise_id: String::from_str(enterprise_id),
            config,
            timestamp,
            since_date: String::from_str(since_date),
            enterprise_pending: false,
            next_team: 0,
            dispatch: None,
            enterprise_failure: None,
            team_failures: Vec::new(),
            rehearsed: Vec::new(),
        };
        if run.config.injected_snapshot.is_none() {
            run.enterprise_pending = !run.config.skip_enterprise;
        } else {
            run.rehearse();
        }
        run
    }

    /// Flattens the injected snapshot for every scope, in order, and keeps
    /// the series.
    fn rehearse(&mut self)
        requires
            old(self).wf(),
            old(self).fresh(),
            !old(self).enterprise_pending,
            old(self).rehearsed@.len() == 0,
            old(self).config.injected_snapshot is Some,
            old(self).config.rollup_namespace is Some ==> snapshot_in_range(
                old(self).config.injected_snapshot->0,
            ),
        ensures
            final(self).wf(),
            final(self).same_setup_but_rehearsal(*old(self)),
            final(self).finished(),
            final(self).dispatch is None,
            final(self).same_failures(*old(self)),
            final(self).rehearsed_all(old(self).config.injected_snapshot->0),
    {
        let mut rehearsed: Vec<MetricSeries> = Vec::new();
        let teams = self.config.team_slugs.len();
        let mut done: usize = 0;
        match &self.config.injected_snapshot {
            None => {},
            Some(snapshot) => {
                let rollup = match &self.config.rollup_namespace {
                    Some(rollup) => Some(rollup.as_str()),
                    None => None,
                };
                if !self.config.skip_enterprise {
                    let namespace = resolve_namespace(self.config.namespace.as_str(), None);
                    rehearsed.push(
                        self.datadog.prepare_snapshot_metrics(
                            snapshot,
                            namespace.as_str(),
                            self.timestamp,
                            rollup,
                        ),
                    );
                }
                while done < teams
                    invariant
                        done <= teams,
                        teams == self.config.team_slugs@.len(),
                        self.config.injected_snapshot == Some(*snapshot),
                        text_of(rollup) == self.rollup(),
                        rollup is Some ==> snapshot_in_range(*snapshot),
                        rehearsed@.len() == done + if self.config.skip_enterprise {
                            0int
                        } else {
                            1int
                        },
                        forall|index: int|
                            0 <= index < rehearsed@.len() ==> (#[trigger] rehearsed@[index])@
                                == self.rehearsal(*snapshot, index),
                    decreases teams - done,
                {
                    let namespace = resolve_namespace(
                        self.config.namespace.as_str(),
                        Some(self.config.team_slugs[done].as_str()),
                    );
                    let series = self.datadog.prepare_snapshot_metrics(
                        snapshot,
                        namespace.as_str(),
                        self.timestamp,
                        rollup,
                    );
                    let ghost before = rehearsed@;
                    rehearsed.push(series);
                    assert forall|index: int| 0 <= index < rehearsed@.len() implies (
                    #[trigger] rehearsed@[index])@ == self.rehearsal(*snapshot, index) by {
                        if index < before.len() {
                            assert(rehearsed@[index] == before[index]);
                        }
                    }
                    done = done + 1;
                }
            },
        }
        self.rehearsed = rehearsed;
        self.next_team = teams;
    }

    /// A step never goes back and never skips a scope: it leaves the number
    /// of unfinished scopes as it is or lowers it by one. It records at most
    /// one failure, and only when it leaves a scope.
    pub proof fn lemma_step_leaves_at_most_one_scope(before: Run, event: Event, after: Run)
        requires
            before.wf(),
            Self::steps_to(before, event, after),
        ensures
            before.scopes_left() - 1 <= after.scopes_left() <= before.scopes_left(),
            before.failure_count() <= after.failure_count() <= before.failure_count() + 1,
            after.failure_count() - before.failure_count() <= before.scopes_left()
                - after.scopes_left(),
            after.scopes_left() == 0 <==> after.finished(),
    {
    }

    /// A scope that fails does not stop the run: whether the fetch failed or
    /// a batch was refused, the failure is recorded, the scope is left, and
    /// the run is ready for the next scope with no delivery under way.
    pub proof fn lemma_failed_scope_is_recorded_and_left(before: Run, event: Event, after: Run)
        requires
            before.wf(),
            !before.finished(),
            Self::steps_to(before, event, after),
            before.dispatch is None ==> event matches Event::Fetched(Err(_)),
            before.dispatch is Some ==> event matches Event::Submitted(Err(_)),
        ensures
            after.scopes_left() == before.scopes_left() - 1,
            after.failure_count() == before.failure_count() + 1,
            after.dispatch is None,
    {
    }

    /// A fetch that fails is recorded in words of its own: for the
    /// enterprise as `Failed to fetch enterprise metrics: ` and for a team as
    /// `Failed to fetch team metrics: `, each followed by the words of the
    /// GitHub error. The team's failure is the last of the list and carries
    /// the team's slug.
    pub proof fn lemma_failed_fetch_in_words(before: Run, error: GitHubError, after: Run)
        requires
            before.wf(),
            !before.finished(),
            before.dispatch is None,
            Self::steps_to(before, Event::Fetched(Err(error)), after),
        ensures
            before.enterprise_pending ==> {
                &&& after.enterprise_failure == Some(ProcessError::Fetch(error))
                &&& after.enterprise_failure->0.enterprise_message_text()
                    == "Failed to fetch enterprise metrics: "@ + error.message_text()
            },
            !before.enterprise_pending ==> {
                &&& after.team_failures@.len() == before.team_failures@.len() + 1
                &&& after.team_failures@.last().team_slug == before.config.team_slugs@[before.next_team as int]
                &&& after.team_failures@.last().message_text() == "Failed to fetch team metrics: "@
                    + error.message_text()
            },
    {
    }

    /// A batch that is refused is recorded with its index, counted from zero,
    /// and in the words of the Datadog error.
    pub proof fn lemma_refused_batch_in_words(before: Run, error: DatadogError, after: Run)
        requires
            before.wf(),
            !before.finished(),
            before.dispatch is Some,
            Self::steps_to(before, Event::Submitted(Err(error)), after),
        ensures
            before.enterprise_pending ==> {
                &&& after.enterprise_failure == Some(
                    ProcessError::Dispatch(before.dispatch->0.sent, error),
                )
                &&& after.enterprise_failure->0.enterprise_message_text() == error.message_text()
            },
            !before.enterprise_pending ==> {
                &&& after.team_failures@.len() == before.team_failures@.len() + 1
                &&& after.team_failures@.last().team_slug == before.config.team_slugs@[before.next_team as int]
                &&& after.team_failures@.last().error == ProcessError::Dispatch(
                    before.dispatch->0.sent,
                    error,
                )
                &&& after.team_failures@.last().message_text() == error.message_text()
            },
    {
    }

    /// A scope that succeeds records nothing: after the fetch of no points,
    /// or after the last batch was accepted, the scope is left and the
    /// failures are as they were.
    pub proof fn lemma_succeeded_scope_records_nothing(before: Run, event: Event, after: Run)
        requires
            before.wf(),
            !before.finished(),
            Self::steps_to(before, event, after),
            after.scopes_left() < before.scopes_left(),
            event matches Event::Fetched(Ok(_)) || event matches Event::Submitted(Ok(_)),
        ensures
            after.failure_count() == before.failure_count(),
            after.same_failures(before),
    {
    }

    /// Says whether every scope has been processed.
    pub fn is_finished(&self) -> (done: bool)
        ensures
            done == self.finished(),
    {
        !self.enterprise_pending && self.next_team == self.config.team_slugs.len()
    }

    /// Says whether the run can take the event.
    pub fn can_take(&self, event: &Event) -> (ok: bool)
        ensures
            ok == self.admits(*event),
    {
        if self.config.rollup_namespace.is_none() {
            return true;
        }
        match event {
            Event::Fetched(Ok(metrics)) => self.datadog.rollup_ready(metrics.as_slice()),
            _ => true,
        }
    }

    /// Says what the run needs done next.
    pub fn action(&self) -> (action: Action)
        requires
            self.wf(),
        ensures
            self.prescribes(action),
    {
        if self.is_finished() {
            return Action::Finish;
        }
        match &self.dispatch {
            Some(delivery) => Action::Submit(
                self.datadog.send_metrics_chunk(delivery.next_chunk()),
            ),
            None => {
                if self.enterprise_pending {
                    Action::Fetch(
                        self.github.fetch_enterprise_metrics(
                            self.enterprise_id.as_str(),
                            self.since_date.as_str(),
                        ),
                    )
                } else {
                    Action::Fetch(
                        self.github.fetch_team_metrics(
                            self.enterprise_id.as_str(),
                            self.config.team_slugs[self.next_team].as_str(),
                            self.since_date.as_str(),
                        ),
                    )
                }
            },
        }
    }

    /// Goes on to the next scope.
    fn move_on(&mut self)
        requires
            old(self).wf(),
            !old(self).finished(),
            old(self).dispatch is None,
        ensures
            final(self).wf(),
            final(self).same_setup(*old(self)),
            final(self).succeeded_from(*old(self)),
    {
        if self.enterprise_pending {
            self.enterprise_pending = false;
        } else {
            let teams = self.config.team_slugs.len();
            assert(self.next_team < teams);
            self.next_team = self.next_team + 1;
        }
    }

    /// Records the failure of the current scope and goes on to the next.
    fn fail(&mut self, error: ProcessError)
        requires
            old(self).wf(),
            !old(self).finished(),
            old(self).dispatch is None,
        ensures
            final(self).wf(),
            final(self).same_setup(*old(self)),
            final(self).failed_from(*old(self), error),
    {
        if self.enterprise_pending {
            self.enterprise_failure = Some(error);
            self.enterprise_pending = false;
        } else {
            let teams = self.config.team_slugs.len();
            assert(self.next_team < teams);
            let team_slug = self.config.team_slugs[self.next_team].clone();
            self.team_failures.push(TeamFailure { team_slug, error });
            self.next_team = self.next_team + 1;
        }
    }

    /// Flattens the snapshots of the current scope and starts their
    /// delivery; with no points to deliver, the scope has succeeded.
    fn deliver(&mut self, metrics: Vec<CopilotMetrics>)
        requires
            old(self).wf(),
            !old(self).finished(),
            old(self).dispatch is None,
            old(self).config.rollup_namespace is Some ==> snapshots_in_range(metrics@),
        ensures
            final(self).wf(),
            final(self).same_setup(*old(self)),
            ({
                let series = all_points(
                    metrics@,
                    old(self).current_namespace(),
                    old(self).timestamp as int,
                    old(self).rollup(),
                );
                if series.len() == 0 {
                    final(self).succeeded_from(*old(self))
                } else {
                    final(self).delivering_from(*old(self), series, 0)
                }
            }),
    {
        let team_slug = if self.enterprise_pending {
            None
        } else {
            Some(self.config.team_slugs[self.next_team].as_str())
        };
        let namespace = resolve_namespace(self.config.namespace.as_str(), team_slug);
        let rollup = match &self.config.rollup_namespace {
            Some(rollup) => Some(rollup.as_str()),
            None => None,
        };
        let delivery = self.datadog.send_metrics(
            metrics.as_slice(),
            namespace.as_str(),
            self.timestamp,
            rollup,
            self.config.chunk_size,
        );
        proof {
            lemma_chunk_sizes(delivery.series(), delivery.chunk_size as nat);
        }
        if delivery.is_finished() {
            self.move_on();
        } else {
            self.dispatch = Some(delivery);
        }
    }

    /// Takes note that the next batch of `delivery` was accepted: the batch
    /// after it follows, or the scope has succeeded if it was the last.
    fn resume(&mut self, delivery: Dispatch)
        requires
            old(self).wf(),
            !old(self).finished(),
            old(self).dispatch is None,
            delivery.wf(),
            !delivery.finished(),
            delivery.chunk_size == old(self).config.chunk_size,
        ensures
            final(self).wf(),
            final(self).same_setup(*old(self)),
            if delivery.sent + 1 == delivery.batches().len() {
                final(self).succeeded_from(*old(self))
            } else {
                final(self).delivering_from(
                    *old(self),
                    delivery.series(),
                    (delivery.sent + 1) as nat,
                )
            },
    {
        let mut delivery = delivery;
        delivery.advance();
        if delivery.is_finished() {
            self.move_on();
        } else {
            self.dispatch = Some(delivery);
        }
    }

    /// Tells the run how the last action went and says what it needs done
    /// next.
    pub fn step(&mut self, event: Event) -> (action: Action)
        requires
            old(self).wf(),
            old(self).admits(event),
        ensures
            final(self).wf(),
            Self::steps_to(*old(self), event, *final(self)),
            final(self).prescribes(action),
    {
        if !self.is_finished() {
            let delivery = self.dispatch.take();
            match delivery {
                None => match event {
                    Event::Fetched(Ok(metrics)) => {
                        self.deliver(metrics);
                    },
                    Event::Fetched(Err(error)) => {
                        self.fail(ProcessError::Fetch(error));
                    },
                    Event::Submitted(_) => {},
                },
                Some(delivery) => match event {
                    Event::Submitted(Ok(_)) => {
                        self.resume(delivery);
                    },
                    Event::Submitted(Err(error)) => {
                        self.fail(ProcessError::Dispatch(delivery.sent, error));
                    },
                    Event::Fetched(_) => {
                        self.dispatch = Some(delivery);
                    },
                },
            }
        }
        self.action()
    }

    /// Tells the run how the last action went if the run can take that, and
    /// says what it needs done next. A run that cannot take the event stays
    /// as it is and says nothing.
    pub fn try_step(&mut self, event: Event) -> (action: Option<Action>)
        requires
            old(self).wf(),
        ensures
            final(self).wf(),
            old(self).admits(event) ==> {
                &&& action is Some
                &&& Self::steps_to(*old(self), event, *final(self))
                &&& final(self).prescribes(action->0)
            },
            !old(self).admits(event) ==> action is None && *final(self) == *old(self),
    {
        if self.can_take(&event) {
            Some(self.step(event))
        } else {
            None
        }
    }

    /// Ends the run and hands out its failures.
    pub fn into_report(self) -> (report: RunReport)
        ensures
            report.enterprise_failure == self.enterprise_failure,
            report.team_failures == self.team_failures,
    {
        RunReport { enterprise_failure: self.enterprise_failure, team_failures: self.team_failures }
    }
}

} // verus!
