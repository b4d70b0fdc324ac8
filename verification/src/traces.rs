//! What holds of a run over many steps.
//!
//! A step says what one event does to a run. The laws here follow a run
//! through a whole scope and through a whole delivery: however a scope
//! fares, the run ends up at the next scope with at most that scope's failure
//! added, and a delivery whose batches are all accepted hands out, batch
//! after batch, exactly the points of the fetched snapshots.

use vstd::prelude::*;
use crate::handler::{Action, Event, Run};
use crate::models::github::CopilotMetrics;
use crate::processors::error::{AggregateError, ProcessError};
use crate::services::datadog::dispatch::{chunks, lemma_chunk_sizes, lemma_chunks_concatenate_to_series};
use crate::services::datadog::flattening::all_points;
use crate::services::datadog::models::{point_views, PointView};
use crate::text::decimal;

verus! {

/// Whether `after` comes from `before` by telling it the events in order.
pub open spec fn runs_to(before: Run, events: Seq<Event>, after: Run) -> bool
    decreases events.len(),
{
    if events.len() == 0 {
        after == before
    } else {
        exists|mid: Run|
            runs_to(before, events.drop_last(), mid) && #[trigger] Run::steps_to(
                mid,
                events.last(),
                after,
            )
    }
}

/// Whether `after` comes from `before` by telling it the events in order
/// without any of them taking the run out of the scope it is at.
pub open spec fn stays_to(before: Run, events: Seq<Event>, after: Run) -> bool
    decreases events.len(),
{
    if events.len() == 0 {
        after == before
    } else {
        exists|mid: Run|
            stays_to(before, events.drop_last(), mid) && #[trigger] Run::steps_to(
                mid,
                events.last(),
                after,
            ) && after.scopes_left() == before.scopes_left()
    }
}

/// Whether the events take the run through the scope it is at and no
/// further: the last of them takes the run out of the scope, the others
/// leave it there.
pub open spec fn processes_scope(before: Run, events: Seq<Event>, after: Run) -> bool {
    &&& events.len() > 0
    &&& exists|mid: Run|
        stays_to(before, events.drop_last(), mid) && #[trigger] Run::steps_to(
            mid,
            events.last(),
            after,
        ) && after.scopes_left() < before.scopes_left()
}

/// Whether `after` is at the scope `before` is at, with the same setup and
/// the same failures.
pub open spec fn same_place(before: Run, after: Run) -> bool {
    &&& after.same_setup(before)
    &&& after.enterprise_pending == before.enterprise_pending
    &&& after.next_team == before.next_team
    &&& after.same_failures(before)
}

/// A step leaves a run in order.
pub proof fn lemma_step_keeps_order(before: Run, event: Event, after: Run)
    requires
        before.wf(),
        Run::steps_to(before, event, after),
    ensures
        after.wf(),
{
    if let Some(delivery) = after.dispatch {
        lemma_chunk_sizes(delivery.series(), delivery.chunk_size as nat);
    }
}

/// A step that does not take the run out of its scope changes neither the
/// scope nor the failures.
pub proof fn lemma_step_within_scope(before: Run, event: Event, after: Run)
    requires
        before.wf(),
        Run::steps_to(before, event, after),
        after.scopes_left() == before.scopes_left(),
    ensures
        after.wf(),
        same_place(before, after),
{
    lemma_step_keeps_order(before, event, after);
}

/// Events that do not take the run out of its scope change neither the
/// scope nor the failures.
pub proof fn lemma_stays_in_place(before: Run, events: Seq<Event>, after: Run)
    requires
        before.wf(),
        stays_to(before, events, after),
    ensures
        after.wf(),
        same_place(before, after),
    decreases events.len(),
{
    if events.len() > 0 {
        let mid = choose|mid: Run|
            stays_to(before, events.drop_last(), mid) && #[trigger] Run::steps_to(
                mid,
                events.last(),
                after,
            ) && after.scopes_left() == before.scopes_left();
        lemma_stays_in_place(before, events.drop_last(), mid);
        lemma_step_within_scope(mid, events.last(), after);
    }
}

/// However a scope fares, it ends in one of two ways. Either it succeeds:
/// the run is at the next scope and its failures are as they were. Or it
/// fails: the run is at the next scope all the same, and the one failure is
/// recorded for the scope, as the enterprise's failure or, with the team's
/// slug, as the last of the teams' failures.
pub proof fn lemma_scope_succeeds_or_fails(before: Run, events: Seq<Event>, after: Run)
    requires
        before.wf(),
        processes_scope(before, events, after),
    ensures
        after.wf(),
        after.same_setup(before),
        after.moved_on_from(before),
        after.same_failures(before) || exists|error: ProcessError|
            #[trigger] after.failed_from(before, error),
{
    let mid = choose|mid: Run|
        stays_to(before, events.drop_last(), mid) && #[trigger] Run::steps_to(
            mid,
            events.last(),
            after,
        ) && after.scopes_left() < before.scopes_left();
    lemma_stays_in_place(before, events.drop_last(), mid);
    lemma_step_keeps_order(mid, events.last(), after);
    assert(!mid.finished());
    match (mid.dispatch, events.last()) {
        (None, Event::Fetched(Err(error))) => {
            assert(after.failed_from(before, ProcessError::Fetch(error)));
        },
        (Some(delivery), Event::Submitted(Err(error))) => {
            assert(after.failed_from(before, ProcessError::Dispatch(delivery.sent, error)));
        },
        _ => {
            assert(after.same_failures(before));
        },
    }
}

/// A scope that has been gone through, whether it succeeded or failed, is
/// followed by the next scope in order: unless the run has finished, what it
/// asks for next is the fetch of the metrics of the team that follows.
pub proof fn lemma_next_scope_is_attempted(
    before: Run,
    events: Seq<Event>,
    after: Run,
    action: Action,
)
    requires
        before.wf(),
        processes_scope(before, events, after),
        after.prescribes(action),
    ensures
        after.finished() ==> action is Finish,
        !after.finished() ==> {
            &&& action matches Action::Fetch(request)
            &&& after.next_team == if before.enterprise_pending {
                0int
            } else {
                before.next_team + 1
            }
            &&& request.url@ == "https://api.github.com/enterprises/"@ + before.enterprise_id@
                + "/team/"@ + before.config.team_slugs@[after.next_team as int]@
                + "/copilot/metrics"@
            &&& request.context@ == "team"@
            &&& after.github.asks(request, before.since_date@)
        },
{
    lemma_scope_succeeds_or_fails(before, events, after);
}

/// Of two teams, one fails and the other succeeds, in either order: the run
/// is over, and the teams' failures are exactly one, that of the team that
/// failed.
pub proof fn lemma_one_failure_of_two_teams(
    start: Run,
    first: Seq<Event>,
    between: Run,
    second: Seq<Event>,
    end: Run,
    error: ProcessError,
)
    requires
        start.wf(),
        !start.enterprise_pending,
        start.next_team == 0,
        start.config.team_slugs@.len() == 2,
        start.enterprise_failure is None,
        start.team_failures@.len() == 0,
        processes_scope(start, first, between),
        processes_scope(between, second, end),
        (between.failed_from(start, error) && end.same_failures(between)) || (
        between.same_failures(start) && end.failed_from(between, error)),
    ensures
        end.finished(),
        end.enterprise_failure is None,
        end.team_failures@.len() == 1,
        end.failure_count() == 1,
        end.team_failures@[0].error == error,
        (AggregateError { failures: end.team_failures }).message_text() == "Failed to process "@
            + decimal(1) + " teams"@,
        between.failed_from(start, error) ==> end.team_failures@[0].team_slug
            == start.config.team_slugs@[0],
        between.same_failures(start) ==> end.team_failures@[0].team_slug
            == start.config.team_slugs@[1],
{
    lemma_scope_succeeds_or_fails(start, first, between);
    lemma_scope_succeeds_or_fails(between, second, end);
}

/// The events of a delivery that goes well: the snapshots are fetched, then
/// `accepted` batches are accepted one after the other.
pub open spec fn fetched_and_accepted(metrics: Vec<CopilotMetrics>, accepted: nat) -> Seq<Event> {
    seq![Event::Fetched(Ok(metrics))] + Seq::new(accepted, |i: int| Event::Submitted(Ok(())))
}

/// The points of the snapshots fetched for the scope that `run` is at.
pub open spec fn scope_series(run: Run, metrics: Vec<CopilotMetrics>) -> Seq<PointView> {
    all_points(metrics@, run.current_namespace(), run.timestamp as int, run.rollup())
}

/// The batches of the snapshots fetched for the scope that `run` is at.
pub open spec fn scope_batches(run: Run, metrics: Vec<CopilotMetrics>) -> Seq<Seq<PointView>> {
    chunks(scope_series(run, metrics), run.config.chunk_size as nat)
}

/// Whether the action is the submission of exactly the points of `batch`.
pub open spec fn submits(action: Action, batch: Seq<PointView>) -> bool {
    action matches Action::Submit(request) && point_views(request.series@) == batch
}

/// A delivery that goes well hands out every batch in order. After the
/// snapshots of a scope were fetched and `accepted` batches were accepted,
/// the run is still at the scope and asks for the submission of batch number
/// `accepted`, if there is one; once every batch was accepted, the scope has
/// succeeded. The batches are those of the snapshots' points under the
/// scope's namespace, which for a team is `<root>.team.<slug>`, and put end
/// to end they are all of these points.
pub proof fn lemma_accepted_batches_are_the_scope_series(
    before: Run,
    metrics: Vec<CopilotMetrics>,
    accepted: nat,
    after: Run,
)
    requires
        before.wf(),
        !before.finished(),
        before.dispatch is None,
        accepted <= scope_batches(before, metrics).len(),
        runs_to(before, fetched_and_accepted(metrics, accepted), after),
    ensures
        after.wf(),
        after.same_setup(before),
        accepted < scope_batches(before, metrics).len() ==> {
            &&& same_place(before, after)
            &&& after.delivers(scope_series(before, metrics), accepted)
            &&& forall|action: Action| #[trigger]
                after.prescribes(action) ==> submits(
                    action,
                    scope_batches(before, metrics)[accepted as int],
                )
        },
        accepted == scope_batches(before, metrics).len() ==> after.succeeded_from(before),
        scope_batches(before, metrics).flatten() == scope_series(before, metrics),
        !before.enterprise_pending ==> before.current_namespace() == before.config.namespace@
            + ".team."@ + before.config.team_slugs@[before.next_team as int]@,
    decreases accepted,
{
    let series = scope_series(before, metrics);
    let size = before.config.chunk_size as nat;
    let events = fetched_and_accepted(metrics, accepted);
    lemma_chunk_sizes(series, size);
    lemma_chunks_concatenate_to_series(series, size);
    let last = choose|mid: Run|
        runs_to(before, events.drop_last(), mid) && #[trigger] Run::steps_to(
            mid,
            events.last(),
            after,
        );
    if accepted == 0 {
        assert(events.drop_last().len() == 0);
        assert(last == before);
        assert(events.last() == Event::Fetched(Ok(metrics)));
        lemma_step_keeps_order(before, events.last(), after);
    } else {
        assert(events.drop_last() =~= fetched_and_accepted(metrics, (accepted - 1) as nat));
        assert(events.last() == Event::Submitted(Ok(())));
        lemma_accepted_batches_are_the_scope_series(
            before,
            metrics,
            (accepted - 1) as nat,
            last,
        );
        lemma_step_keeps_order(last, events.last(), after);
        assert(!last.finished());
    }
}

} // verus!
