//! Requests for the usage metrics of the last thirty days.

use vstd::prelude::*;
use crate::services::github::api::{GitHubClient, MetricsRequest};
use crate::text::owned_text;

verus! {

/// How many days back the metrics are asked for.
pub const LOOKBACK_DAYS: i64 = 30;

/// The seconds in a day.
pub const SECONDS_PER_DAY: i64 = 86_400;

/// The moment that lies `seconds` seconds after the Unix epoch, written in
/// UTC by chrono after the pattern `format`; `None` where chrono has no date
/// for that moment.
pub uninterp spec fn utc_text(seconds: int, format: Seq<char>) -> Option<Seq<char>>;

/// The calendar date in UTC of the moment that lies `seconds` seconds after
/// the Unix epoch, as year, month and day.
pub open spec fn utc_date_text(seconds: int) -> Option<Seq<char>> {
    utc_text(seconds, "%Y-%m-%d"@)
}

/// Calls chrono's `DateTime::from_timestamp` with zero nanoseconds and, where
/// that gives a moment, writes it after the pattern through
/// `DateTime::format`. The result depends on the seconds and the pattern
/// alone; it is named `utc_text` and nothing more is said of it. The pattern
/// is the one of year, month and day, which chrono can always write.
#[verifier::external_body]
fn format_utc(seconds: i64, format: &str) -> (text: Option<String>)
    requires
        format@ == "%Y-%m-%d"@,
    ensures
        owned_text(text) == utc_text(seconds as int, format@),
{
    match chrono::DateTime::from_timestamp(seconds, 0) {
        Some(moment) => Some(moment.format(format).to_string()),
        None => None,
    }
}

/// The date from which metrics are asked for at the moment `now_seconds`:
/// the UTC date thirty days earlier. There is none where the clock reading
/// is so extreme that the earlier moment cannot be counted or has no date.
pub fn calculate_default_since_date(now_seconds: i64) -> (since: Option<String>)
    ensures
        since_date_of(now_seconds) == owned_text(since),
{
    match now_seconds.checked_sub(LOOKBACK_DAYS * SECONDS_PER_DAY) {
        Some(earlier) => format_utc(earlier, "%Y-%m-%d"),
        None => None,
    }
}

/// The text of the since-date at the moment `now_seconds`, where there is
/// one: the UTC date of the moment thirty days earlier.
pub open spec fn since_date_of(now_seconds: i64) -> Option<Seq<char>> {
    if now_seconds - LOOKBACK_DAYS * SECONDS_PER_DAY >= i64::MIN {
        utc_date_text(now_seconds - LOOKBACK_DAYS * SECONDS_PER_DAY)
    } else {
        None
    }
}

/// The request for the metrics of a whole enterprise over the thirty days
/// before `now_seconds`; none where that moment has no since-date.
pub fn get_enterprise_metrics(client: &GitHubClient, enterprise_id: &str, now_seconds: i64) -> (request:
    Option<MetricsRequest>)
    ensures
        request is Some <==> since_date_of(now_seconds) is Some,
        request matches Some(r) ==> {
            &&& r.url@ == "https://api.github.com/enterprises/"@ + enterprise_id@
                + "/copilot/metrics"@
            &&& r.context@ == "enterprise"@
            &&& client.asks(r, since_date_of(now_seconds)->0)
        },
{
    match calculate_default_since_date(now_seconds) {
        Some(since) => Some(client.fetch_enterprise_metrics(enterprise_id, since.as_str())),
        None => None,
    }
}

/// The request for the metrics of one team over the thirty days before
/// `now_seconds`; none where that moment has no since-date.
pub fn get_team_metrics(
    client: &GitHubClient,
    enterprise_id: &str,
    team_slug: &str,
    now_seconds: i64,
) -> (request: Option<MetricsRequest>)
    ensures
        request is Some <==> since_date_of(now_seconds) is Some,
        request matches Some(r) ==> {
            &&& r.url@ == "https://api.github.com/enterprises/"@ + enterprise_id@ + "/team/"@
                + team_slug@ + "/copilot/metrics"@
            &&& r.context@ == "team"@
            &&& client.asks(r, since_date_of(now_seconds)->0)
        },
{
    match calculate_default_since_date(now_seconds) {
        Some(since) => Some(client.fetch_team_metrics(enterprise_id, team_slug, since.as_str())),
        None => None,
    }
}

} // verus!
