//! GitHub side of the pipeline: the requests for usage metrics and the
//! reading of what came back.

pub mod api;
pub mod error;
pub mod metrics;

pub use api::GitHubClient;
pub use error::GitHubError;
pub use metrics::{get_enterprise_metrics, get_team_metrics};
