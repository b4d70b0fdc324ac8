//! Datadog side of the pipeline: the point model, the flattening of usage
//! snapshots into points, and the batching of points into submissions.

pub mod client;
pub mod dispatch;
pub mod error;
pub mod flattening;
pub mod models;
pub mod totals;

pub use client::DatadogClient;
pub use error::DatadogError;
pub use models::{standard_tags, MetricPoint, MetricSeries};
