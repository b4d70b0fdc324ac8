//! Collects GitHub Copilot usage metrics and republishes them as flat, tagged
//! time-series points.
//!
//! The library holds the decisions of that pipeline: how a dated usage
//! snapshot becomes a series of points, how a series is cut into batches, how
//! the metric namespace of a scope is formed, and how a run over the
//! enterprise scope and its teams proceeds when single scopes fail. Network
//! access is the caller's part: the library says which request to make next
//! and takes what came back.

pub mod clock;
pub mod handler;
pub mod models;
pub mod processors;
pub mod services;
pub mod settings;
pub mod text;
pub mod traces;

pub use models::github::CopilotMetrics;
