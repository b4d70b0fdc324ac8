//! The two services the pipeline talks to: GitHub, where the usage metrics
//! come from, and Datadog, where the flattened points go.

pub mod datadog;
pub mod github;
pub mod transport;
