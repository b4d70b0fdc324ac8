//! Data structures shared by the services and the processors.

pub mod github;
