//! The processors: runs over the enterprise, over one team and over a list
//! of teams, the namespace of each scope, and the errors of a run.

pub mod enterprise;
pub mod error;
pub mod namespace;
pub mod team;
