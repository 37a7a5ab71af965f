//! Reports the CI status of the current branch of a git repository from a
//! GitLab server: the label table for statuses, the request URLs, the
//! configuration record and the decisions of one run.
pub mod config;
pub mod error;
pub mod flow;
pub mod model;
pub mod status;
pub mod url;
