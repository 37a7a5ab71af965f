//! The records of one run: the server settings, pipelines and jobs.
use vstd::prelude::*;

verus! {

/// Where the GitLab server is, how to authenticate with it, and which
/// project to ask about.
#[derive(Debug)]
pub struct GitLabConfig {
    pub server: String,
    pub access_token: String,
    pub project_name: String,
}

/// One CI pipeline as the server lists it.
#[derive(Debug)]
pub struct Pipeline {
    pub id: u64,
    pub status: String,
    pub ref_field: String,
    pub ref_name: String,
}

/// One job of a pipeline as the server lists it.
#[derive(Debug)]
pub struct Job {
    pub id: u64,
    pub status: String,
    pub name: String,
    pub stage: String,
}

} // verus!
