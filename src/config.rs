//! The server settings read from the repository configuration.
use vstd::prelude::*;
use crate::error::{CiError, ConfigKey};
use crate::model::GitLabConfig;

verus! {

/// Assembles the settings from the values found for `gitlab.server`,
/// `gitlab.access-token` and `gitlab.project-name`. The first missing key,
/// in that order, is the error.
pub fn config_from_values(
    server: Option<String>,
    access_token: Option<String>,
    project_name: Option<String>,
) -> (r: Result<GitLabConfig, CiError>)
    ensures
        r is Ok <==> (server is Some && access_token is Some && project_name is Some),
        r is Ok ==> ({
            let c = r->Ok_0;
            &&& c.server@ == server->Some_0@
            &&& c.access_token@ == access_token->Some_0@
            &&& c.project_name@ == project_name->Some_0@
        }),
        server is None ==> r == Err::<GitLabConfig, CiError>(CiError::Config(ConfigKey::Server)),
        server is Some && access_token is None ==> r == Err::<GitLabConfig, CiError>(
            CiError::Config(ConfigKey::AccessToken),
        ),
        server is Some && access_token is Some && project_name is None ==> r == Err::<
            GitLabConfig,
            CiError,
        >(CiError::Config(ConfigKey::ProjectName)),
{
    let server = match server {
        Some(s) => s,
        None => { return Err(CiError::Config(ConfigKey::Server)); },
    };
    let access_token = match access_token {
        Some(s) => s,
        None => { return Err(CiError::Config(ConfigKey::AccessToken)); },
    };
    let project_name = match project_name {
        Some(s) => s,
        None => { return Err(CiError::Config(ConfigKey::ProjectName)); },
    };
    Ok(GitLabConfig { server, access_token, project_name })
}

/// The current branch from HEAD's short name, which a detached or unborn
/// HEAD may lack.
pub fn branch_from_shorthand(shorthand: Option<String>) -> (r: Result<String, CiError>)
    ensures
        r is Ok <==> shorthand is Some,
        r is Ok ==> r->Ok_0@ == shorthand->Some_0@,
        shorthand is None ==> r == Err::<String, CiError>(
            CiError::Repository(crate::error::RepoStep::BranchName),
        ),
{
    match shorthand {
        Some(s) => Ok(s),
        None => Err(CiError::Repository(crate::error::RepoStep::BranchName)),
    }
}

} // verus!
