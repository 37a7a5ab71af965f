//! What can go wrong in a run, and the message shown for it.
use vstd::prelude::*;
use vstd::string::*;
use crate::url::{decimal, decimal_string};

verus! {

/// A key of the repository configuration that the tool reads.
#[derive(Clone, Copy, Debug, PartialEq, Eq, Structural)]
pub enum ConfigKey {
    Server,
    AccessToken,
    ProjectName,
}

/// The step at which the repository could not be read.
#[derive(Clone, Copy, Debug, PartialEq, Eq, Structural)]
pub enum RepoStep {
    Open,
    ReadConfig,
    ReadHead,
    BranchName,
}

/// The listing whose response could not be decoded.
#[derive(Clone, Copy, Debug, PartialEq, Eq, Structural)]
pub enum Listing {
    Pipelines,
    Jobs,
}

/// Every failure of a run; none is recovered from.
#[derive(Clone, Copy, Debug, PartialEq, Eq, Structural)]
pub enum CiError {
    /// The repository, its configuration or its HEAD could not be read.
    Repository(RepoStep),
    /// A required configuration key is missing.
    Config(ConfigKey),
    /// The server could not be reached.
    Network,
    /// The server answered with a status outside 200..=299.
    Api(u16),
    /// A successful response did not hold the expected records.
    Decode(Listing),
}

/// The configuration key's full name.
pub open spec fn key_name_spec(k: ConfigKey) -> Seq<char> {
    match k {
        ConfigKey::Server => "gitlab.server"@,
        ConfigKey::AccessToken => "gitlab.access-token"@,
        ConfigKey::ProjectName => "gitlab.project-name"@,
    }
}

/// The message shown for an error.
pub open spec fn message_spec(e: CiError) -> Seq<char> {
    match e {
        CiError::Repository(RepoStep::Open) => "Failed to open git repository"@,
        CiError::Repository(RepoStep::ReadConfig) => "Failed to get git config"@,
        CiError::Repository(RepoStep::ReadHead) => "Failed to get HEAD"@,
        CiError::Repository(RepoStep::BranchName) => "Failed to get branch name"@,
        CiError::Config(k) => key_name_spec(k) + " not found in .git/config"@,
        CiError::Network => "Failed to send request to GitLab API"@,
        CiError::Api(code) => "GitLab API request failed: "@ + decimal(code as nat),
        CiError::Decode(Listing::Pipelines) => "Failed to parse pipeline response"@,
        CiError::Decode(Listing::Jobs) => "Failed to parse jobs response"@,
    }
}

impl ConfigKey {
    /// The key's full name, as it stands in the repository configuration.
    pub fn name(&self) -> (r: &'static str)
        ensures
            r@ == key_name_spec(*self),
    {
        match self {
            ConfigKey::Server => "gitlab.server",
            ConfigKey::AccessToken => "gitlab.access-token",
            ConfigKey::ProjectName => "gitlab.project-name",
        }
    }
}

impl CiError {
    /// The message shown for this error.
    pub fn message(&self) -> (r: String)
        ensures
            r@ == message_spec(*self),
    {
        match self {
            CiError::Repository(RepoStep::Open) => String::from_str("Failed to open git repository"),
            CiError::Repository(RepoStep::ReadConfig) => String::from_str("Failed to get git config"),
            CiError::Repository(RepoStep::ReadHead) => String::from_str("Failed to get HEAD"),
            CiError::Repository(RepoStep::BranchName) => String::from_str(
                "Failed to get branch name",
            ),
            CiError::Config(k) => String::from_str(k.name()).concat(" not found in .git/config"),
            CiError::Network => String::from_str("Failed to send request to GitLab API"),
            CiError::Api(code) => {
                let digits = decimal_string(*code as u64);
                String::from_str("GitLab API request failed: ").concat(digits.as_str())
            },
            CiError::Decode(Listing::Pipelines) => String::from_str(
                "Failed to parse pipeline response",
            ),
            CiError::Decode(Listing::Jobs) => String::from_str("Failed to parse jobs response"),
        }
    }
}

/// The outcome of an HTTP status code: success for 200..=299, an API error
/// carrying the code otherwise.
pub fn check_http_status(code: u16) -> (r: Result<(), CiError>)
    ensures
        r is Ok <==> 200 <= code <= 299,
        r is Err ==> r == Err::<(), CiError>(CiError::Api(code)),
{
    if 200 <= code && code <= 299 {
        Ok(())
    } else {
        Err(CiError::Api(code))
    }
}

} // verus!
