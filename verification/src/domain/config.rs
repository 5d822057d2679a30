//! The configuration: which providers to poll, and the rules a
//! configuration has to meet.

use vstd::prelude::*;
use crate::text::{concat2, same_text};

verus! {

#[derive(Debug)]
pub struct Config {
    pub providers: Vec<ProviderConfig>,
}

#[derive(Debug)]
#[allow(inconsistent_fields)]
pub enum ProviderConfig {
    Github { token: TokenConfig, repos: Vec<GithubRepoConfig> },
    Gitlab { token: TokenConfig, repos: Vec<GitlabRepoConfig> },
}

/// The name of the environment variable that holds the access token.
#[derive(Debug)]
pub struct TokenConfig {
    pub env: String,
}

#[derive(Debug)]
pub struct GithubRepoConfig {
    pub name: String,
    pub main_branch: String,
    pub workflow: String,
}

#[derive(Debug)]
pub struct GitlabRepoConfig {
    pub name: String,
    pub main_branch: String,
}

/// Why a configuration could not be used. Each variant carries a text for
/// the user.
#[derive(Debug)]
pub enum ConfigError {
    Io(String),
    Parse(String),
    Validation(String),
}

impl ConfigError {
    /// The error as one line of text.
    pub open spec fn message_text(self) -> Seq<char> {
        match self {
            ConfigError::Io(detail) => "Failed to read config file: "@ + detail@,
            ConfigError::Parse(detail) => "Failed to parse config file: "@ + detail@,
            ConfigError::Validation(detail) => "Invalid config file: "@ + detail@,
        }
    }

    pub fn message(&self) -> (line: String)
        ensures
            line@ == self.message_text(),
    {
        match self {
            ConfigError::Io(detail) => concat2("Failed to read config file: ", detail.as_str()),
            ConfigError::Parse(detail) => concat2("Failed to parse config file: ", detail.as_str()),
            ConfigError::Validation(detail) => concat2("Invalid config file: ", detail.as_str()),
        }
    }
}

/// What a document says of one provider before it is decoded: its `type`,
/// if that is a string, and the length of `repos`, if that is a list.
#[derive(Debug)]
pub struct RawProvider {
    pub kind: Option<String>,
    pub repos: Option<usize>,
}

/// What a document says before it is decoded: its `providers`, if that is
/// a list.
#[derive(Debug)]
pub struct RawConfig {
    pub providers: Option<Vec<RawProvider>>,
}

/// How many repositories a provider tracks.
pub open spec fn repo_count(provider: ProviderConfig) -> nat {
    match provider {
        ProviderConfig::Github { token, repos } => repos@.len(),
        ProviderConfig::Gitlab { token, repos } => repos@.len(),
    }
}

/// What is wrong with a configuration, if anything: it names exactly one
/// provider, and that provider exactly one repository.
pub open spec fn complaint(config: Config) -> Option<Seq<char>> {
    if config.providers@.len() != 1 {
        Some("Only one provider is supported for now"@)
    } else if repo_count(config.providers@[0]) != 1 {
        Some("Only one repository is supported for now"@)
    } else {
        None
    }
}

/// Whether a provider type is one of the two that are known.
pub open spec fn is_known_kind(kind: Option<String>) -> bool {
    kind matches Some(name) && (name@ == "github"@ || name@ == "gitlab"@)
}

/// What is wrong with a document, if anything: it has a list of exactly
/// one provider, of a known type, with a list of exactly one repository.
pub open spec fn raw_complaint(raw: RawConfig) -> Option<Seq<char>> {
    match raw.providers {
        None => Some("At least one provider is required"@),
        Some(providers) => if providers@.len() != 1 {
            Some("Only one provider is supported for now"@)
        } else if !is_known_kind(providers@[0].kind) {
            Some("Only github or gitlab providers are supported for now"@)
        } else if providers@[0].repos != Some(1usize) {
            Some("Only one repository is supported for now"@)
        } else {
            None
        },
    }
}

/// A verdict as a result: no complaint is `Ok`, a complaint is a
/// `Validation` error with the complaint as its text.
pub open spec fn meets(verdict: Result<(), ConfigError>, complaint: Option<Seq<char>>) -> bool {
    match verdict {
        Ok(_) => complaint is None,
        Err(ConfigError::Validation(detail)) => complaint == Some(detail@),
        Err(_) => false,
    }
}

fn invalid(detail: &str) -> (verdict: Result<(), ConfigError>)
    ensures
        meets(verdict, Some(detail@)),
{
    Err(ConfigError::Validation(String::from_str(detail)))
}

pub fn validate_config_raw(raw: &RawConfig) -> (verdict: Result<(), ConfigError>)
    ensures
        meets(verdict, raw_complaint(*raw)),
{
    let providers = match &raw.providers {
        Some(providers) => providers,
        None => {
            return invalid("At least one provider is required");
        },
    };
    if providers.len() != 1 {
        return invalid("Only one provider is supported for now");
    }
    let provider = &providers[0];
    let known = match &provider.kind {
        Some(name) => same_text(name.as_str(), "github") || same_text(name.as_str(), "gitlab"),
        None => false,
    };
    if !known {
        return invalid("Only github or gitlab providers are supported for now");
    }
    let count: usize = match provider.repos {
        Some(count) => count,
        None => 0,
    };
    if count != 1 {
        return invalid("Only one repository is supported for now");
    }
    Ok(())
}

pub fn validate_config(config: &Config) -> (verdict: Result<(), ConfigError>)
    ensures
        meets(verdict, complaint(*config)),
{
    if config.providers.len() != 1 {
        return invalid("Only one provider is supported for now");
    }
    let count = match &config.providers[0] {
        ProviderConfig::Github { token, repos } => repos.len(),
        ProviderConfig::Gitlab { token, repos } => repos.len(),
    };
    if count != 1 {
        return invalid("Only one repository is supported for now");
    }
    Ok(())
}

} // verus!
