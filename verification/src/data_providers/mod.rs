//! The providers, one kind for each backend, and how they are made from a
//! configuration.

pub mod cycle;
pub mod github;
pub mod gitlab;
pub mod schedule;
pub mod transport;

use vstd::prelude::*;
use crate::domain::config::{Config, GithubRepoConfig, GitlabRepoConfig, ProviderConfig};
use crate::domain::data_provider::{DataProvider, ProviderView, TrackedRepos};
use crate::domain::state_summary::{StateSummary, StateSummaryAdapter, StateSummaryGateway};
use crate::data_providers::cycle::Backend;
use crate::data_providers::schedule::{PollInterval, PollSchedule, DEFAULT_POLL_NANOS};
use crate::data_providers::transport::{FetchError, HttpRequest, RunRecord};

pub use github::{GithubProvider, GithubRepo};
pub use gitlab::{GitlabProvider, GitlabRepo};

verus! {

/// A provider of either kind.
pub enum Provider {
    Github(GithubProvider),
    Gitlab(GitlabProvider),
}

impl DataProvider for Provider {
    open spec fn model(&self) -> ProviderView {
        match self {
            Provider::Github(provider) => provider.model(),
            Provider::Gitlab(provider) => provider.model(),
        }
    }

    fn backend(&self) -> (backend: Backend) {
        match self {
            Provider::Github(provider) => provider.backend(),
            Provider::Gitlab(provider) => provider.backend(),
        }
    }

    fn token_env(&self) -> (name: &str) {
        match self {
            Provider::Github(provider) => provider.token_env(),
            Provider::Gitlab(provider) => provider.token_env(),
        }
    }

    fn stop_requested(&self) -> (raised: bool) {
        match self {
            Provider::Github(provider) => provider.stop_requested(),
            Provider::Gitlab(provider) => provider.stop_requested(),
        }
    }

    fn requests(&self, token: Option<&str>) -> (requests: Vec<Result<HttpRequest, FetchError>>) {
        match self {
            Provider::Github(provider) => provider.requests(token),
            Provider::Gitlab(provider) => provider.requests(token),
        }
    }

    fn poll_once<S: StateSummaryAdapter>(
        &self,
        fetched: &Vec<Result<Vec<RunRecord>, FetchError>>,
        gateway: &mut StateSummaryGateway<S>,
    ) -> (summary: Option<StateSummary>) {
        match self {
            Provider::Github(provider) => provider.poll_once(fetched, gateway),
            Provider::Gitlab(provider) => provider.poll_once(fetched, gateway),
        }
    }

    fn refresh(&mut self, fetched: &Vec<Result<Vec<RunRecord>, FetchError>>) -> (summary: Option<
        StateSummary,
    >) {
        match self {
            Provider::Github(provider) => provider.refresh(fetched),
            Provider::Gitlab(provider) => provider.refresh(fetched),
        }
    }

    fn start(&mut self) -> (schedule: Option<PollSchedule>) {
        match self {
            Provider::Github(provider) => provider.start(),
            Provider::Gitlab(provider) => provider.start(),
        }
    }

    fn stop(&mut self) -> (join: bool) {
        match self {
            Provider::Github(provider) => provider.stop(),
            Provider::Gitlab(provider) => provider.stop(),
        }
    }
}

/// The repository that a configuration entry names.
pub open spec fn github_repo_for(entry: GithubRepoConfig) -> github::GithubRepoView {
    github::GithubRepoView {
        name: entry.name@,
        main_branch: entry.main_branch@,
        workflow: entry.workflow@,
    }
}

/// The project that a configuration entry names.
pub open spec fn gitlab_repo_for(entry: GitlabRepoConfig) -> gitlab::GitlabRepoView {
    gitlab::GitlabRepoView { name: entry.name@, main_branch: entry.main_branch@ }
}

/// The provider that a configuration entry asks for: of the entry's kind,
/// with its token variable and its repositories in the order given, at the
/// backend's public address, polling once a minute, and stopped.
pub open spec fn provider_for(entry: ProviderConfig) -> ProviderView {
    match entry {
        ProviderConfig::Github { token, repos } => ProviderView {
            repos: TrackedRepos::Github(
                repos@.map_values(|repo: GithubRepoConfig| github_repo_for(repo)),
            ),
            token_env: token.env@,
            api_base_url: github::DEFAULT_GITHUB_API_BASE_URL@,
            poll_interval: PollInterval { nanos: DEFAULT_POLL_NANOS },
            stop_requested: false,
            worker_active: false,
        },
        ProviderConfig::Gitlab { token, repos } => ProviderView {
            repos: TrackedRepos::Gitlab(
                repos@.map_values(|repo: GitlabRepoConfig| gitlab_repo_for(repo)),
            ),
            token_env: token.env@,
            api_base_url: gitlab::DEFAULT_GITLAB_API_BASE_URL@,
            poll_interval: PollInterval { nanos: DEFAULT_POLL_NANOS },
            stop_requested: false,
            worker_active: false,
        },
    }
}

fn github_repos_from(entries: &Vec<GithubRepoConfig>) -> (repos: Vec<GithubRepo>)
    ensures
        github::repo_views(repos@) == entries@.map_values(
            |repo: GithubRepoConfig| github_repo_for(repo),
        ),
{
    let mut repos: Vec<GithubRepo> = Vec::new();
    let mut i: usize = 0;
    while i < entries.len()
        invariant
            i <= entries@.len(),
            repos@.len() == i,
            forall|j: int| 0 <= j < i ==> (#[trigger] repos@[j])@ == github_repo_for(entries@[j]),
        decreases entries@.len() - i,
    {
        let entry = &entries[i];
        repos.push(
            GithubRepo::new(entry.name.clone(), entry.main_branch.clone(), entry.workflow.clone()),
        );
        i += 1;
    }
    assert(github::repo_views(repos@) =~= entries@.map_values(
        |repo: GithubRepoConfig| github_repo_for(repo),
    ));
    repos
}

fn gitlab_repos_from(entries: &Vec<GitlabRepoConfig>) -> (repos: Vec<GitlabRepo>)
    ensures
        gitlab::repo_views(repos@) == entries@.map_values(
            |repo: GitlabRepoConfig| gitlab_repo_for(repo),
        ),
{
    let mut repos: Vec<GitlabRepo> = Vec::new();
    let mut i: usize = 0;
    while i < entries.len()
        invariant
            i <= entries@.len(),
            repos@.len() == i,
            forall|j: int| 0 <= j < i ==> (#[trigger] repos@[j])@ == gitlab_repo_for(entries@[j]),
        decreases entries@.len() - i,
    {
        let entry = &entries[i];
        repos.push(GitlabRepo::new(entry.name.clone(), entry.main_branch.clone()));
        i += 1;
    }
    assert(gitlab::repo_views(repos@) =~= entries@.map_values(
        |repo: GitlabRepoConfig| gitlab_repo_for(repo),
    ));
    repos
}

/// One provider for each entry of the configuration, in the order of the
/// entries.
pub fn providers_from_config(config: &Config) -> (providers: Vec<Provider>)
    ensures
        providers@.len() == config.providers@.len(),
        forall|i: int|
            0 <= i < providers@.len() ==> (#[trigger] providers@[i]).model() == provider_for(
                config.providers@[i],
            ),
        forall|i: int|
            0 <= i < providers@.len() ==> ((#[trigger] providers@[i]) is Github
                <==> config.providers@[i] is Github),
{
    let mut providers: Vec<Provider> = Vec::new();
    let mut i: usize = 0;
    while i < config.providers.len()
        invariant
            i <= config.providers@.len(),
            providers@.len() == i,
            forall|j: int|
                0 <= j < i ==> (#[trigger] providers@[j]).model() == provider_for(
                    config.providers@[j],
                ),
            forall|j: int|
                0 <= j < i ==> ((#[trigger] providers@[j]) is Github
                    <==> config.providers@[j] is Github),
        decreases config.providers@.len() - i,
    {
        match &config.providers[i] {
            ProviderConfig::Gitlab { token, repos } => {
                let watched = gitlab_repos_from(repos);
                providers.push(Provider::Gitlab(GitlabProvider::new(token.env.clone(), watched)));
            },
            ProviderConfig::Github { token, repos } => {
                let watched = github_repos_from(repos);
                providers.push(Provider::Github(GithubProvider::new(token.env.clone(), watched)));
            },
        }
        i += 1;
    }
    providers
}

} // verus!
