//! What every provider offers, whatever backend it polls.
//!
//! A provider decides; it neither sends requests nor runs threads. Whoever
//! drives it asks for the requests of a cycle, sends them, and hands back
//! what came of them. `start` and `stop` keep the books on the one worker a
//! provider may have.

use vstd::prelude::*;
use crate::domain::state_summary::{published, StateSummary, StateSummaryAdapter, StateSummaryGateway};
use crate::data_providers::cycle::{cycle_summary, Backend};
use crate::data_providers::github::{planned_runs_request, GithubRepoView};
use crate::data_providers::gitlab::{planned_pipelines_request, GitlabRepoView};
use crate::data_providers::schedule::{PollInterval, PollSchedule};
use crate::data_providers::transport::{
    request_view,
    token_view,
    FetchError,
    FetchErrorView,
    HttpRequest,
    HttpRequestView,
    RunRecord,
};

verus! {

/// The repositories a provider tracks, in configuration order.
pub enum TrackedRepos {
    Github(Seq<GithubRepoView>),
    Gitlab(Seq<GitlabRepoView>),
}

/// A provider as a plain value.
pub struct ProviderView {
    pub repos: TrackedRepos,
    /// The environment variable that holds the token. It is read at each
    /// cycle, never stored.
    pub token_env: Seq<char>,
    pub api_base_url: Seq<char>,
    pub poll_interval: PollInterval,
    /// The stop signal. Once raised it stays raised.
    pub stop_requested: bool,
    /// Whether a worker has been started and not stopped since.
    pub worker_active: bool,
}

impl ProviderView {
    pub open spec fn backend(self) -> Backend {
        match self.repos {
            TrackedRepos::Github(_) => Backend::Github,
            TrackedRepos::Gitlab(_) => Backend::Gitlab,
        }
    }

    /// The requests of one poll cycle, one for each repository in
    /// configuration order, given the token as the environment holds it.
    pub open spec fn planned_requests(self, token: Option<Seq<char>>) -> Seq<
        Result<HttpRequestView, FetchErrorView>,
    > {
        match self.repos {
            TrackedRepos::Github(repos) => repos.map_values(
                |repo: GithubRepoView|
                    planned_runs_request(self.api_base_url, self.token_env, token, repo),
            ),
            TrackedRepos::Gitlab(repos) => repos.map_values(
                |repo: GitlabRepoView|
                    planned_pipelines_request(self.api_base_url, self.token_env, token, repo),
            ),
        }
    }

    /// The provider once `start` has been called on it.
    pub open spec fn started(self) -> ProviderView {
        ProviderView { worker_active: true, ..self }
    }

    /// The provider once `stop` has been called on it.
    pub open spec fn stopped(self) -> ProviderView {
        ProviderView { stop_requested: true, worker_active: false, ..self }
    }

    /// The schedule of the worker that `start` asks for: none where one is
    /// active already.
    pub open spec fn worker_to_spawn(self) -> Option<PollSchedule> {
        if self.worker_active {
            None
        } else {
            Some(
                PollSchedule {
                    poll_interval: self.poll_interval,
                    remaining: PollInterval { nanos: 0 },
                    exited: false,
                },
            )
        }
    }
}

/// The requests that were made ready, by their views.
pub open spec fn request_views(requests: Seq<Result<HttpRequest, FetchError>>) -> Seq<
    Result<HttpRequestView, FetchErrorView>,
> {
    requests.map_values(|request: Result<HttpRequest, FetchError>| request_view(request))
}

pub trait DataProvider: Send + Sync {
    spec fn model(&self) -> ProviderView;

    /// The kind of backend polled.
    fn backend(&self) -> (backend: Backend)
        ensures
            backend == self.model().backend(),
    ;

    /// The name of the environment variable to read the token from, anew
    /// at each cycle.
    fn token_env(&self) -> (name: &str)
        ensures
            name@ == self.model().token_env,
    ;

    /// Whether the stop signal is raised. A worker looks at this before
    /// each of its steps.
    fn stop_requested(&self) -> (raised: bool)
        ensures
            raised == self.model().stop_requested,
    ;

    /// The requests of one poll cycle.
    fn requests(&self, token: Option<&str>) -> (requests: Vec<Result<HttpRequest, FetchError>>)
        ensures
            request_views(requests@) == self.model().planned_requests(token_view(token)),
    ;

    /// The deciding part of one poll cycle, given what was fetched for each
    /// repository: the cycle's summary is published to `gateway` if there
    /// is one, and the gateway is left alone if there is none.
    fn poll_once<S: StateSummaryAdapter>(
        &self,
        fetched: &Vec<Result<Vec<RunRecord>, FetchError>>,
        gateway: &mut StateSummaryGateway<S>,
    ) -> (summary: Option<StateSummary>)
        ensures
            summary == cycle_summary(self.model().backend(), fetched@),
            match summary {
                Some(state) => published(*old(gateway), *final(gateway), state),
                None => *final(gateway) == *old(gateway),
            },
    ;

    /// One poll cycle against a gateway of its own that nobody listens to.
    /// The provider is left as it was; the cycle's summary is handed back.
    fn refresh(&mut self, fetched: &Vec<Result<Vec<RunRecord>, FetchError>>) -> (summary: Option<
        StateSummary,
    >)
        ensures
            final(self).model() == old(self).model(),
            summary == cycle_summary(old(self).model().backend(), fetched@),
    ;

    /// Marks the worker as active. Where none was, the caller is to spawn
    /// one that follows the schedule handed back.
    fn start(&mut self) -> (schedule: Option<PollSchedule>)
        ensures
            final(self).model() == old(self).model().started(),
            schedule == old(self).model().worker_to_spawn(),
    ;

    /// Raises the stop signal and marks the worker as gone. `join` says
    /// whether there was a worker, which the caller is then to wait for.
    fn stop(&mut self) -> (join: bool)
        ensures
            final(self).model() == old(self).model().stopped(),
            join == old(self).model().worker_active,
    ;
}

} // verus!
