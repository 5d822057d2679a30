//! GitLab: what a project's recent pipelines say about it, and the request
//! that lists them.

use vstd::prelude::*;
use crate::domain::data_provider::{request_views, DataProvider, ProviderView, TrackedRepos};
use crate::domain::state_summary::{StateSummary, StateSummaryAdapter, StateSummaryGateway};
use crate::data_providers::cycle::{poll_cycle, Backend};
use crate::data_providers::schedule::{PollInterval, PollSchedule, DEFAULT_POLL_NANOS};
use crate::text::same_text;
use crate::data_providers::transport::{
    history_view,
    percent_encode,
    percent_encoded,
    request_view,
    token_view,
    window,
    FetchError,
    FetchErrorView,
    HttpRequest,
    HttpRequestView,
    RunRecord,
    RunRecordView,
};

verus! {

/// A pipeline that has not finished.
pub open spec fn is_pending(status: Seq<char>) -> bool {
    ||| status == "running"@
    ||| status == "pending"@
    ||| status == "created"@
    ||| status == "manual"@
}

/// A pipeline that ended badly: it failed, was canceled or was skipped.
pub open spec fn has_failed(status: Seq<char>) -> bool {
    ||| status == "failed"@
    ||| status == "canceled"@
    ||| status == "skipped"@
}

/// The summary while the newest pipeline is under way: it leans on the
/// pipeline before it, which counts against it if it ended badly. Nothing
/// older is consulted.
pub open spec fn pending_from_history(history: Seq<RunRecordView>) -> StateSummary {
    if history.len() >= 2 && has_failed(history[1].status) {
        StateSummary::FailurePending
    } else {
        StateSummary::OkPending
    }
}

/// The summary of a history, newest pipeline first; `None` where the newest
/// pipeline says nothing that is understood. A pipeline's conclusion plays
/// no part: its status says how it ended.
pub open spec fn state_from_history(history: Seq<RunRecordView>) -> Option<StateSummary> {
    if history.len() == 0 {
        None
    } else if has_failed(history[0].status) {
        Some(StateSummary::Failure)
    } else if history[0].status == "success"@ {
        Some(StateSummary::Okay)
    } else if is_pending(history[0].status) {
        Some(pending_from_history(history))
    } else {
        None
    }
}

/// Only the two newest pipelines decide the summary.
pub proof fn lemma_state_depends_on_window(history: Seq<RunRecordView>)
    ensures
        state_from_history(history) == state_from_history(window(history)),
        pending_from_history(history) == pending_from_history(window(history)),
{
}

/// Histories that agree on their two newest pipelines have the same summary.
pub proof fn lemma_same_window_same_state(first: Seq<RunRecordView>, second: Seq<RunRecordView>)
    requires
        window(first) == window(second),
    ensures
        state_from_history(first) == state_from_history(second),
{
    lemma_state_depends_on_window(first);
    lemma_state_depends_on_window(second);
}

fn ended_badly(status: &str) -> (failed: bool)
    ensures
        failed == has_failed(status@),
{
    same_text(status, "failed") || same_text(status, "canceled") || same_text(status, "skipped")
}

pub fn pending_state_from_history(pipelines: &[RunRecord]) -> (state: StateSummary)
    ensures
        state == pending_from_history(history_view(pipelines@)),
{
    if pipelines.len() < 2 {
        return StateSummary::OkPending;
    }
    let previous = &pipelines[1];
    assert(history_view(pipelines@)[1] == previous@);
    if ended_badly(previous.status.as_str()) {
        StateSummary::FailurePending
    } else {
        StateSummary::OkPending
    }
}

pub fn state_from_pipelines(pipelines: &[RunRecord]) -> (state: Option<StateSummary>)
    ensures
        state == state_from_history(history_view(pipelines@)),
{
    if pipelines.len() == 0 {
        return None;
    }
    let latest = &pipelines[0];
    assert(history_view(pipelines@)[0] == latest@);
    let status = latest.status.as_str();
    if ended_badly(status) {
        Some(StateSummary::Failure)
    } else if same_text(status, "success") {
        Some(StateSummary::Okay)
    } else if same_text(status, "running") || same_text(status, "pending") || same_text(
        status,
        "created",
    ) || same_text(status, "manual") {
        Some(pending_state_from_history(pipelines))
    } else {
        None
    }
}

/// A project whose pipelines are watched on one branch.
pub struct GitlabRepo {
    name: String,
    main_branch: String,
}

pub struct GitlabRepoView {
    pub name: Seq<char>,
    pub main_branch: Seq<char>,
}

impl View for GitlabRepo {
    type V = GitlabRepoView;

    closed spec fn view(&self) -> GitlabRepoView {
        GitlabRepoView { name: self.name@, main_branch: self.main_branch@ }
    }
}

impl GitlabRepo {
    pub fn new(name: String, main_branch: String) -> (repo: Self)
        ensures
            repo@ == (GitlabRepoView { name: name@, main_branch: main_branch@ }),
    {
        Self { name, main_branch }
    }
}

/// Where the two newest pipelines of the watched branch are listed.
pub open spec fn pipelines_url(base: Seq<char>, repo: GitlabRepoView) -> Seq<char> {
    base + "/projects/"@ + percent_encoded(repo.name) + "/pipelines?ref="@ + percent_encoded(
        repo.main_branch,
    ) + "&per_page=2"@
}

/// The request that lists the pipelines, or why it cannot be made.
pub open spec fn planned_pipelines_request(
    base: Seq<char>,
    token_env: Seq<char>,
    token: Option<Seq<char>>,
    repo: GitlabRepoView,
) -> Result<HttpRequestView, FetchErrorView> {
    match token {
        None => Err(FetchErrorView::MissingCredential { env: token_env }),
        Some(token) => Ok(
            HttpRequestView {
                url: pipelines_url(base, repo),
                headers: seq![("PRIVATE-TOKEN"@, token)],
            },
        ),
    }
}

pub fn pipelines_request(
    api_base_url: &str,
    token_env: &str,
    token: Option<&str>,
    repo: &GitlabRepo,
) -> (request: Result<HttpRequest, FetchError>)
    ensures
        request_view(request) == planned_pipelines_request(
            api_base_url@,
            token_env@,
            token_view(token),
            repo@,
        ),
{
    let token = match token {
        Some(token) => token,
        None => {
            return Err(FetchError::MissingCredential { env: String::from_str(token_env) });
        },
    };
    let project = percent_encode(repo.name.as_str());
    let branch = percent_encode(repo.main_branch.as_str());
    let mut url = String::from_str(api_base_url);
    url.append("/projects/");
    url.append(project.as_str());
    url.append("/pipelines?ref=");
    url.append(branch.as_str());
    url.append("&per_page=2");
    let mut headers: Vec<(String, String)> = Vec::new();
    headers.push((String::from_str("PRIVATE-TOKEN"), String::from_str(token)));
    let request = HttpRequest { url, headers };
    assert(request@.headers =~= seq![("PRIVATE-TOKEN"@, token@)]);
    Ok(request)
}

/// Where GitLab's API is found unless another place is given.
pub const DEFAULT_GITLAB_API_BASE_URL: &'static str = "https://gitlab.com/api/v4";

/// Polls the pipelines of a list of GitLab projects.
pub struct GitlabProvider {
    token_env: String,
    repos: Vec<GitlabRepo>,
    api_base_url: String,
    poll_interval: PollInterval,
    stop_signal: bool,
    worker_active: bool,
}

/// The repositories by their views.
pub open spec fn repo_views(repos: Seq<GitlabRepo>) -> Seq<GitlabRepoView> {
    repos.map_values(|repo: GitlabRepo| repo@)
}

impl GitlabProvider {
    /// A GitLab provider polls GitLab.
    pub proof fn lemma_polls_gitlab(&self)
        ensures
            self.model().backend() == Backend::Gitlab,
            self.model().repos is Gitlab,
    {
    }

    pub fn new(token_env: String, repos: Vec<GitlabRepo>) -> (provider: Self)
        ensures
            provider.model() == (ProviderView {
                repos: TrackedRepos::Gitlab(repo_views(repos@)),
                token_env: token_env@,
                api_base_url: DEFAULT_GITLAB_API_BASE_URL@,
                poll_interval: PollInterval { nanos: DEFAULT_POLL_NANOS },
                stop_requested: false,
                worker_active: false,
            }),
    {
        Self::new_with_base_url(token_env, repos, String::from_str(DEFAULT_GITLAB_API_BASE_URL))
    }

    pub fn new_with_base_url(token_env: String, repos: Vec<GitlabRepo>, api_base_url: String) -> (provider:
        Self)
        ensures
            provider.model() == (ProviderView {
                repos: TrackedRepos::Gitlab(repo_views(repos@)),
                token_env: token_env@,
                api_base_url: api_base_url@,
                poll_interval: PollInterval { nanos: DEFAULT_POLL_NANOS },
                stop_requested: false,
                worker_active: false,
            }),
    {
        Self {
            token_env,
            repos,
            api_base_url,
            poll_interval: PollInterval::from_nanos(DEFAULT_POLL_NANOS),
            stop_signal: false,
            worker_active: false,
        }
    }

    pub fn with_poll_interval(self, poll_interval: PollInterval) -> (provider: Self)
        ensures
            provider.model() == (ProviderView { poll_interval, ..self.model() }),
    {
        let mut provider = self;
        provider.poll_interval = poll_interval;
        provider
    }
}

impl DataProvider for GitlabProvider {
    closed spec fn model(&self) -> ProviderView {
        ProviderView {
            repos: TrackedRepos::Gitlab(repo_views(self.repos@)),
            token_env: self.token_env@,
            api_base_url: self.api_base_url@,
            poll_interval: self.poll_interval,
            stop_requested: self.stop_signal,
            worker_active: self.worker_active,
        }
    }

    fn backend(&self) -> (backend: Backend)
        ensures
            backend == Backend::Gitlab,
    {
        Backend::Gitlab
    }

    fn token_env(&self) -> (name: &str) {
        self.token_env.as_str()
    }

    fn stop_requested(&self) -> (raised: bool) {
        self.stop_signal
    }

    fn requests(&self, token: Option<&str>) -> (requests: Vec<Result<HttpRequest, FetchError>>) {
        let ghost planned = self.model().planned_requests(token_view(token));
        let mut requests: Vec<Result<HttpRequest, FetchError>> = Vec::new();
        let mut i: usize = 0;
        while i < self.repos.len()
            invariant
                i <= self.repos@.len(),
                planned == self.model().planned_requests(token_view(token)),
                request_views(requests@) == planned.subrange(0, i as int),
            decreases self.repos@.len() - i,
        {
            let request = pipelines_request(
                self.api_base_url.as_str(),
                self.token_env.as_str(),
                token,
                &self.repos[i],
            );
            assert(request_view(request) == planned[i as int]);
            let ghost before = requests@;
            requests.push(request);
            assert(request_views(requests@) =~= request_views(before).push(request_view(request)));
            assert(planned.subrange(0, i + 1) =~= planned.subrange(0, i as int).push(
                planned[i as int],
            ));
            i += 1;
        }
        assert(planned.subrange(0, i as int) =~= planned);
        requests
    }

    fn poll_once<S: StateSummaryAdapter>(
        &self,
        fetched: &Vec<Result<Vec<RunRecord>, FetchError>>,
        gateway: &mut StateSummaryGateway<S>,
    ) -> (summary: Option<StateSummary>) {
        poll_cycle(Backend::Gitlab, fetched, gateway)
    }

    fn refresh(&mut self, fetched: &Vec<Result<Vec<RunRecord>, FetchError>>) -> (summary: Option<
        StateSummary,
    >) {
        let mut gateway = StateSummaryGateway::<Box<dyn StateSummaryAdapter>>::new();
        self.poll_once(fetched, &mut gateway)
    }

    fn start(&mut self) -> (schedule: Option<PollSchedule>) {
        if self.worker_active {
            return None;
        }
        self.worker_active = true;
        Some(PollSchedule::new(self.poll_interval))
    }

    fn stop(&mut self) -> (join: bool) {
        let join = self.worker_active;
        self.stop_signal = true;
        self.worker_active = false;
        join
    }
}

} // verus!

