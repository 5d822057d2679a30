//! GitHub Actions: what a workflow's recent runs say about a repository,
//! and the request that lists them.

use vstd::prelude::*;
use crate::domain::data_provider::{request_views, DataProvider, ProviderView, TrackedRepos};
use crate::domain::state_summary::{StateSummary, StateSummaryAdapter, StateSummaryGateway};
use crate::data_providers::cycle::{poll_cycle, Backend};
use crate::data_providers::schedule::{PollInterval, PollSchedule, DEFAULT_POLL_NANOS};
use crate::text::{concat2, find_first, first_index, same_text};
use crate::data_providers::transport::{
    history_view,
    percent_encode,
    percent_encoded,
    request_view,
    token_view,
    window,
    FetchError,
    FetchErrorView,
    HttpRequest,
    HttpRequestView,
    RunRecord,
    RunRecordView,
};

verus! {

/// Conclusions of a completed run that count as a failure.
pub open spec fn is_failure_like(conclusion: Seq<char>) -> bool {
    ||| conclusion == "failure"@
    ||| conclusion == "cancelled"@
    ||| conclusion == "timed_out"@
    ||| conclusion == "action_required"@
    ||| conclusion == "startup_failure"@
    ||| conclusion == "neutral"@
    ||| conclusion == "skipped"@
}

/// A run that has not finished.
pub open spec fn is_pending(status: Seq<char>) -> bool {
    status == "queued"@ || status == "in_progress"@
}

/// A completed run whose conclusion counts as a failure.
pub open spec fn has_failed(run: RunRecordView) -> bool {
    &&& run.status == "completed"@
    &&& run.conclusion matches Some(conclusion)
    &&& is_failure_like(conclusion)
}

/// The summary while the newest run is under way: it leans on the run
/// before it. Nothing older is consulted.
pub open spec fn pending_from_history(history: Seq<RunRecordView>) -> StateSummary {
    if history.len() >= 2 && has_failed(history[1]) {
        StateSummary::FailurePending
    } else {
        StateSummary::OkPending
    }
}

/// The summary of a history, newest run first; `None` where the newest run
/// says nothing that is understood.
pub open spec fn state_from_history(history: Seq<RunRecordView>) -> Option<StateSummary> {
    if history.len() == 0 {
        None
    } else if history[0].status == "completed"@ {
        match history[0].conclusion {
            Some(conclusion) => if conclusion == "success"@ {
                Some(StateSummary::Okay)
            } else if is_failure_like(conclusion) {
                Some(StateSummary::Failure)
            } else {
                None
            },
            None => None,
        }
    } else if is_pending(history[0].status) {
        Some(pending_from_history(history))
    } else {
        None
    }
}

/// Only the two newest runs decide the summary.
pub proof fn lemma_state_depends_on_window(history: Seq<RunRecordView>)
    ensures
        state_from_history(history) == state_from_history(window(history)),
        pending_from_history(history) == pending_from_history(window(history)),
{
}

/// Histories that agree on their two newest runs have the same summary.
pub proof fn lemma_same_window_same_state(first: Seq<RunRecordView>, second: Seq<RunRecordView>)
    requires
        window(first) == window(second),
    ensures
        state_from_history(first) == state_from_history(second),
{
    lemma_state_depends_on_window(first);
    lemma_state_depends_on_window(second);
}

fn failure_like(conclusion: &str) -> (failed: bool)
    ensures
        failed == is_failure_like(conclusion@),
{
    same_text(conclusion, "failure") || same_text(conclusion, "cancelled") || same_text(
        conclusion,
        "timed_out",
    ) || same_text(conclusion, "action_required") || same_text(conclusion, "startup_failure")
        || same_text(conclusion, "neutral") || same_text(conclusion, "skipped")
}

pub fn pending_state_from_history(runs: &[RunRecord]) -> (state: StateSummary)
    ensures
        state == pending_from_history(history_view(runs@)),
{
    if runs.len() < 2 {
        return StateSummary::OkPending;
    }
    let previous = &runs[1];
    assert(history_view(runs@)[1] == previous@);
    if !same_text(previous.status.as_str(), "completed") {
        return StateSummary::OkPending;
    }
    match &previous.conclusion {
        Some(conclusion) => {
            if failure_like(conclusion.as_str()) {
                StateSummary::FailurePending
            } else {
                StateSummary::OkPending
            }
        },
        None => StateSummary::OkPending,
    }
}

pub fn state_from_runs(runs: &[RunRecord]) -> (state: Option<StateSummary>)
    ensures
        state == state_from_history(history_view(runs@)),
{
    if runs.len() == 0 {
        return None;
    }
    let latest = &runs[0];
    assert(history_view(runs@)[0] == latest@);
    let status = latest.status.as_str();
    if same_text(status, "completed") {
        match &latest.conclusion {
            Some(conclusion) => {
                if same_text(conclusion.as_str(), "success") {
                    Some(StateSummary::Okay)
                } else if failure_like(conclusion.as_str()) {
                    Some(StateSummary::Failure)
                } else {
                    None
                }
            },
            None => None,
        }
    } else if same_text(status, "queued") || same_text(status, "in_progress") {
        Some(pending_state_from_history(runs))
    } else {
        None
    }
}

/// A repository whose workflow is watched on one branch.
pub struct GithubRepo {
    name: String,
    main_branch: String,
    workflow: String,
}

pub struct GithubRepoView {
    pub name: Seq<char>,
    pub main_branch: Seq<char>,
    pub workflow: Seq<char>,
}

impl View for GithubRepo {
    type V = GithubRepoView;

    closed spec fn view(&self) -> GithubRepoView {
        GithubRepoView {
            name: self.name@,
            main_branch: self.main_branch@,
            workflow: self.workflow@,
        }
    }
}

impl GithubRepo {
    pub fn new(name: String, main_branch: String, workflow: String) -> (repo: Self)
        ensures
            repo@ == (GithubRepoView {
                name: name@,
                main_branch: main_branch@,
                workflow: workflow@,
            }),
    {
        Self { name, main_branch, workflow }
    }
}

/// Whether a repository name has the form `owner/repo`.
pub open spec fn has_owner(name: Seq<char>) -> bool {
    first_index(name, '/') < name.len()
}

/// What stands before the first `/` of a name.
pub open spec fn owner_part(name: Seq<char>) -> Seq<char> {
    name.subrange(0, first_index(name, '/'))
}

/// What stands after the first `/` of a name.
pub open spec fn repo_part(name: Seq<char>) -> Seq<char> {
    name.subrange(first_index(name, '/') + 1, name.len() as int)
}

/// Splits `owner/repo` at its first `/` and percent-encodes both parts.
pub fn split_repo_name(name: &str) -> (parts: Result<(String, String), FetchError>)
    ensures
        match parts {
            Ok((owner, repo)) => {
                &&& has_owner(name@)
                &&& owner@ == percent_encoded(owner_part(name@))
                &&& repo@ == percent_encoded(repo_part(name@))
            },
            Err(error) => !has_owner(name@) && error@ == (FetchErrorView::InvalidRepoName {
                name: name@,
            }),
        },
{
    match find_first(name, '/') {
        Some(at) => {
            let length = name.unicode_len();
            let owner = name.substring_char(0, at);
            let repo = name.substring_char(at + 1, length);
            Ok((percent_encode(owner), percent_encode(repo)))
        },
        None => Err(FetchError::InvalidRepoName { name: String::from_str(name) }),
    }
}

/// Where the two newest runs of the workflow on the watched branch are
/// listed.
pub open spec fn runs_url(base: Seq<char>, repo: GithubRepoView) -> Seq<char> {
    base + "/repos/"@ + percent_encoded(owner_part(repo.name)) + "/"@ + percent_encoded(
        repo_part(repo.name),
    ) + "/actions/workflows/"@ + percent_encoded(repo.workflow) + "/runs?branch="@
        + percent_encoded(repo.main_branch) + "&per_page=2"@
}

/// The request that lists the runs, or why it cannot be made: a token is
/// needed first, then a name of the form `owner/repo`.
pub open spec fn planned_runs_request(
    base: Seq<char>,
    token_env: Seq<char>,
    token: Option<Seq<char>>,
    repo: GithubRepoView,
) -> Result<HttpRequestView, FetchErrorView> {
    match token {
        None => Err(FetchErrorView::MissingCredential { env: token_env }),
        Some(token) => if !has_owner(repo.name) {
            Err(FetchErrorView::InvalidRepoName { name: repo.name })
        } else {
            Ok(
                HttpRequestView {
                    url: runs_url(base, repo),
                    headers: seq![
                        ("Authorization"@, "Bearer "@ + token),
                        ("Accept"@, "application/vnd.github+json"@),
                        ("User-Agent"@, "pmon"@),
                    ],
                },
            )
        },
    }
}

pub fn workflow_runs_request(
    api_base_url: &str,
    token_env: &str,
    token: Option<&str>,
    repo: &GithubRepo,
) -> (request: Result<HttpRequest, FetchError>)
    ensures
        request_view(request) == planned_runs_request(
            api_base_url@,
            token_env@,
            token_view(token),
            repo@,
        ),
{
    let token = match token {
        Some(token) => token,
        None => {
            return Err(FetchError::MissingCredential { env: String::from_str(token_env) });
        },
    };
    let (owner, repo_name) = match split_repo_name(repo.name.as_str()) {
        Ok(parts) => parts,
        Err(error) => {
            return Err(error);
        },
    };
    let workflow = percent_encode(repo.workflow.as_str());
    let branch = percent_encode(repo.main_branch.as_str());
    let mut url = String::from_str(api_base_url);
    url.append("/repos/");
    url.append(owner.as_str());
    url.append("/");
    url.append(repo_name.as_str());
    url.append("/actions/workflows/");
    url.append(workflow.as_str());
    url.append("/runs?branch=");
    url.append(branch.as_str());
    url.append("&per_page=2");
    let mut headers: Vec<(String, String)> = Vec::new();
    headers.push((String::from_str("Authorization"), concat2("Bearer ", token)));
    headers.push((String::from_str("Accept"), String::from_str("application/vnd.github+json")));
    headers.push((String::from_str("User-Agent"), String::from_str("pmon")));
    let request = HttpRequest { url, headers };
    assert(request@.headers =~= seq![
        ("Authorization"@, "Bearer "@ + token@),
        ("Accept"@, "application/vnd.github+json"@),
        ("User-Agent"@, "pmon"@),
    ]);
    Ok(request)
}

/// Where GitHub's API is found unless another place is given.
pub const DEFAULT_GITHUB_API_BASE_URL: &'static str = "https://api.github.com";

/// Polls the workflows of a list of GitHub repositories.
pub struct GithubProvider {
    token_env: String,
    repos: Vec<GithubRepo>,
    api_base_url: String,
    poll_interval: PollInterval,
    stop_signal: bool,
    worker_active: bool,
}

/// The repositories by their views.
pub open spec fn repo_views(repos: Seq<GithubRepo>) -> Seq<GithubRepoView> {
    repos.map_values(|repo: GithubRepo| repo@)
}

impl GithubProvider {
    /// A GitHub provider polls GitHub.
    pub proof fn lemma_polls_github(&self)
        ensures
            self.model().backend() == Backend::Github,
            self.model().repos is Github,
    {
    }

    pub fn new(token_env: String, repos: Vec<GithubRepo>) -> (provider: Self)
        ensures
            provider.model() == (ProviderView {
                repos: TrackedRepos::Github(repo_views(repos@)),
                token_env: token_env@,
                api_base_url: DEFAULT_GITHUB_API_BASE_URL@,
                poll_interval: PollInterval { nanos: DEFAULT_POLL_NANOS },
                stop_requested: false,
                worker_active: false,
            }),
    {
        Self::new_with_base_url(token_env, repos, String::from_str(DEFAULT_GITHUB_API_BASE_URL))
    }

    pub fn new_with_base_url(token_env: String, repos: Vec<GithubRepo>, api_base_url: String) -> (provider:
        Self)
        ensures
            provider.model() == (ProviderView {
                repos: TrackedRepos::Github(repo_views(repos@)),
                token_env: token_env@,
                api_base_url: api_base_url@,
                poll_interval: PollInterval { nanos: DEFAULT_POLL_NANOS },
                stop_requested: false,
                worker_active: false,
            }),
    {
        Self {
            token_env,
            repos,
            api_base_url,
            poll_interval: PollInterval::from_nanos(DEFAULT_POLL_NANOS),
            stop_signal: false,
            worker_active: false,
        }
    }

    pub fn with_poll_interval(self, poll_interval: PollInterval) -> (provider: Self)
        ensures
            provider.model() == (ProviderView { poll_interval, ..self.model() }),
    {
        let mut provider = self;
        provider.poll_interval = poll_interval;
        provider
    }
}

impl DataProvider for GithubProvider {
    closed spec fn model(&self) -> ProviderView {
        ProviderView {
            repos: TrackedRepos::Github(repo_views(self.repos@)),
            token_env: self.token_env@,
            api_base_url: self.api_base_url@,
            poll_interval: self.poll_interval,
            stop_requested: self.stop_signal,
            worker_active: self.worker_active,
        }
    }

    fn backend(&self) -> (backend: Backend)
        ensures
            backend == Backend::Github,
    {
        Backend::Github
    }

    fn token_env(&self) -> (name: &str) {
        self.token_env.as_str()
    }

    fn stop_requested(&self) -> (raised: bool) {
        self.stop_signal
    }

    fn requests(&self, token: Option<&str>) -> (requests: Vec<Result<HttpRequest, FetchError>>) {
        let ghost planned = self.model().planned_requests(token_view(token));
        let mut requests: Vec<Result<HttpRequest, FetchError>> = Vec::new();
        let mut i: usize = 0;
        while i < self.repos.len()
            invariant
                i <= self.repos@.len(),
                planned == self.model().planned_requests(token_view(token)),
                request_views(requests@) == planned.subrange(0, i as int),
            decreases self.repos@.len() - i,
        {
            let request = workflow_runs_request(
                self.api_base_url.as_str(),
                self.token_env.as_str(),
                token,
                &self.repos[i],
            );
            assert(request_view(request) == planned[i as int]);
            let ghost before = requests@;
            requests.push(request);
            assert(request_views(requests@) =~= request_views(before).push(request_view(request)));
            assert(planned.subrange(0, i + 1) =~= planned.subrange(0, i as int).push(
                planned[i as int],
            ));
            i += 1;
        }
        assert(planned.subrange(0, i as int) =~= planned);
        requests
    }

    fn poll_once<S: StateSummaryAdapter>(
        &self,
        fetched: &Vec<Result<Vec<RunRecord>, FetchError>>,
        gateway: &mut StateSummaryGateway<S>,
    ) -> (summary: Option<StateSummary>) {
        poll_cycle(Backend::Github, fetched, gateway)
    }

    fn refresh(&mut self, fetched: &Vec<Result<Vec<RunRecord>, FetchError>>) -> (summary: Option<
        StateSummary,
    >) {
        let mut gateway = StateSummaryGateway::<Box<dyn StateSummaryAdapter>>::new();
        self.poll_once(fetched, &mut gateway)
    }

    fn start(&mut self) -> (schedule: Option<PollSchedule>) {
        if self.worker_active {
            return None;
        }
        self.worker_active = true;
        Some(PollSchedule::new(self.poll_interval))
    }

    fn stop(&mut self) -> (join: bool) {
        let join = self.worker_active;
        self.stop_signal = true;
        self.worker_active = false;
        join
    }
}

} // verus!
