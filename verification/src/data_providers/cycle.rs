//! One poll cycle: from what was fetched for each repository to the one
//! summary that is published.

use vstd::prelude::*;
use crate::domain::state_summary::{
    combine_summaries,
    folded,
    published,
    StateSummary,
    StateSummaryAdapter,
    StateSummaryGateway,
};
use crate::data_providers::github;
use crate::data_providers::gitlab;
use crate::data_providers::transport::{history_view, FetchError, RunRecord, RunRecordView};

verus! {

/// The kind of backend a provider polls.
#[derive(Clone, Copy, Debug, PartialEq, Eq, Structural)]
pub enum Backend {
    Github,
    Gitlab,
}

/// The summary of one history, in the vocabulary of the backend.
pub open spec fn state_of(backend: Backend, history: Seq<RunRecordView>) -> Option<StateSummary> {
    match backend {
        Backend::Github => github::state_from_history(history),
        Backend::Gitlab => gitlab::state_from_history(history),
    }
}

/// What one repository contributes to a cycle: the summary of its history,
/// or nothing where the history could not be had.
pub open spec fn opinion(backend: Backend, fetched: Result<Vec<RunRecord>, FetchError>) -> Option<
    StateSummary,
> {
    match fetched {
        Ok(records) => state_of(backend, history_view(records@)),
        Err(_) => None,
    }
}

/// The summary of a cycle: the opinions of the repositories, in
/// configuration order, folded from the left.
pub open spec fn cycle_summary(
    backend: Backend,
    fetched: Seq<Result<Vec<RunRecord>, FetchError>>,
) -> Option<StateSummary> {
    folded(fetched.map_values(|one: Result<Vec<RunRecord>, FetchError>| opinion(backend, one)))
}

/// Derives the summary of each repository and folds them. A repository
/// whose history could not be had, or says nothing, is passed over.
pub fn summarize_cycle(backend: Backend, fetched: &Vec<Result<Vec<RunRecord>, FetchError>>) -> (summary:
    Option<StateSummary>)
    ensures
        summary == cycle_summary(backend, fetched@),
{
    let ghost opinions = fetched@.map_values(
        |one: Result<Vec<RunRecord>, FetchError>| opinion(backend, one),
    );
    let mut combined: Option<StateSummary> = None;
    let mut i: usize = 0;
    while i < fetched.len()
        invariant
            i <= fetched@.len(),
            opinions == fetched@.map_values(
                |one: Result<Vec<RunRecord>, FetchError>| opinion(backend, one),
            ),
            combined == folded(opinions.subrange(0, i as int)),
        decreases fetched@.len() - i,
    {
        let state = match &fetched[i] {
            Ok(records) => match backend {
                Backend::Github => github::state_from_runs(records.as_slice()),
                Backend::Gitlab => gitlab::state_from_pipelines(records.as_slice()),
            },
            Err(_) => None,
        };
        assert(state == opinions[i as int]);
        assert(opinions.subrange(0, i + 1).drop_last() =~= opinions.subrange(0, i as int));
        if let Some(summary) = state {
            combined = Some(combine_summaries(combined, summary));
        }
        i += 1;
    }
    assert(opinions.subrange(0, i as int) =~= opinions);
    combined
}

/// Runs the deciding part of one poll cycle: the cycle's summary, if there
/// is one, is published to `gateway`; otherwise the gateway is left alone.
pub fn poll_cycle<S: StateSummaryAdapter>(
    backend: Backend,
    fetched: &Vec<Result<Vec<RunRecord>, FetchError>>,
    gateway: &mut StateSummaryGateway<S>,
) -> (summary: Option<StateSummary>)
    ensures
        summary == cycle_summary(backend, fetched@),
        match summary {
            Some(state) => published(*old(gateway), *final(gateway), state),
            None => *final(gateway) == *old(gateway),
        },
{
    let summary = summarize_cycle(backend, fetched);
    if let Some(state) = summary {
        gateway.set_state_summary(state);
    }
    summary
}


} // verus!
