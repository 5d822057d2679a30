use pmon::data_providers::cycle::{poll_cycle, summarize_cycle, Backend};
use pmon::data_providers::transport::{FetchError, RunRecord};
use pmon::domain::{StateSummary, StateSummaryAdapter, StateSummaryGateway, SummaryLog};
use std::sync::{Arc, Mutex};

struct Seen {
    all: Arc<Mutex<Vec<StateSummary>>>,
}

impl StateSummaryAdapter for Seen {
    // Stands in proofs only and is never called.
    fn seen(&self) -> SummaryLog {
        unreachable!()
    }

    fn set_state_summary(&mut self, state: StateSummary) {
        self.all.lock().unwrap().push(state);
    }
}

fn record(status: &str, conclusion: Option<&str>) -> RunRecord {
    RunRecord { status: status.to_string(), conclusion: conclusion.map(|c| c.to_string()) }
}

#[test]
fn the_same_history_reads_differently_per_backend() {
    let fetched = vec![Ok(vec![record("success", None)])];
    assert_eq!(summarize_cycle(Backend::Gitlab, &fetched), Some(StateSummary::Okay));
    assert_eq!(summarize_cycle(Backend::Github, &fetched), None);
    let fetched = vec![Ok(vec![record("completed", Some("success"))])];
    assert_eq!(summarize_cycle(Backend::Github, &fetched), Some(StateSummary::Okay));
    assert_eq!(summarize_cycle(Backend::Gitlab, &fetched), None);
}

#[test]
fn a_cycle_takes_the_most_severe_opinion() {
    let fetched = vec![
        Ok(vec![record("running", None), record("failed", None)]),
        Err(FetchError::Transport { message: "reset".to_string() }),
        Ok(vec![record("success", None)]),
        Ok(vec![record("running", None)]),
        Ok(vec![]),
    ];
    assert_eq!(summarize_cycle(Backend::Gitlab, &fetched), Some(StateSummary::FailurePending));
}

#[test]
fn a_cycle_of_errors_has_no_summary() {
    let fetched = vec![
        Err(FetchError::MissingCredential { env: "GITLAB_TOKEN".to_string() }),
        Err(FetchError::Backend { status: 502, request_id: None }),
        Err(FetchError::Decode { message: "eof".to_string() }),
    ];
    assert_eq!(summarize_cycle(Backend::Gitlab, &fetched), None);
    assert_eq!(summarize_cycle(Backend::Github, &vec![]), None);
}

#[test]
fn a_cycle_publishes_once_or_not_at_all() {
    let all = Arc::new(Mutex::new(Vec::new()));
    let mut gateway = StateSummaryGateway::new();
    gateway.add_controller(Seen { all: all.clone() });

    let silent = vec![Ok(vec![record("unheard-of", None)])];
    assert_eq!(poll_cycle(Backend::Github, &silent, &mut gateway), None);
    assert!(all.lock().unwrap().is_empty());

    let telling = vec![
        Ok(vec![record("completed", Some("success"))]),
        Ok(vec![record("completed", Some("failure"))]),
    ];
    assert_eq!(poll_cycle(Backend::Github, &telling, &mut gateway), Some(StateSummary::Failure));
    assert_eq!(*all.lock().unwrap(), vec![StateSummary::Failure]);
}
