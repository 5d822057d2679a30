use std::sync::{Arc, Mutex};

use pmon::domain::{StateSummary, StateSummaryAdapter, StateSummaryGateway, SummaryLog};

struct Recorder {
    position: usize,
    log: Arc<Mutex<Vec<(usize, StateSummary)>>>,
}

impl StateSummaryAdapter for Recorder {
    // Stands in proofs only and is never called.
    fn seen(&self) -> SummaryLog {
        unreachable!()
    }

    fn set_state_summary(&mut self, state: StateSummary) {
        self.log.lock().unwrap().push((self.position, state));
    }
}

struct Counter {
    calls: Arc<Mutex<u32>>,
}

impl StateSummaryAdapter for Counter {
    // Stands in proofs only and is never called.
    fn seen(&self) -> SummaryLog {
        unreachable!()
    }

    fn set_state_summary(&mut self, _state: StateSummary) {
        *self.calls.lock().unwrap() += 1;
    }
}

#[test]
fn every_sink_observes_once_in_registration_order() {
    for count in [0usize, 1, 2, 5, 17] {
        let log = Arc::new(Mutex::new(Vec::new()));
        let mut gateway = StateSummaryGateway::new();
        for position in 0..count {
            gateway.add_controller(Recorder { position, log: log.clone() });
        }
        assert_eq!(gateway.controller_count(), count);
        gateway.set_state_summary(StateSummary::FailurePending);
        let expected: Vec<(usize, StateSummary)> =
            (0..count).map(|position| (position, StateSummary::FailurePending)).collect();
        assert_eq!(*log.lock().unwrap(), expected);
    }
}

#[test]
fn every_publish_reaches_every_sink() {
    let log = Arc::new(Mutex::new(Vec::new()));
    let mut gateway = StateSummaryGateway::new();
    gateway.add_controller(Recorder { position: 0, log: log.clone() });
    gateway.add_controller(Recorder { position: 1, log: log.clone() });
    gateway.set_state_summary(StateSummary::Okay);
    gateway.set_state_summary(StateSummary::Failure);
    assert_eq!(
        *log.lock().unwrap(),
        vec![
            (0, StateSummary::Okay),
            (1, StateSummary::Okay),
            (0, StateSummary::Failure),
            (1, StateSummary::Failure),
        ]
    );
}

#[test]
fn a_sink_added_later_sees_only_later_summaries() {
    let log = Arc::new(Mutex::new(Vec::new()));
    let mut gateway = StateSummaryGateway::new();
    gateway.add_controller(Recorder { position: 0, log: log.clone() });
    gateway.set_state_summary(StateSummary::Okay);
    gateway.add_controller(Recorder { position: 1, log: log.clone() });
    gateway.set_state_summary(StateSummary::OkPending);
    assert_eq!(
        *log.lock().unwrap(),
        vec![(0, StateSummary::Okay), (0, StateSummary::OkPending), (1, StateSummary::OkPending)]
    );
}

#[test]
fn an_empty_gateway_publishes_to_nobody() {
    let mut gateway: StateSummaryGateway<Recorder> = StateSummaryGateway::new();
    assert_eq!(gateway.controller_count(), 0);
    gateway.set_state_summary(StateSummary::Failure);
    assert_eq!(gateway.controller_count(), 0);
}

#[test]
fn sinks_of_different_kinds_share_a_gateway_when_boxed() {
    let log = Arc::new(Mutex::new(Vec::new()));
    let calls = Arc::new(Mutex::new(0u32));
    let mut gateway: StateSummaryGateway<Box<dyn StateSummaryAdapter>> = StateSummaryGateway::new();
    gateway.add_controller(Box::new(Recorder { position: 0, log: log.clone() }));
    gateway.add_controller(Box::new(Counter { calls: calls.clone() }));
    gateway.set_state_summary(StateSummary::Failure);
    assert_eq!(*log.lock().unwrap(), vec![(0, StateSummary::Failure)]);
    assert_eq!(*calls.lock().unwrap(), 1);
}

#[test]
fn three_recording_sinks_log_the_failure_in_order() {
    let log = Arc::new(Mutex::new(Vec::new()));
    let mut gateway = StateSummaryGateway::new();
    for position in [0usize, 1, 2] {
        gateway.add_controller(Recorder { position, log: log.clone() });
    }
    gateway.set_state_summary(StateSummary::Failure);
    assert_eq!(
        *log.lock().unwrap(),
        vec![(0, StateSummary::Failure), (1, StateSummary::Failure), (2, StateSummary::Failure)]
    );
}

#[test]
fn a_gateway_is_a_sink_and_passes_on_what_it_is_handed() {
    let log = Arc::new(Mutex::new(Vec::new()));
    let mut inner = StateSummaryGateway::new();
    inner.add_controller(Recorder { position: 7, log: log.clone() });
    inner.add_controller(Recorder { position: 8, log: log.clone() });
    let mut outer = StateSummaryGateway::new();
    outer.add_controller(inner);
    outer.set_state_summary(StateSummary::OkPending);
    assert_eq!(
        *log.lock().unwrap(),
        vec![(7, StateSummary::OkPending), (8, StateSummary::OkPending)]
    );
    assert_eq!(outer.controller(0).map(|inner| inner.controller_count()), Some(2));
    assert!(outer.controller(1).is_none());
}

#[test]
fn a_registered_sink_can_be_read_back_by_position() {
    let log = Arc::new(Mutex::new(Vec::new()));
    let mut gateway = StateSummaryGateway::new();
    gateway.add_controller(Recorder { position: 4, log: log.clone() });
    gateway.add_controller(Recorder { position: 9, log: log.clone() });
    assert_eq!(gateway.controller(0).map(|sink| sink.position), Some(4));
    assert_eq!(gateway.controller(1).map(|sink| sink.position), Some(9));
    assert!(gateway.controller(2).is_none());
}
