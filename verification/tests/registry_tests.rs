use homehelper::daemon::{apply_outcomes, dispatch_event, run_steps, sweep_fatal, sweep_flag,
    tick_sleep_nanos, MainLoopStep, StepError, StepState, TICK_PERIOD_NANOS};
use homehelper::events::Event;
use homehelper::eww::{eww_relevant, eww_send_outcome};

struct MockStep {
    id: u32,
    events_seen: u32,
    ticks_seen: u32,
    done_after_events: Option<u32>,
    fail_with: Option<StepError>,
    absorb_error: bool,
}

impl MockStep {
    fn new(id: u32) -> MockStep {
        MockStep {
            id,
            events_seen: 0,
            ticks_seen: 0,
            done_after_events: None,
            fail_with: None,
            absorb_error: false,
        }
    }
}

impl MainLoopStep for MockStep {
    fn step(&mut self) -> Result<StepState, StepError> {
        self.ticks_seen += 1;
        Ok(StepState::KeepActive)
    }

    fn on_event(&mut self, _event: &Event) -> Result<StepState, StepError> {
        self.events_seen += 1;
        if let Some(e) = self.fail_with.take() {
            return Err(e);
        }
        match self.done_after_events {
            Some(n) if self.events_seen >= n => Ok(StepState::Done),
            _ => Ok(StepState::KeepActive),
        }
    }

    fn on_error(&mut self, error: StepError) -> Result<StepState, StepError> {
        if self.absorb_error {
            match error {
                StepError::PeerClosed => Ok(StepState::Done),
                StepError::Failure(_) => Ok(StepState::KeepActive),
            }
        } else {
            Err(error)
        }
    }
}

fn sample_event() -> Event {
    Event::Workspace { name: "3".to_string() }
}

#[test]
fn done_steps_removed_without_skipping_others() {
    let mut steps: Vec<MockStep> = (1..=5).map(MockStep::new).collect();
    steps[1].done_after_events = Some(1);
    steps[3].done_after_events = Some(1);
    let (r, _) = dispatch_event(&mut steps, &sample_event());
    assert!(r.is_ok());
    let ids: Vec<u32> = steps.iter().map(|s| s.id).collect();
    assert_eq!(ids, vec![1, 3, 5]);
    for s in &steps {
        assert_eq!(s.events_seen, 1);
    }
}

#[test]
fn apply_outcomes_removes_exactly_the_flagged() {
    let mut steps: Vec<MockStep> = (1..=4).map(MockStep::new).collect();
    let keep = vec![true, false, true, false];
    apply_outcomes(&mut steps, &keep);
    let ids: Vec<u32> = steps.iter().map(|s| s.id).collect();
    assert_eq!(ids, vec![1, 3]);
}

#[test]
fn apply_outcomes_keeps_order_when_nothing_is_done() {
    let mut steps: Vec<MockStep> = (1..=3).map(MockStep::new).collect();
    let keep = vec![true, true, true];
    apply_outcomes(&mut steps, &keep);
    let ids: Vec<u32> = steps.iter().map(|s| s.id).collect();
    assert_eq!(ids, vec![1, 2, 3]);
}

#[test]
fn unabsorbed_error_removes_step_and_stops_daemon() {
    let mut steps: Vec<MockStep> = (1..=3).map(MockStep::new).collect();
    steps[1].fail_with = Some(StepError::Failure("boom".to_string()));
    let (r, _) = dispatch_event(&mut steps, &sample_event());
    match r {
        Err(StepError::Failure(m)) => assert_eq!(m, "boom"),
        other => panic!("unexpected: {:?}", other),
    }
    let ids: Vec<u32> = steps.iter().map(|s| s.id).collect();
    assert_eq!(ids, vec![1, 3]);
}

#[test]
fn broken_pipe_ends_only_that_step() {
    let mut steps: Vec<MockStep> = (1..=3).map(MockStep::new).collect();
    steps[0].fail_with = Some(StepError::PeerClosed);
    steps[0].absorb_error = true;
    let (r, _) = dispatch_event(&mut steps, &sample_event());
    assert!(r.is_ok());
    let ids: Vec<u32> = steps.iter().map(|s| s.id).collect();
    assert_eq!(ids, vec![2, 3]);
    assert_eq!(steps[0].events_seen, 1);
    assert_eq!(steps[1].events_seen, 1);
}

#[test]
fn periodic_hooks_run_once_per_tick() {
    let mut steps: Vec<MockStep> = (1..=3).map(MockStep::new).collect();
    assert!(run_steps(&mut steps).0.is_ok());
    assert!(run_steps(&mut steps).0.is_ok());
    for s in &steps {
        assert_eq!(s.ticks_seen, 2);
        assert_eq!(s.events_seen, 0);
    }
}

struct MockSubscriber {
    updates_sent: u32,
    peer_gone: bool,
}

impl MockSubscriber {
    fn send_update(&mut self) -> Result<(), StepError> {
        if self.peer_gone {
            Err(StepError::PeerClosed)
        } else {
            self.updates_sent += 1;
            Ok(())
        }
    }
}

impl MainLoopStep for MockSubscriber {
    fn step(&mut self) -> Result<StepState, StepError> {
        Ok(StepState::KeepActive)
    }

    fn on_event(&mut self, event: &Event) -> Result<StepState, StepError> {
        if eww_relevant(event) {
            let sent = self.send_update();
            return Ok(eww_send_outcome(&sent));
        }
        Ok(StepState::KeepActive)
    }

    fn on_error(&mut self, _error: StepError) -> Result<StepState, StepError> {
        Ok(StepState::Done)
    }
}

#[test]
fn subscriber_updates_only_on_relevant_events_and_stops_on_disconnect() {
    let mut steps = vec![MockSubscriber { updates_sent: 1, peer_gone: false }];
    assert_eq!(steps[0].updates_sent, 1);

    let (r, _) = dispatch_event(&mut steps, &Event::Workspace { name: "2".to_string() });
    assert!(r.is_ok());
    assert_eq!(steps.len(), 1);
    assert_eq!(steps[0].updates_sent, 2);

    let (r, _) = dispatch_event(&mut steps, &Event::MoveIntoGroup { window_address: 5 });
    assert!(r.is_ok());
    assert_eq!(steps[0].updates_sent, 2);

    steps[0].peer_gone = true;
    let (r, _) = dispatch_event(&mut steps, &Event::Workspace { name: "1".to_string() });
    assert!(r.is_ok());
    assert!(steps.is_empty());
}

#[test]
fn send_outcome_classification() {
    assert_eq!(eww_send_outcome(&Err(StepError::PeerClosed)), StepState::Done);
    assert_eq!(eww_send_outcome(&Ok(())), StepState::KeepActive);
    assert_eq!(
        eww_send_outcome(&Err(StepError::Failure("x".to_string()))),
        StepState::KeepActive
    );
}

#[test]
fn empty_registry_passes_trivially() {
    let mut steps: Vec<MockStep> = Vec::new();
    assert!(run_steps(&mut steps).0.is_ok());
    assert!(steps.is_empty());
    let (r, _) = dispatch_event(&mut steps, &sample_event());
    assert!(r.is_ok());
    assert!(steps.is_empty());
}

#[test]
fn sweep_flag_keeps_only_keep_active() {
    assert!(sweep_flag(&Ok(StepState::KeepActive)));
    assert!(!sweep_flag(&Ok(StepState::Done)));
    assert!(!sweep_flag(&Err(StepError::PeerClosed)));
    assert!(!sweep_flag(&Err(StepError::Failure("x".to_string()))));
}

#[test]
fn sweep_fatal_is_exactly_an_unabsorbed_error() {
    assert!(!sweep_fatal(&Ok(StepState::KeepActive)));
    assert!(!sweep_fatal(&Ok(StepState::Done)));
    assert!(sweep_fatal(&Err(StepError::PeerClosed)));
    assert!(sweep_fatal(&Err(StepError::Failure("x".to_string()))));
}

#[test]
fn tick_sleep_is_the_remainder_of_the_period() {
    assert_eq!(tick_sleep_nanos(0), TICK_PERIOD_NANOS);
    assert_eq!(tick_sleep_nanos(1_000_000), TICK_PERIOD_NANOS - 1_000_000);
    assert_eq!(tick_sleep_nanos(TICK_PERIOD_NANOS), 0);
    assert_eq!(tick_sleep_nanos(u64::MAX), 0);
}
