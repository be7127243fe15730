use sidecar::lifecycle::{
    Action, DriverConfig, DriverOutcome, Event, LifecycleDriver, LifecycleState, Step,
};

fn small_config() -> DriverConfig {
    DriverConfig {
        heartbeat_interval: 2,
        reservation_window: 5,
        settle_wait: 6,
        tick_duration: 10,
        total_ticks: 3,
    }
}

/// Drive the machine with all actions succeeding, recording each state the
/// driver reports, until it asks for nothing more.
fn drive_to_completion(d: &mut LifecycleDriver) -> Vec<LifecycleState> {
    let mut states = vec![d.state];
    loop {
        match d.next_action() {
            Action::Finish => break,
            _ => {
                let before = d.state;
                d.on_event(Event::Completed);
                if d.state != before {
                    states.push(d.state);
                }
            }
        }
    }
    states
}

#[test]
fn successful_run_visits_states_in_order() {
    let mut d = LifecycleDriver::new(small_config());
    assert_eq!(d.state, LifecycleState::Starting);
    let states = drive_to_completion(&mut d);
    assert_eq!(
        states,
        vec![
            LifecycleState::Starting,
            LifecycleState::Ready,
            LifecycleState::Reserved,
            LifecycleState::Active,
            LifecycleState::ShuttingDown,
            LifecycleState::Terminated,
        ]
    );
    assert!(matches!(d.outcome, Some(DriverOutcome::Success)));
}

#[test]
fn reference_config_values() {
    let c = DriverConfig::standard();
    assert_eq!(c.heartbeat_interval, 2);
    assert_eq!(c.reservation_window, 5);
    assert_eq!(c.settle_wait, 6);
    assert_eq!(c.tick_duration, 10);
    assert_eq!(c.total_ticks, 1000);
}

#[test]
fn reference_run_terminates_cleanly() {
    let mut d = LifecycleDriver::new(DriverConfig::standard());
    let states = drive_to_completion(&mut d);
    assert_eq!(states.len(), 6);
    assert_eq!(d.state, LifecycleState::Terminated);
    assert_eq!(d.ticks_done, 1000);
    assert!(matches!(d.outcome, Some(DriverOutcome::Success)));
}

#[test]
fn failure_halts_and_names_the_step() {
    let mut d = LifecycleDriver::new(small_config());
    // connect, start heartbeat, attach label all succeed
    d.on_event(Event::Completed);
    d.on_event(Event::Completed);
    d.on_event(Event::Completed);
    assert_eq!(d.step, Step::MarkReady);
    d.on_event(Event::Failed { cause: "controller unavailable".to_string() });
    // the failing step is named, nothing later is attempted, state is frozen
    match &d.outcome {
        Some(DriverOutcome::Failure { step, cause }) => {
            assert_eq!(*step, Step::MarkReady);
            assert_eq!(cause.as_str(), "controller unavailable");
        }
        _ => panic!("expected a failure outcome"),
    }
    assert_eq!(d.state, LifecycleState::Starting);
    assert!(matches!(d.next_action(), Action::Finish));
    // further events change nothing
    d.on_event(Event::Completed);
    assert_eq!(d.state, LifecycleState::Starting);
    assert!(matches!(d.next_action(), Action::Finish));
}

#[test]
fn connect_failure_is_fatal_before_any_transition() {
    let mut d = LifecycleDriver::new(small_config());
    d.on_event(Event::Failed { cause: "no session".to_string() });
    match &d.outcome {
        Some(DriverOutcome::Failure { step, .. }) => assert_eq!(*step, Step::Connect),
        _ => panic!("expected a failure outcome"),
    }
    assert_eq!(d.state, LifecycleState::Starting);
    assert!(!d.heartbeat_running);
}

#[test]
fn settle_wait_covers_reservation_window() {
    // reservation window 5, settle wait 6: by the time activation is
    // attempted, at least 5 units have passed since the reservation
    let mut d = LifecycleDriver::new(small_config());
    while d.step != Step::ActivateLabel {
        d.on_event(Event::Completed);
    }
    assert!(d.now - d.reserved_at >= 6);
    assert!(d.now - d.reserved_at >= d.config.reservation_window);
}

#[test]
fn operating_loop_runs_exactly_the_configured_ticks() {
    let mut d = LifecycleDriver::new(small_config());
    while d.step != Step::Operate {
        d.on_event(Event::Completed);
    }
    assert_eq!(d.state, LifecycleState::Active);
    let mut ticks = 0u64;
    while d.step == Step::Operate {
        // shutdown is never entered before the last tick
        assert!(d.state == LifecycleState::Active);
        assert!(d.ticks_done < d.config.total_ticks);
        match d.next_action() {
            Action::Wait { duration } => assert_eq!(duration, 10),
            _ => panic!("the operating loop only waits"),
        }
        d.on_event(Event::Completed);
        ticks += 1;
    }
    // the shutdown sequence starts exactly after the 3rd tick
    assert_eq!(ticks, 3);
    assert_eq!(d.ticks_done, 3);
    assert_eq!(d.state, LifecycleState::ShuttingDown);
    assert!(matches!(d.next_action(), Action::CancelHeartbeat));
}

#[test]
fn heartbeat_cancelled_before_shutdown_signal() {
    let mut d = LifecycleDriver::new(small_config());
    while !matches!(d.next_action(), Action::SignalShutdown) {
        d.on_event(Event::Completed);
    }
    assert!(d.heartbeat_cancelled);
    assert_eq!(d.state, LifecycleState::ShuttingDown);
}

#[test]
fn actions_follow_the_documented_sequence() {
    let mut d = LifecycleDriver::new(small_config());
    assert!(matches!(d.next_action(), Action::Connect));
    d.on_event(Event::Completed);
    match d.next_action() {
        Action::StartHeartbeat { interval } => assert_eq!(interval, 2),
        _ => panic!("expected the heartbeat to start after connecting"),
    }
    d.on_event(Event::Completed);
    match d.next_action() {
        Action::SetLabel(l) => {
            assert!(l.key == "orimboard");
            assert!(l.value == "gameserver-1");
        }
        _ => panic!("expected the identifying label"),
    }
    d.on_event(Event::Completed);
    assert!(matches!(d.next_action(), Action::MarkReady));
    d.on_event(Event::Completed);
    match d.next_action() {
        Action::Reserve { window } => assert_eq!(window, 5),
        _ => panic!("expected the reservation"),
    }
    d.on_event(Event::Completed);
    match d.next_action() {
        Action::Wait { duration } => assert_eq!(duration, 6),
        _ => panic!("expected the settle wait"),
    }
    d.on_event(Event::Completed);
    match d.next_action() {
        Action::SetLabel(l) => {
            assert!(l.key == "gs-session-ready");
            assert!(l.value == "true");
        }
        _ => panic!("expected the session-ready label"),
    }
    d.on_event(Event::Completed);
    assert!(matches!(d.next_action(), Action::SetCorrelationLabel));
    d.on_event(Event::Completed);
    assert!(matches!(d.next_action(), Action::SetCorrelationLabel));
    d.on_event(Event::Completed);
    assert!(matches!(d.next_action(), Action::GetStatus));
}
