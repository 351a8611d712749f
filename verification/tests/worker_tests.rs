use statusdash::classifier::DEFAULT_WARNING_EXIT_CODE;
use statusdash::config::{CssMetadataConfig, MonitorDirConfig, MonitorDirTestConfig};
use statusdash::outcome::{RawOutcome, TIMEOUT_EXIT_CODE};
use statusdash::status::{MonitorState, StatusState};
use statusdash::worker::{WorkerAction, WorkerEvent, WorkerPhase, WorkerState};

fn monitor_config(interval_ms: u64, timeout_ms: u64) -> MonitorDirConfig {
    MonitorDirConfig {
        test: MonitorDirTestConfig {
            interval_ms,
            timeout_ms,
            command: "/usr/bin/true".to_string(),
        },
        base_path: "/tmp".to_string(),
        id: "demo".to_string(),
    }
}

fn empty_css() -> CssMetadataConfig {
    CssMetadataConfig {
        blank: Vec::new(),
        red: Vec::new(),
        yellow: Vec::new(),
        green: Vec::new(),
    }
}

#[test]
fn first_tick_is_due_immediately() {
    let mut w = WorkerState::new(monitor_config(1000, 5000), 0);
    assert!(matches!(w.phase, WorkerPhase::Idle));
    let action = w.step(WorkerEvent::TickDue { now_ms: 0 });
    match action {
        WorkerAction::StartCheck { command, timeout_ms } => {
            assert_eq!(command, "/usr/bin/true");
            assert_eq!(timeout_ms, 5000);
        }
        _ => panic!("expected the first tick to start a check"),
    }
    assert!(matches!(w.phase, WorkerPhase::Running));
}

#[test]
fn early_tick_goes_back_to_sleep() {
    let mut w = WorkerState::new(monitor_config(1000, 5000), 500);
    let action = w.step(WorkerEvent::TickDue { now_ms: 200 });
    assert!(matches!(action, WorkerAction::Sleep { deadline_ms: 500 }));
    assert!(matches!(w.phase, WorkerPhase::Idle));
}

#[test]
fn next_deadline_is_completion_plus_interval() {
    // fixed-delay: a check that runs long pushes the next tick out
    let mut w = WorkerState::new(monitor_config(1000, 5000), 0);
    w.step(WorkerEvent::TickDue { now_ms: 0 });
    let action = w.step(WorkerEvent::CheckCompleted { completed_at_ms: 1500 });
    assert!(matches!(action, WorkerAction::Sleep { deadline_ms: 2500 }));
    assert_eq!(w.next_deadline_ms, 2500);
    assert!(matches!(w.phase, WorkerPhase::Idle));
}

#[test]
fn consecutive_starts_are_at_least_one_interval_apart() {
    let interval = 1000u64;
    let mut w = WorkerState::new(monitor_config(interval, 5000), 0);
    let mut starts: Vec<u64> = Vec::new();
    let mut now: u64 = 0;
    for round in 0..4u64 {
        let action = w.step(WorkerEvent::TickDue { now_ms: now });
        assert!(matches!(action, WorkerAction::StartCheck { .. }));
        starts.push(now);
        // odd rounds simulate a slow check that outlives the interval
        let duration = if round % 2 == 0 { 10 } else { 1700 };
        let completed = now + duration;
        let action = w.step(WorkerEvent::CheckCompleted { completed_at_ms: completed });
        match action {
            WorkerAction::Sleep { deadline_ms } => {
                assert_eq!(deadline_ms, completed + interval);
                now = deadline_ms;
            }
            _ => panic!("expected to sleep until the next deadline"),
        }
    }
    for pair in starts.windows(2) {
        assert!(pair[1] - pair[0] >= interval);
    }
}

#[test]
fn shutdown_while_idle_stops_immediately() {
    let mut w = WorkerState::new(monitor_config(1000, 5000), 0);
    let action = w.step(WorkerEvent::ShutdownRequested);
    assert!(matches!(action, WorkerAction::Stop));
    assert!(matches!(w.phase, WorkerPhase::Stopped));
}

#[test]
fn shutdown_mid_check_lets_the_check_finish() {
    let mut w = WorkerState::new(monitor_config(1000, 5000), 0);
    w.step(WorkerEvent::TickDue { now_ms: 0 });
    assert!(matches!(w.phase, WorkerPhase::Running));
    let action = w.step(WorkerEvent::ShutdownRequested);
    assert!(matches!(action, WorkerAction::AwaitCompletion));
    assert!(matches!(w.phase, WorkerPhase::Stopping));
    // the in-flight check still completes and only then does the worker stop
    let action = w.step(WorkerEvent::CheckCompleted { completed_at_ms: 40 });
    assert!(matches!(action, WorkerAction::Stop));
    assert!(matches!(w.phase, WorkerPhase::Stopped));
}

#[test]
fn scenario_three_green_checks_in_three_seconds() {
    // command exits 0, interval 1s, timeout 5s: after ~3s the history holds
    // three Green entries and the current status is Green with code 0
    let config = monitor_config(1000, 5000);
    let css = empty_css();
    let mut w = WorkerState::new(config.duplicate(), 0);
    let mut state = MonitorState::new(config, &css, 50);
    let mut now: u64 = 0;
    while now < 3000 {
        match w.step(WorkerEvent::TickDue { now_ms: now }) {
            WorkerAction::StartCheck { .. } => {
                let completed = now + 20;
                let outcome = RawOutcome::exited(0, now, 20);
                state.apply_completion(&outcome, &css, DEFAULT_WARNING_EXIT_CODE);
                match w.step(WorkerEvent::CheckCompleted { completed_at_ms: completed }) {
                    WorkerAction::Sleep { deadline_ms } => now = deadline_ms,
                    _ => panic!("expected to sleep after completion"),
                }
            }
            WorkerAction::Sleep { deadline_ms } => now = deadline_ms,
            _ => panic!("unexpected action"),
        }
    }
    let snap = state.history.snapshot();
    assert_eq!(snap.len(), 3);
    for s in &snap {
        assert!(matches!(s.status, StatusState::Green));
        assert_eq!(s.code, 0);
    }
    assert!(matches!(state.status.status, StatusState::Green));
    assert_eq!(state.status.code, 0);
}

#[test]
fn scenario_timeout_recorded_near_the_deadline() {
    // command sleeps longer than its 2s timeout: the executor kills it at
    // the deadline and the recorded status is Red with the timeout sentinel
    let config = monitor_config(1000, 2000);
    let css = empty_css();
    let mut w = WorkerState::new(config.duplicate(), 0);
    let mut state = MonitorState::new(config, &css, 50);
    w.step(WorkerEvent::TickDue { now_ms: 0 });
    let outcome = RawOutcome::after_timeout(0, 2000);
    assert_eq!(outcome.duration_ms, 2000);
    state.apply_completion(&outcome, &css, DEFAULT_WARNING_EXIT_CODE);
    w.step(WorkerEvent::CheckCompleted { completed_at_ms: 2000 });
    assert!(matches!(state.status.status, StatusState::Red));
    assert_eq!(state.status.code, TIMEOUT_EXIT_CODE);
    assert!(state.status.description.contains("timed out"));
    assert_eq!(w.next_deadline_ms, 3000);
}
