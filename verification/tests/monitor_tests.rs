use voice_core::monitor::{
    monitor_sidecar, MonitorAction, MonitorEvent, MonitorPhase, MonitorState, FAILURE_THRESHOLD,
    GRACE_MS, TICK_INTERVAL_MS, WAKE_DELAY_MS,
};

const TICK: MonitorEvent = MonitorEvent::Tick { should_run: true };
const FAILED: MonitorEvent = MonitorEvent::Probed { healthy: false };
const HEALTHY: MonitorEvent = MonitorEvent::Probed { healthy: true };
const AWAIT_TICK: MonitorAction = MonitorAction::AwaitTick { every_millis: 5000 };

fn waiting(consecutive_failures: u32) -> MonitorState {
    MonitorState { phase: MonitorPhase::Waiting, consecutive_failures }
}

#[test]
fn timings_and_threshold() {
    assert_eq!(WAKE_DELAY_MS, 500);
    assert_eq!(GRACE_MS, 3000);
    assert_eq!(TICK_INTERVAL_MS, 5000);
    assert_eq!(FAILURE_THRESHOLD, 2);
}

#[test]
fn loop_begins_by_letting_the_application_come_up() {
    let state = MonitorState::new();
    assert_eq!(state.phase, MonitorPhase::Waking);
    assert_eq!(state.consecutive_failures, 0);
    assert_eq!(state.pending_action(), MonitorAction::Sleep { millis: 500 });
}

#[test]
fn first_spawn_that_works_earns_a_grace_period() {
    let mut state = MonitorState::new();
    assert_eq!(monitor_sidecar(&mut state, MonitorEvent::Elapsed), MonitorAction::Spawn);
    assert_eq!(
        monitor_sidecar(&mut state, MonitorEvent::Spawned { ok: true }),
        MonitorAction::Sleep { millis: 3000 }
    );
    assert_eq!(monitor_sidecar(&mut state, MonitorEvent::Elapsed), AWAIT_TICK);
    assert_eq!(monitor_sidecar(&mut state, TICK), MonitorAction::Probe);
}

#[test]
fn first_spawn_that_fails_goes_straight_to_the_ticks() {
    let mut state = MonitorState::new();
    monitor_sidecar(&mut state, MonitorEvent::Elapsed);
    assert_eq!(monitor_sidecar(&mut state, MonitorEvent::Spawned { ok: false }), AWAIT_TICK);
    assert_eq!(state, waiting(0));
}

#[test]
fn healthy_probe_clears_the_counter() {
    let mut state = waiting(1);
    assert_eq!(monitor_sidecar(&mut state, TICK), MonitorAction::Probe);
    assert_eq!(monitor_sidecar(&mut state, HEALTHY), AWAIT_TICK);
    assert_eq!(state, waiting(0));
}

#[test]
fn one_failure_only_counts() {
    let mut state = waiting(0);
    monitor_sidecar(&mut state, TICK);
    assert_eq!(monitor_sidecar(&mut state, FAILED), AWAIT_TICK);
    assert_eq!(state, waiting(1));
}

#[test]
fn failure_success_failure_brings_no_respawn() {
    let mut state = waiting(0);
    monitor_sidecar(&mut state, TICK);
    assert_eq!(monitor_sidecar(&mut state, FAILED), AWAIT_TICK);
    monitor_sidecar(&mut state, TICK);
    assert_eq!(monitor_sidecar(&mut state, HEALTHY), AWAIT_TICK);
    monitor_sidecar(&mut state, TICK);
    assert_eq!(monitor_sidecar(&mut state, FAILED), AWAIT_TICK);
    assert_eq!(state, waiting(1));
}

#[test]
fn two_failures_in_a_row_bring_exactly_one_respawn() {
    let mut state = waiting(0);
    let mut actions: Vec<MonitorAction> = Vec::new();
    for event in [TICK, FAILED, TICK, FAILED, MonitorEvent::Spawned { ok: true }, MonitorEvent::Elapsed, TICK] {
        actions.push(monitor_sidecar(&mut state, event));
    }
    assert_eq!(
        actions,
        vec![
            MonitorAction::Probe,
            AWAIT_TICK,
            MonitorAction::Probe,
            MonitorAction::Spawn,
            MonitorAction::Sleep { millis: 3000 },
            AWAIT_TICK,
            MonitorAction::Probe,
        ]
    );
    assert_eq!(actions.iter().filter(|a| **a == MonitorAction::Spawn).count(), 1);
    assert_eq!(state.consecutive_failures, 0);
}

#[test]
fn failed_respawn_is_tried_again_on_the_next_failed_probe() {
    let mut state = waiting(1);
    monitor_sidecar(&mut state, TICK);
    assert_eq!(monitor_sidecar(&mut state, FAILED), MonitorAction::Spawn);
    assert_eq!(monitor_sidecar(&mut state, MonitorEvent::Spawned { ok: false }), AWAIT_TICK);
    assert_eq!(state, waiting(2));
    assert_eq!(monitor_sidecar(&mut state, TICK), MonitorAction::Probe);
    assert_eq!(monitor_sidecar(&mut state, FAILED), MonitorAction::Spawn);
    assert_eq!(state.consecutive_failures, 3);
}

#[test]
fn loop_survives_a_worker_that_never_comes_up() {
    let mut state = MonitorState::new();
    monitor_sidecar(&mut state, MonitorEvent::Elapsed);
    monitor_sidecar(&mut state, MonitorEvent::Spawned { ok: false });
    let mut spawns: u32 = 0;
    for round in 0..1000u32 {
        assert_eq!(monitor_sidecar(&mut state, TICK), MonitorAction::Probe);
        let action = monitor_sidecar(&mut state, FAILED);
        if round == 0 {
            assert_eq!(action, AWAIT_TICK);
        } else {
            assert_eq!(action, MonitorAction::Spawn);
            spawns += 1;
            assert_eq!(monitor_sidecar(&mut state, MonitorEvent::Spawned { ok: false }), AWAIT_TICK);
        }
        assert_ne!(state.phase, MonitorPhase::Finished);
    }
    assert_eq!(spawns, 999);
    assert_eq!(state, waiting(1000));
}

#[test]
fn failure_counter_stops_at_its_largest_value() {
    let mut state = MonitorState { phase: MonitorPhase::Probing, consecutive_failures: u32::MAX };
    assert_eq!(monitor_sidecar(&mut state, FAILED), MonitorAction::Spawn);
    assert_eq!(state.consecutive_failures, u32::MAX);
}

#[test]
fn cleared_flag_ends_the_loop_at_the_next_tick() {
    let mut state = waiting(1);
    assert_eq!(
        monitor_sidecar(&mut state, MonitorEvent::Tick { should_run: false }),
        MonitorAction::Exit
    );
    assert_eq!(state.phase, MonitorPhase::Finished);
    for event in [TICK, FAILED, HEALTHY, MonitorEvent::Elapsed, MonitorEvent::Spawned { ok: true }] {
        assert_eq!(monitor_sidecar(&mut state, event), MonitorAction::Exit);
        assert_eq!(state.phase, MonitorPhase::Finished);
    }
}

#[test]
fn cleared_flag_is_seen_only_at_a_tick() {
    let mut state = MonitorState { phase: MonitorPhase::Probing, consecutive_failures: 0 };
    assert_eq!(
        monitor_sidecar(&mut state, MonitorEvent::Tick { should_run: false }),
        MonitorAction::Probe
    );
    assert_eq!(state.phase, MonitorPhase::Probing);
}

#[test]
fn event_out_of_turn_repeats_the_pending_action() {
    let mut state = waiting(1);
    assert_eq!(monitor_sidecar(&mut state, FAILED), AWAIT_TICK);
    assert_eq!(monitor_sidecar(&mut state, MonitorEvent::Spawned { ok: true }), AWAIT_TICK);
    assert_eq!(monitor_sidecar(&mut state, MonitorEvent::Elapsed), AWAIT_TICK);
    assert_eq!(state, waiting(1));
    let mut fresh = MonitorState::new();
    assert_eq!(monitor_sidecar(&mut fresh, TICK), MonitorAction::Sleep { millis: 500 });
    assert_eq!(fresh, MonitorState::new());
}
