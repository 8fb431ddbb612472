//! The monitor loop of the worker supervisor, as a state machine.
//!
//! The loop runs once for the lifetime of the application. The application
//! owns the waiting, the probing and the spawning; this module owns the
//! decisions. `monitor_sidecar` takes what just happened and answers with what
//! to do next.

use vstd::prelude::*;
use crate::sidecar::{flag_after_stop, StopEvent};

verus! {

/// How long the loop waits for the application to come up, in milliseconds.
pub const WAKE_DELAY_MS: u64 = 500;

/// How long a freshly spawned worker is left alone, in milliseconds.
pub const GRACE_MS: u64 = 3000;

/// The time between two health probes, in milliseconds.
pub const TICK_INTERVAL_MS: u64 = 5000;

/// How many probes in a row must fail before the worker is respawned.
pub const FAILURE_THRESHOLD: u32 = 2;

/// Where the loop stands: what it is waiting for.
#[derive(Clone, Copy, Debug, PartialEq, Eq, Structural)]
pub enum MonitorPhase {
    /// Waiting for the application to come up.
    Waking,
    /// Waiting for the first spawn to end.
    InitialSpawn,
    /// Leaving a fresh worker alone.
    Settling,
    /// Waiting for the next tick.
    Waiting,
    /// Waiting for the health probe to end.
    Probing,
    /// Waiting for a respawn to end.
    Respawning,
    /// The loop has ended.
    Finished,
}

/// The loop's state.
#[derive(Clone, Copy, Debug, PartialEq, Eq, Structural)]
pub struct MonitorState {
    pub phase: MonitorPhase,
    /// How many probes have failed since the last success or respawn.
    pub consecutive_failures: u32,
}

/// What the loop is told.
#[derive(Clone, Copy, Debug, PartialEq, Eq, Structural)]
pub enum MonitorEvent {
    /// The sleep that was asked for is over.
    Elapsed,
    /// The tick has come; `should_run` is the continuation flag as read now.
    Tick { should_run: bool },
    /// The health probe has ended.
    Probed { healthy: bool },
    /// The spawn has ended.
    Spawned { ok: bool },
}

/// What the loop asks of the application.
#[derive(Clone, Copy, Debug, PartialEq, Eq, Structural)]
pub enum MonitorAction {
    /// Sleep, then report `Elapsed`.
    Sleep { millis: u64 },
    /// Replace the worker by a fresh one, then report `Spawned`.
    Spawn,
    /// Wait for the next tick of a timer with this period, read the
    /// continuation flag, then report `Tick`.
    AwaitTick { every_millis: u64 },
    /// Probe the worker's health, then report `Probed`.
    Probe,
    /// Leave the loop.
    Exit,
}

/// The action that a phase is waiting on.
pub open spec fn pending(phase: MonitorPhase) -> MonitorAction {
    match phase {
        MonitorPhase::Waking => MonitorAction::Sleep { millis: WAKE_DELAY_MS },
        MonitorPhase::InitialSpawn => MonitorAction::Spawn,
        MonitorPhase::Settling => MonitorAction::Sleep { millis: GRACE_MS },
        MonitorPhase::Waiting => MonitorAction::AwaitTick { every_millis: TICK_INTERVAL_MS },
        MonitorPhase::Probing => MonitorAction::Probe,
        MonitorPhase::Respawning => MonitorAction::Spawn,
        MonitorPhase::Finished => MonitorAction::Exit,
    }
}

/// The failure counter after one more failed probe. It stops at the largest
/// value it can hold, which is far beyond the threshold.
pub open spec fn one_more_failure(failures: u32) -> u32 {
    if failures < u32::MAX {
        (failures + 1) as u32
    } else {
        failures
    }
}

/// The loop's transition function.
///
/// An event that the phase is not waiting for changes nothing.
pub open spec fn monitor_step(state: MonitorState, event: MonitorEvent) -> MonitorState {
    match (state.phase, event) {
        (MonitorPhase::Waking, MonitorEvent::Elapsed) => MonitorState {
            phase: MonitorPhase::InitialSpawn,
            ..state
        },
        (MonitorPhase::InitialSpawn, MonitorEvent::Spawned { ok }) => MonitorState {
            phase: if ok {
                MonitorPhase::Settling
            } else {
                MonitorPhase::Waiting
            },
            ..state
        },
        (MonitorPhase::Settling, MonitorEvent::Elapsed) => MonitorState {
            phase: MonitorPhase::Waiting,
            ..state
        },
        (MonitorPhase::Waiting, MonitorEvent::Tick { should_run }) => MonitorState {
            phase: if should_run {
                MonitorPhase::Probing
            } else {
                MonitorPhase::Finished
            },
            ..state
        },
        (MonitorPhase::Probing, MonitorEvent::Probed { healthy }) => if healthy {
            MonitorState { phase: MonitorPhase::Waiting, consecutive_failures: 0 }
        } else {
            let failures = one_more_failure(state.consecutive_failures);
            MonitorState {
                phase: if failures >= FAILURE_THRESHOLD {
                    MonitorPhase::Respawning
                } else {
                    MonitorPhase::Waiting
                },
                consecutive_failures: failures,
            }
        },
        (MonitorPhase::Respawning, MonitorEvent::Spawned { ok }) => if ok {
            MonitorState { phase: MonitorPhase::Settling, consecutive_failures: 0 }
        } else {
            MonitorState { phase: MonitorPhase::Waiting, ..state }
        },
        _ => state,
    }
}

/// The state after a run of events, taken in order.
pub open spec fn monitor_run(state: MonitorState, events: Seq<MonitorEvent>) -> MonitorState
    decreases events.len(),
{
    if events.len() == 0 {
        state
    } else {
        monitor_step(monitor_run(state, events.drop_last()), events.last())
    }
}

impl MonitorState {
    /// The loop before its first step: it is about to wait for the
    /// application to come up, and no probe has failed.
    pub fn new() -> (state: Self)
        ensures
            state == (MonitorState { phase: MonitorPhase::Waking, consecutive_failures: 0 }),
    {
        MonitorState { phase: MonitorPhase::Waking, consecutive_failures: 0 }
    }

    /// The action that the loop is waiting on.
    pub fn pending_action(&self) -> (action: MonitorAction)
        ensures
            action == pending(self.phase),
    {
        match self.phase {
            MonitorPhase::Waking => MonitorAction::Sleep { millis: WAKE_DELAY_MS },
            MonitorPhase::InitialSpawn => MonitorAction::Spawn,
            MonitorPhase::Settling => MonitorAction::Sleep { millis: GRACE_MS },
            MonitorPhase::Waiting => MonitorAction::AwaitTick { every_millis: TICK_INTERVAL_MS },
            MonitorPhase::Probing => MonitorAction::Probe,
            MonitorPhase::Respawning => MonitorAction::Spawn,
            MonitorPhase::Finished => MonitorAction::Exit,
        }
    }
}

/// One step of the monitor loop.
///
/// The loop first lets the application come up and spawns the worker. Then,
/// tick by tick, it leaves if the continuation flag is cleared and probes the
/// worker otherwise. A healthy answer clears the failure counter. A failed
/// probe counts; at the threshold the worker is respawned. A respawn that
/// works clears the counter and earns the worker a grace period; one that
/// fails is tried again after the next failed probe. The answer is always the
/// action that the new phase waits on.
pub fn monitor_sidecar(state: &mut MonitorState, event: MonitorEvent) -> (action: MonitorAction)
    ensures
        *final(state) == monitor_step(*old(state), event),
        action == pending(final(state).phase),
{
    match (state.phase, event) {
        (MonitorPhase::Waking, MonitorEvent::Elapsed) => {
            state.phase = MonitorPhase::InitialSpawn;
        },
        (MonitorPhase::InitialSpawn, MonitorEvent::Spawned { ok }) => {
            state.phase = if ok {
                MonitorPhase::Settling
            } else {
                MonitorPhase::Waiting
            };
        },
        (MonitorPhase::Settling, MonitorEvent::Elapsed) => {
            state.phase = MonitorPhase::Waiting;
        },
        (MonitorPhase::Waiting, MonitorEvent::Tick { should_run }) => {
            state.phase = if should_run {
                MonitorPhase::Probing
            } else {
                MonitorPhase::Finished
            };
        },
        (MonitorPhase::Probing, MonitorEvent::Probed { healthy }) => {
            if healthy {
                state.consecutive_failures = 0;
                state.phase = MonitorPhase::Waiting;
            } else {
                if state.consecutive_failures < u32::MAX {
                    state.consecutive_failures = state.consecutive_failures + 1;
                }
                state.phase = if state.consecutive_failures >= FAILURE_THRESHOLD {
                    MonitorPhase::Respawning
                } else {
                    MonitorPhase::Waiting
                };
            }
        },
        (MonitorPhase::Respawning, MonitorEvent::Spawned { ok }) => {
            if ok {
                state.consecutive_failures = 0;
                state.phase = MonitorPhase::Settling;
            } else {
                state.phase = MonitorPhase::Waiting;
            }
        },
        _ => {},
    }
    state.pending_action()
}

/// The loop ends in one way only: a tick finds the continuation flag
/// cleared. And a tick that finds it cleared always ends the loop.
pub proof fn lemma_exit_only_on_cleared_flag(state: MonitorState, event: MonitorEvent)
    requires
        state.phase != MonitorPhase::Finished,
    ensures
        monitor_step(state, event).phase == MonitorPhase::Finished <==> (state.phase
            == MonitorPhase::Waiting && event == (MonitorEvent::Tick { should_run: false })),
{
}

/// Once the loop has ended, nothing starts it again.
pub proof fn lemma_finished_is_final(state: MonitorState, event: MonitorEvent)
    requires
        state.phase == MonitorPhase::Finished,
    ensures
        monitor_step(state, event) == state,
        pending(monitor_step(state, event).phase) == MonitorAction::Exit,
{
}

/// Whatever happens to probes and spawns, the loop goes on as long as no tick
/// finds the continuation flag cleared.
pub proof fn lemma_loop_survives(state: MonitorState, events: Seq<MonitorEvent>)
    requires
        state.phase != MonitorPhase::Finished,
        forall|i: int|
            0 <= i < events.len() ==> #[trigger] events[i] != (MonitorEvent::Tick {
                should_run: false,
            }),
    ensures
        monitor_run(state, events).phase != MonitorPhase::Finished,
    decreases events.len(),
{
    if events.len() > 0 {
        let before = events.drop_last();
        assert forall|i: int| 0 <= i < before.len() implies #[trigger] before[i] != (
        MonitorEvent::Tick { should_run: false }) by {
            assert(before[i] == events[i]);
        }
        lemma_loop_survives(state, before);
        assert(events.last() == events[events.len() - 1]);
        lemma_exit_only_on_cleared_flag(monitor_run(state, before), events.last());
    }
}

/// A respawn is asked for exactly when a probe fails and brings the count of
/// failures in a row to the threshold or beyond it.
pub proof fn lemma_respawn_exactly_at_threshold(state: MonitorState, event: MonitorEvent)
    requires
        state.phase != MonitorPhase::Respawning,
    ensures
        monitor_step(state, event).phase == MonitorPhase::Respawning <==> (state.phase
            == MonitorPhase::Probing && event == (MonitorEvent::Probed { healthy: false })
            && state.consecutive_failures + 1 >= FAILURE_THRESHOLD),
{
}

/// Two failed probes in a row, counted from zero, bring one respawn: the
/// first failure only counts, the second asks for the spawn, and when the
/// spawn has ended the loop rests or waits for its tick. It asks for no
/// second spawn and for no probe before the next tick.
pub proof fn lemma_two_failures_one_respawn(state: MonitorState, ok: bool)
    requires
        state.phase == MonitorPhase::Waiting,
        state.consecutive_failures == 0,
    ensures
        ({
            let tick = MonitorEvent::Tick { should_run: true };
            let failed = MonitorEvent::Probed { healthy: false };
            let probing = monitor_step(state, tick);
            let counted = monitor_step(probing, failed);
            let probing_again = monitor_step(counted, tick);
            let respawning = monitor_step(probing_again, failed);
            let spawned = monitor_step(respawning, MonitorEvent::Spawned { ok });
            let rested = monitor_step(spawned, MonitorEvent::Elapsed);
            &&& pending(probing.phase) == MonitorAction::Probe
            &&& pending(counted.phase) == MonitorAction::AwaitTick { every_millis: TICK_INTERVAL_MS }
            &&& pending(probing_again.phase) == MonitorAction::Probe
            &&& pending(respawning.phase) == MonitorAction::Spawn
            &&& respawning.consecutive_failures == 2
            &&& ok ==> spawned == MonitorState {
                phase: MonitorPhase::Settling,
                consecutive_failures: 0,
            }
            &&& !ok ==> spawned == MonitorState {
                phase: MonitorPhase::Waiting,
                consecutive_failures: 2,
            }
            &&& rested.phase == MonitorPhase::Waiting
            &&& pending(rested.phase) == MonitorAction::AwaitTick { every_millis: TICK_INTERVAL_MS }
        }),
{
}

/// A probe is asked for only when a tick has come with the continuation flag
/// set: never straight after a spawn, a sleep or another probe.
pub proof fn lemma_probe_follows_tick(state: MonitorState, event: MonitorEvent)
    requires
        state.phase != MonitorPhase::Probing,
    ensures
        monitor_step(state, event).phase == MonitorPhase::Probing <==> (state.phase
            == MonitorPhase::Waiting && event == (MonitorEvent::Tick { should_run: true })),
{
}

/// A stop request ends the monitor loop at its next tick: the tick reads the
/// flag that the stop has cleared.
pub proof fn lemma_stop_ends_loop_at_next_tick(should_run: bool, state: MonitorState)
    requires
        state.phase == MonitorPhase::Waiting,
    ensures
        monitor_step(
            state,
            MonitorEvent::Tick { should_run: flag_after_stop(should_run, StopEvent::Requested) },
        ).phase == MonitorPhase::Finished,
{
}

} // verus!
