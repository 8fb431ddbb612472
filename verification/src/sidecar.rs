//! Supervision of the worker process: the slot that holds its handle, and the
//! decisions taken on start, stop, respawn, health probes and output.
//!
//! The handle type `H` is whatever the application's process launcher gives
//! out. The library never looks inside it: it only decides who owns it. A
//! handle leaves the slot by being handed to the caller, who alone is then
//! responsible for terminating that process.
//!
//! A spawn takes time, and the supervisor knows while one is under way: the
//! request that asks for it claims the slot in the same step. Nobody else is
//! asked to spawn until that spawn has ended or a stop has called it off.

use vstd::multiset::Multiset;
use vstd::prelude::*;
use vstd::string::StringExecFns;
use crate::error::SidecarError;

verus! {

/// The worker's state as the supervisor knows it.
#[derive(Debug, PartialEq, Eq)]
pub enum WorkerPhase<H> {
    /// No worker is held and no spawn is under way.
    Stopped,
    /// A start has asked for a spawn that has not ended yet.
    Starting,
    /// The handle of the worker believed to be running.
    Running(H),
    /// The monitor loop has asked for a spawn that has not ended yet.
    Restarting,
}

/// The supervisor's state: the worker, and the flag that lets the monitor
/// loop continue.
#[derive(Debug, PartialEq, Eq)]
pub struct SidecarManager<H> {
    pub worker: WorkerPhase<H>,
    pub should_run: bool,
}

impl<H> SidecarManager<H> {
    /// A supervisor with no worker, whose monitor loop may run.
    pub fn new() -> (manager: Self)
        ensures
            manager.worker == WorkerPhase::<H>::Stopped,
            manager.should_run,
    {
        SidecarManager { worker: WorkerPhase::Stopped, should_run: true }
    }
}

/// The answer to a start request that did not fail.
#[derive(Clone, Copy, Debug, PartialEq, Eq, Structural)]
pub enum StartStatus {
    AlreadyRunning,
    Started,
}

impl StartStatus {
    /// The status as the caller sees it.
    pub open spec fn label_text(self) -> Seq<char> {
        match self {
            StartStatus::AlreadyRunning => "already_running"@,
            StartStatus::Started => "started"@,
        }
    }

    /// The status as the caller sees it.
    pub fn label(&self) -> (text: String)
        ensures
            text@ == self.label_text(),
    {
        match self {
            StartStatus::AlreadyRunning => String::from_str("already_running"),
            StartStatus::Started => String::from_str("started"),
        }
    }
}

/// What a start or a respawn is told.
#[derive(Debug, PartialEq, Eq)]
pub enum SpawnEvent<H> {
    /// The operation is asked for.
    Requested,
    /// The spawn that the operation asked for has ended: with the handle of a
    /// process whose output is being drained, or with a failure.
    Spawned(Result<H, SidecarError>),
}

/// What `start_sidecar` asks of its caller.
#[derive(Debug, PartialEq, Eq)]
pub enum StartAction<H> {
    /// Spawn the worker, attach the reader that drains its output, and report
    /// back with `SpawnEvent::Spawned`.
    Spawn,
    /// The request is answered with `result`. A handle in `surplus` belongs
    /// to a process that must not live on: the caller terminates it.
    Done { result: Result<StartStatus, SidecarError>, surplus: Option<H> },
}

/// The start operation as a function of the worker's state and the event.
///
/// A request finds the worker stopped, claims the slot and asks for a spawn.
/// In every other state, whether a worker runs or a spawn is under way, the
/// request is answered with "already running" and nothing is spawned. The
/// spawned process becomes the running worker if the slot is still claimed
/// by this start. If a stop has called the start off, or the spawn was never
/// asked for, the process is handed back to be terminated; the answer is
/// "started" unless another worker runs. A failed spawn frees the slot and is
/// reported.
pub open spec fn start_step<H>(worker: WorkerPhase<H>, event: SpawnEvent<H>) -> (
    WorkerPhase<H>,
    StartAction<H>,
) {
    match (worker, event) {
        (WorkerPhase::Stopped, SpawnEvent::Requested) => (
            WorkerPhase::Starting,
            StartAction::Spawn,
        ),
        (_, SpawnEvent::Requested) => (
            worker,
            StartAction::Done { result: Ok(StartStatus::AlreadyRunning), surplus: None },
        ),
        (WorkerPhase::Starting, SpawnEvent::Spawned(Ok(handle))) => (
            WorkerPhase::Running(handle),
            StartAction::Done { result: Ok(StartStatus::Started), surplus: None },
        ),
        (WorkerPhase::Starting, SpawnEvent::Spawned(Err(e))) => (
            WorkerPhase::Stopped,
            StartAction::Done { result: Err(e), surplus: None },
        ),
        (WorkerPhase::Running(_), SpawnEvent::Spawned(Ok(handle))) => (
            worker,
            StartAction::Done { result: Ok(StartStatus::AlreadyRunning), surplus: Some(handle) },
        ),
        (_, SpawnEvent::Spawned(Ok(handle))) => (
            worker,
            StartAction::Done { result: Ok(StartStatus::Started), surplus: Some(handle) },
        ),
        (_, SpawnEvent::Spawned(Err(e))) => (
            worker,
            StartAction::Done { result: Err(e), surplus: None },
        ),
    }
}

fn start_transition<H>(worker: WorkerPhase<H>, event: SpawnEvent<H>) -> (r: (
    WorkerPhase<H>,
    StartAction<H>,
))
    ensures
        r == start_step(worker, event),
{
    match (worker, event) {
        (WorkerPhase::Stopped, SpawnEvent::Requested) => (
            WorkerPhase::Starting,
            StartAction::Spawn,
        ),
        (worker, SpawnEvent::Requested) => (
            worker,
            StartAction::Done { result: Ok(StartStatus::AlreadyRunning), surplus: None },
        ),
        (WorkerPhase::Starting, SpawnEvent::Spawned(Ok(handle))) => (
            WorkerPhase::Running(handle),
            StartAction::Done { result: Ok(StartStatus::Started), surplus: None },
        ),
        (WorkerPhase::Starting, SpawnEvent::Spawned(Err(e))) => (
            WorkerPhase::Stopped,
            StartAction::Done { result: Err(e), surplus: None },
        ),
        (WorkerPhase::Running(held), SpawnEvent::Spawned(Ok(handle))) => (
            WorkerPhase::Running(held),
            StartAction::Done { result: Ok(StartStatus::AlreadyRunning), surplus: Some(handle) },
        ),
        (worker, SpawnEvent::Spawned(Ok(handle))) => (
            worker,
            StartAction::Done { result: Ok(StartStatus::Started), surplus: Some(handle) },
        ),
        (worker, SpawnEvent::Spawned(Err(e))) => (
            worker,
            StartAction::Done { result: Err(e), surplus: None },
        ),
    }
}

/// One step of starting the worker.
///
/// The caller begins with `SpawnEvent::Requested`. If it is asked to spawn,
/// it does so and reports how that went. Check and claim are one step: of
/// any number of requests that find the worker stopped, one is asked to
/// spawn.
pub fn start_sidecar<H>(manager: &mut SidecarManager<H>, event: SpawnEvent<H>) -> (action:
    StartAction<H>)
    ensures
        (final(manager).worker, action) == start_step(old(manager).worker, event),
        final(manager).should_run == old(manager).should_run,
{
    let mut worker: WorkerPhase<H> = WorkerPhase::Stopped;
    core::mem::swap(&mut manager.worker, &mut worker);
    let (next, action) = start_transition(worker, event);
    manager.worker = next;
    action
}

/// What `stop_sidecar` is told.
#[derive(Debug, PartialEq, Eq)]
pub enum StopEvent {
    /// The stop is asked for.
    Requested,
    /// The process handed out for termination was terminated, or could not be.
    Killed(Result<(), String>),
}

/// What `stop_sidecar` asks of its caller.
#[derive(Debug, PartialEq, Eq)]
pub enum StopAction<H> {
    /// Terminate this process and report back with `StopEvent::Killed`.
    Kill(H),
    /// The request is answered.
    Done(Result<(), SidecarError>),
}

/// The stop operation as a function of the worker's state and the event.
///
/// A request leaves the worker stopped, whatever it was. A running worker's
/// handle goes to the caller for termination. A spawn under way is called
/// off: its process, when it arrives, finds the slot unclaimed and is handed
/// back. With nothing running the request succeeds at once.
pub open spec fn stop_step<H>(worker: WorkerPhase<H>, event: StopEvent) -> (
    WorkerPhase<H>,
    StopAction<H>,
) {
    match (worker, event) {
        (WorkerPhase::Running(handle), StopEvent::Requested) => (
            WorkerPhase::Stopped,
            StopAction::Kill(handle),
        ),
        (_, StopEvent::Requested) => (WorkerPhase::Stopped, StopAction::Done(Ok(()))),
        (_, StopEvent::Killed(Ok(_))) => (worker, StopAction::Done(Ok(()))),
        (_, StopEvent::Killed(Err(e))) => (
            worker,
            StopAction::Done(Err(SidecarError::KillFailed(e))),
        ),
    }
}

fn stop_transition<H>(worker: WorkerPhase<H>, event: StopEvent) -> (r: (
    WorkerPhase<H>,
    StopAction<H>,
))
    ensures
        r == stop_step(worker, event),
{
    match (worker, event) {
        (WorkerPhase::Running(handle), StopEvent::Requested) => (
            WorkerPhase::Stopped,
            StopAction::Kill(handle),
        ),
        (_, StopEvent::Requested) => (WorkerPhase::Stopped, StopAction::Done(Ok(()))),
        (worker, StopEvent::Killed(Ok(_))) => (worker, StopAction::Done(Ok(()))),
        (worker, StopEvent::Killed(Err(e))) => (
            worker,
            StopAction::Done(Err(SidecarError::KillFailed(e))),
        ),
    }
}

/// The continuation flag after a step of a stop: a request clears it, and
/// nothing sets it.
pub open spec fn flag_after_stop(should_run: bool, event: StopEvent) -> bool {
    match event {
        StopEvent::Requested => false,
        _ => should_run,
    }
}

/// One step of stopping the worker. The request clears the continuation
/// flag first, so that the monitor loop brings no worker back.
pub fn stop_sidecar<H>(manager: &mut SidecarManager<H>, event: StopEvent) -> (action: StopAction<
    H,
>)
    ensures
        (final(manager).worker, action) == stop_step(old(manager).worker, event),
        final(manager).should_run == flag_after_stop(old(manager).should_run, event),
{
    match &event {
        StopEvent::Requested => {
            manager.should_run = false;
        },
        _ => {},
    }
    let mut worker: WorkerPhase<H> = WorkerPhase::Stopped;
    core::mem::swap(&mut manager.worker, &mut worker);
    let (next, action) = stop_transition(worker, event);
    manager.worker = next;
    action
}

/// Whether a worker is believed to be running: a handle is held. This is no
/// health probe.
pub fn sidecar_status<H>(manager: &SidecarManager<H>) -> (running: bool)
    ensures
        running == (manager.worker is Running),
{
    match &manager.worker {
        WorkerPhase::Running(_) => true,
        _ => false,
    }
}

/// What `spawn_sidecar` asks of its caller.
#[derive(Debug, PartialEq, Eq)]
pub enum RespawnAction<H> {
    /// Terminate the process in `stale`, if there is one, without regard to
    /// whether that succeeds; then spawn the worker, attach the reader that
    /// drains its output, and report back with `SpawnEvent::Spawned`.
    Spawn { stale: Option<H> },
    /// The respawn has ended. A handle in `surplus` belongs to a process
    /// that must not live on: the caller terminates it.
    Done { spawned: bool, surplus: Option<H> },
}

/// The respawn operation as a function of the worker's state and the event.
///
/// A request claims the slot and asks for a spawn; a worker that ran goes
/// out as stale. While another spawn is under way the request does nothing
/// and reports that no worker was spawned. The spawned process becomes the
/// running worker if the slot is still claimed by this respawn; otherwise it
/// is handed back. A failed spawn frees the slot.
pub open spec fn respawn_step<H>(worker: WorkerPhase<H>, event: SpawnEvent<H>) -> (
    WorkerPhase<H>,
    RespawnAction<H>,
) {
    match (worker, event) {
        (WorkerPhase::Stopped, SpawnEvent::Requested) => (
            WorkerPhase::Restarting,
            RespawnAction::Spawn { stale: None },
        ),
        (WorkerPhase::Running(handle), SpawnEvent::Requested) => (
            WorkerPhase::Restarting,
            RespawnAction::Spawn { stale: Some(handle) },
        ),
        (_, SpawnEvent::Requested) => (
            worker,
            RespawnAction::Done { spawned: false, surplus: None },
        ),
        (WorkerPhase::Restarting, SpawnEvent::Spawned(Ok(handle))) => (
            WorkerPhase::Running(handle),
            RespawnAction::Done { spawned: true, surplus: None },
        ),
        (WorkerPhase::Restarting, SpawnEvent::Spawned(Err(_))) => (
            WorkerPhase::Stopped,
            RespawnAction::Done { spawned: false, surplus: None },
        ),
        (_, SpawnEvent::Spawned(Ok(handle))) => (
            worker,
            RespawnAction::Done { spawned: false, surplus: Some(handle) },
        ),
        (_, SpawnEvent::Spawned(Err(_))) => (
            worker,
            RespawnAction::Done { spawned: false, surplus: None },
        ),
    }
}

fn respawn_transition<H>(worker: WorkerPhase<H>, event: SpawnEvent<H>) -> (r: (
    WorkerPhase<H>,
    RespawnAction<H>,
))
    ensures
        r == respawn_step(worker, event),
{
    match (worker, event) {
        (WorkerPhase::Stopped, SpawnEvent::Requested) => (
            WorkerPhase::Restarting,
            RespawnAction::Spawn { stale: None },
        ),
        (WorkerPhase::Running(handle), SpawnEvent::Requested) => (
            WorkerPhase::Restarting,
            RespawnAction::Spawn { stale: Some(handle) },
        ),
        (worker, SpawnEvent::Requested) => (
            worker,
            RespawnAction::Done { spawned: false, surplus: None },
        ),
        (WorkerPhase::Restarting, SpawnEvent::Spawned(Ok(handle))) => (
            WorkerPhase::Running(handle),
            RespawnAction::Done { spawned: true, surplus: None },
        ),
        (WorkerPhase::Restarting, SpawnEvent::Spawned(Err(_))) => (
            WorkerPhase::Stopped,
            RespawnAction::Done { spawned: false, surplus: None },
        ),
        (worker, SpawnEvent::Spawned(Ok(handle))) => (
            worker,
            RespawnAction::Done { spawned: false, surplus: Some(handle) },
        ),
        (worker, SpawnEvent::Spawned(Err(_))) => (
            worker,
            RespawnAction::Done { spawned: false, surplus: None },
        ),
    }
}

/// One step of replacing the worker by a fresh one: the monitor loop's
/// spawn.
pub fn spawn_sidecar<H>(manager: &mut SidecarManager<H>, event: SpawnEvent<H>) -> (action:
    RespawnAction<H>)
    ensures
        (final(manager).worker, action) == respawn_step(old(manager).worker, event),
        final(manager).should_run == old(manager).should_run,
{
    let mut worker: WorkerPhase<H> = WorkerPhase::Stopped;
    core::mem::swap(&mut manager.worker, &mut worker);
    let (next, action) = respawn_transition(worker, event);
    manager.worker = next;
    action
}

/// How a health probe ended.
#[derive(Clone, Copy, Debug, PartialEq, Eq, Structural)]
pub enum ProbeOutcome {
    /// No client could be set up for the request.
    NoClient,
    /// The request failed or ran into its timeout.
    NoResponse,
    /// The worker answered with this HTTP status code.
    Status(u16),
}

/// Whether an HTTP status code reports success: the codes from 200 to 299.
pub open spec fn is_success_status(code: u16) -> bool {
    200 <= code <= 299
}

/// Whether a probe found the worker healthy: it answered, and with a success
/// status. What the answer carried does not matter.
pub open spec fn is_healthy(outcome: ProbeOutcome) -> bool {
    match outcome {
        ProbeOutcome::Status(code) => is_success_status(code),
        _ => false,
    }
}

/// Judges one health probe.
pub fn check_sidecar_health(outcome: ProbeOutcome) -> (healthy: bool)
    ensures
        healthy == is_healthy(outcome),
{
    match outcome {
        ProbeOutcome::Status(code) => 200 <= code && code <= 299,
        _ => false,
    }
}

/// The request that a health probe makes.
#[derive(Debug, PartialEq, Eq)]
pub struct ProbeRequest {
    /// The worker's health endpoint.
    pub url: String,
    /// After how many seconds the probe gives up.
    pub timeout_secs: u64,
}

/// The health probe: a request to the worker's endpoint on the loopback
/// address that gives up after two seconds, so that a hung worker cannot
/// stall the monitor loop.
pub fn health_probe() -> (request: ProbeRequest)
    ensures
        request.url@ == "http://127.0.0.1:8765/health"@,
        request.timeout_secs == 2,
{
    ProbeRequest { url: String::from_str("http://127.0.0.1:8765/health"), timeout_secs: 2 }
}

/// One thing that the worker process lets its reader know.
#[derive(Debug, PartialEq, Eq)]
pub enum OutputEvent {
    /// A line on standard output.
    Stdout(String),
    /// A line on standard error.
    Stderr(String),
    /// The process has ended.
    Terminated,
    /// Anything else.
    Other,
}

/// How heavy a logged line weighs.
#[derive(Clone, Copy, Debug, PartialEq, Eq, Structural)]
pub enum Severity {
    Info,
    Warning,
}

/// What the reader does with one event of the worker's output.
#[derive(Debug, PartialEq, Eq)]
pub enum DrainStep {
    /// Log the line and read on.
    Log { severity: Severity, line: String },
    /// Read on.
    Skip,
    /// The process is gone: stop reading.
    Finish,
}

/// The reader's rule: standard output is information, standard error is a
/// warning, and the end of the process ends the reading.
pub open spec fn drain_step(event: OutputEvent) -> DrainStep {
    match event {
        OutputEvent::Stdout(line) => DrainStep::Log { severity: Severity::Info, line },
        OutputEvent::Stderr(line) => DrainStep::Log { severity: Severity::Warning, line },
        OutputEvent::Terminated => DrainStep::Finish,
        OutputEvent::Other => DrainStep::Skip,
    }
}

/// Routes one event of the worker's output.
pub fn drain_output(event: OutputEvent) -> (step: DrainStep)
    ensures
        step == drain_step(event),
{
    match event {
        OutputEvent::Stdout(line) => DrainStep::Log { severity: Severity::Info, line },
        OutputEvent::Stderr(line) => DrainStep::Log { severity: Severity::Warning, line },
        OutputEvent::Terminated => DrainStep::Finish,
        OutputEvent::Other => DrainStep::Skip,
    }
}

/// The handles that the supervisor holds: one or none.
pub open spec fn held<H>(worker: WorkerPhase<H>) -> Multiset<H> {
    match worker {
        WorkerPhase::Running(handle) => Multiset::singleton(handle),
        _ => Multiset::empty(),
    }
}

/// The handles in an optional handle.
pub open spec fn handles_in<H>(slot: Option<H>) -> Multiset<H> {
    match slot {
        Some(handle) => Multiset::singleton(handle),
        None => Multiset::empty(),
    }
}

/// The handles that an event brings.
pub open spec fn handles_in_event<H>(event: SpawnEvent<H>) -> Multiset<H> {
    match event {
        SpawnEvent::Spawned(Ok(handle)) => Multiset::singleton(handle),
        _ => Multiset::empty(),
    }
}

/// The handles that an action of `start_sidecar` gives to the caller.
pub open spec fn handles_in_start_action<H>(action: StartAction<H>) -> Multiset<H> {
    match action {
        StartAction::Done { surplus, .. } => handles_in(surplus),
        StartAction::Spawn => Multiset::empty(),
    }
}

/// The handles that an action of `stop_sidecar` gives to the caller.
pub open spec fn handles_in_stop_action<H>(action: StopAction<H>) -> Multiset<H> {
    match action {
        StopAction::Kill(handle) => Multiset::singleton(handle),
        StopAction::Done(_) => Multiset::empty(),
    }
}

/// The handles that an action of `spawn_sidecar` gives to the caller.
pub open spec fn handles_in_respawn_action<H>(action: RespawnAction<H>) -> Multiset<H> {
    match action {
        RespawnAction::Spawn { stale } => handles_in(stale),
        RespawnAction::Done { surplus, .. } => handles_in(surplus),
    }
}

/// Whether a spawn is under way.
pub open spec fn spawn_under_way<H>(worker: WorkerPhase<H>) -> bool {
    worker is Starting || worker is Restarting
}

/// Two starts in a row give "started", then "already running", and the slot
/// holds the one handle of the first start throughout.
pub proof fn lemma_second_start_finds_worker<H>(handle: H)
    ensures
        ({
            let (asked, first) = start_step(WorkerPhase::<H>::Stopped, SpawnEvent::Requested);
            let (running, second) = start_step(asked, SpawnEvent::Spawned(Ok(handle)));
            let (after, third) = start_step(running, SpawnEvent::Requested);
            &&& first == StartAction::<H>::Spawn
            &&& second == StartAction::<H>::Done { result: Ok(StartStatus::Started), surplus: None }
            &&& third == StartAction::<H>::Done {
                result: Ok(StartStatus::AlreadyRunning),
                surplus: None,
            }
            &&& running == WorkerPhase::Running(handle)
            &&& after == running
        }),
{
}

/// Check and spawn are one step. A start is asked to spawn only when it
/// finds the worker stopped, and it leaves the slot claimed; a respawn only
/// when no spawn is under way, and it leaves the slot claimed. So two
/// requests, however close, never lead to two spawns: the second finds the
/// claim of the first.
pub proof fn lemma_one_spawn_at_a_time<H>(worker: WorkerPhase<H>, event: SpawnEvent<H>)
    ensures
        start_step(worker, event).1 is Spawn <==> worker is Stopped && event is Requested,
        start_step(worker, event).1 is Spawn ==> start_step(worker, event).0 is Starting,
        respawn_step(worker, event).1 is Spawn <==> !spawn_under_way(worker) && event
            is Requested,
        respawn_step(worker, event).1 is Spawn ==> respawn_step(worker, event).0 is Restarting,
        spawn_under_way(worker) ==> !(start_step(worker, event).1 is Spawn) && !(respawn_step(
            worker,
            event,
        ).1 is Spawn),
{
}

/// The second of two start requests in a row is answered with "already
/// running" and asks for no spawn, whether or not the first spawn has ended.
pub proof fn lemma_second_request_never_spawns<H>(worker: WorkerPhase<H>)
    ensures
        ({
            let (claimed, first) = start_step(worker, SpawnEvent::Requested);
            start_step(claimed, SpawnEvent::Requested) == (
                claimed,
                StartAction::<H>::Done { result: Ok(StartStatus::AlreadyRunning), surplus: None },
            )
        }),
{
}

/// While a worker runs, no start changes the supervisor, asks for a spawn
/// or lets a second process live: a handle that arrives is handed back.
pub proof fn lemma_start_keeps_single_worker<H>(held_handle: H, event: SpawnEvent<H>)
    ensures
        start_step(WorkerPhase::Running(held_handle), event).0 == WorkerPhase::Running(
            held_handle,
        ),
        !(start_step(WorkerPhase::Running(held_handle), event).1 is Spawn),
        event matches SpawnEvent::Spawned(Ok(handle)) ==> start_step(
            WorkerPhase::Running(held_handle),
            event,
        ).1 == (StartAction::Done {
            result: Ok(StartStatus::AlreadyRunning),
            surplus: Some(handle),
        }),
{
}

/// After a stop request no worker is reported, and the handle that was held
/// is with the caller or nowhere.
pub proof fn lemma_stop_leaves_no_worker<H>(worker: WorkerPhase<H>)
    ensures
        stop_step(worker, StopEvent::Requested).0 == WorkerPhase::<H>::Stopped,
        !flag_after_stop(true, StopEvent::Requested),
        match worker {
            WorkerPhase::Running(handle) => stop_step(worker, StopEvent::Requested).1
                == StopAction::Kill(handle),
            _ => stop_step(worker, StopEvent::Requested).1 == StopAction::<H>::Done(Ok(())),
        },
{
}

/// A stop is final until somebody asks again: the end of a spawn that was
/// under way when the stop came brings no worker back. Its process is handed
/// to the caller to be terminated.
pub proof fn lemma_late_spawn_cannot_undo_stop<H>(worker: WorkerPhase<H>, handle: H)
    ensures
        ({
            let stopped = stop_step(worker, StopEvent::Requested).0;
            &&& start_step(stopped, SpawnEvent::Spawned(Ok(handle))).0 == WorkerPhase::<
                H,
            >::Stopped
            &&& handles_in_start_action(start_step(stopped, SpawnEvent::Spawned(Ok(handle))).1)
                =~= Multiset::singleton(handle)
            &&& respawn_step(stopped, SpawnEvent::Spawned(Ok(handle))).0 == WorkerPhase::<
                H,
            >::Stopped
            &&& handles_in_respawn_action(
                respawn_step(stopped, SpawnEvent::Spawned(Ok(handle))).1,
            ) =~= Multiset::singleton(handle)
        }),
{
}

/// No step sets the continuation flag again once it is cleared.
pub proof fn lemma_cleared_flag_stays_cleared(event: StopEvent)
    ensures
        !flag_after_stop(false, event),
{
}

/// No step loses a handle or hands one out twice: the handles in the slot
/// and the event before a step are the handles in the slot and the action
/// after it. So every process has one owner at any time, and every process
/// that leaves the slot reaches a caller who can terminate it.
pub proof fn lemma_handles_are_conserved<H>(
    worker: WorkerPhase<H>,
    spawn: SpawnEvent<H>,
    stop: StopEvent,
)
    ensures
        held(worker).add(handles_in_event(spawn)) =~= held(start_step(worker, spawn).0).add(
            handles_in_start_action(start_step(worker, spawn).1),
        ),
        held(worker).add(handles_in_event(spawn)) =~= held(respawn_step(worker, spawn).0).add(
            handles_in_respawn_action(respawn_step(worker, spawn).1),
        ),
        held(worker) =~= held(stop_step(worker, stop).0).add(
            handles_in_stop_action(stop_step(worker, stop).1),
        ),
{
}

/// The worker's state machine. A start request moves a stopped worker to
/// starting and leaves every other as it is; the end of the spawn moves a
/// starting worker on to running or back to stopped. A stop request leaves
/// every worker stopped. A respawn moves a stopped or running worker to
/// restarting, and its end to running or stopped.
pub proof fn lemma_worker_state_machine<H>(
    worker: WorkerPhase<H>,
    handle: H,
    failure: SidecarError,
)
    ensures
        worker is Stopped ==> start_step(worker, SpawnEvent::Requested).0 is Starting,
        !(worker is Stopped) ==> start_step(worker, SpawnEvent::Requested).0 == worker,
        worker is Starting ==> start_step(worker, SpawnEvent::Spawned(Ok(handle))).0
            == WorkerPhase::Running(handle),
        worker is Starting ==> start_step(worker, SpawnEvent::Spawned(Err(failure))).0
            is Stopped,
        stop_step(worker, StopEvent::Requested).0 is Stopped,
        worker is Stopped || worker is Running ==> respawn_step(worker, SpawnEvent::Requested).0
            is Restarting,
        worker is Restarting ==> respawn_step(worker, SpawnEvent::Spawned(Ok(handle))).0
            == WorkerPhase::Running(handle),
        worker is Restarting ==> respawn_step(worker, SpawnEvent::Spawned(Err(failure))).0
            is Stopped,
{
}

} // verus!
