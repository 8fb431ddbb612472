//! The recording session: at most one capture at a time, set up step by step
//! and torn down in a fixed order.
//!
//! `S` is the application's handle for a live input stream, `W` its handle
//! for the waveform writer that the stream's callback feeds. The library
//! never looks inside either. It holds them while the session lasts and hands
//! each out exactly once: the stream to be severed, and only after that the
//! writer to be finalized.

use vstd::multiset::Multiset;
use vstd::prelude::*;
use crate::device::{find_device, first_carrying};
use crate::error::AudioError;
use crate::format::{
    capture_format_of,
    check_sample_format,
    wav_spec_for,
    wav_spec_from_config,
    CaptureFormat,
    InputConfig,
    SampleFormat,
    WavSpec,
};

verus! {

/// The device that a session records from.
#[derive(Clone, Copy, Debug, PartialEq, Eq, Structural)]
pub enum DeviceChoice {
    /// The device at this place of the list that the host gave.
    Listed(usize),
    /// The host's default input device.
    Default,
}

/// Where a session stands. Every phase holds exactly what belongs to it, so
/// that a second stream or writer has no place to be.
#[derive(Debug, PartialEq, Eq)]
pub enum SessionPhase<S, W> {
    /// No session.
    Idle,
    /// Starting: waiting for the host's list of devices, to find `label`.
    ListingDevices { label: String },
    /// Starting: waiting to hear whether there is a default device.
    FindingDefault,
    /// Starting: waiting for the device's default input configuration.
    ReadingConfig,
    /// Starting: waiting for the output file to be opened.
    OpeningWriter { format: CaptureFormat },
    /// Starting: the file is open, waiting for the stream to run.
    StartingStream { writer: W, path: String },
    /// Capturing.
    Recording { stream: S, writer: W, path: String },
    /// Stopping: the stream is with the caller, to be severed.
    Severing { writer: W, path: String },
    /// Stopping: the writer is with the caller, to be finalized.
    Finalizing { path: String, samples: u64 },
}

/// The state of the recording subsystem.
#[derive(Debug, PartialEq, Eq)]
pub struct AudioState<S, W> {
    pub phase: SessionPhase<S, W>,
}

/// What `start_audio_recording` is told.
#[derive(Debug, PartialEq, Eq)]
pub enum StartEvent<S, W> {
    /// A recording is asked for, from the device with this label or, without
    /// a label, from the default device.
    Requested { device_label: Option<String> },
    /// The host's answer to `ListDevices`: the descriptor name of each input
    /// device, `None` where it could not be read; or the host's failure.
    DevicesListed(Result<Vec<Option<String>>, String>),
    /// The host's answer to `FindDefaultDevice`.
    DefaultDevice { present: bool },
    /// The device's answer to `ReadConfig`.
    ConfigRead(Result<InputConfig, String>),
    /// The end of `OpenWriter`: the writer and the path of its file, or the
    /// failure.
    WriterOpened(Result<(W, String), AudioError>),
    /// The end of `StartStream`: the running stream, or the failure.
    StreamStarted(Result<S, AudioError>),
}

/// What `start_audio_recording` asks of its caller.
#[derive(Debug, PartialEq, Eq)]
pub enum StartAction<S, W> {
    /// List the host's input devices.
    ListDevices,
    /// Look for the host's default input device.
    FindDefaultDevice,
    /// Read the default input configuration of this device.
    ReadConfig { device: DeviceChoice },
    /// Create the output file for this session and open a writer with this
    /// layout on it.
    OpenWriter { spec: WavSpec },
    /// Set the session's sample counter to `samples_counter`, build an input
    /// stream for samples of this encoding, whose callback feeds the writer
    /// and the counter, and start it.
    StartStream { format: CaptureFormat, samples_counter: u64 },
    /// Capture has begun.
    Started,
    /// The request failed. A writer that comes with the failure is to be
    /// closed: no stream will ever feed it.
    Failed { error: AudioError, writer: Option<W> },
    /// The event answers nothing that was asked. It comes back untouched.
    OutOfTurn { event: StartEvent<S, W> },
}

/// What `stop_audio_recording` is told.
#[derive(Debug, PartialEq, Eq)]
pub enum StopEvent {
    /// The end of the recording is asked for.
    Requested,
    /// The stream handed out by `SeverStream` is gone, and with it the
    /// callback; `samples` is the sample counter as it stands now.
    StreamSevered { samples: u64 },
    /// The writer handed out by `FinalizeWriter` has completed the file, or
    /// could not.
    WriterFinalized(Result<(), String>),
}

/// What `stop_audio_recording` asks of its caller.
#[derive(Debug, PartialEq, Eq)]
pub enum StopAction<S, W> {
    /// Tear this stream down.
    SeverStream { stream: S },
    /// Complete the file with this writer, which nobody feeds any more.
    FinalizeWriter { writer: W },
    /// The recording is complete: the path of its file and the number of
    /// samples that were processed.
    Stopped { path: String, samples: u64 },
    /// The request failed.
    Failed { error: AudioError },
    /// The event answers nothing that was asked. It comes back untouched.
    OutOfTurn { event: StopEvent },
}

/// How a session is started, as a function of phase and event.
///
/// A request is taken only where no session exists; everywhere else it fails
/// with `AlreadyRecording` and disturbs nothing. From there each answer of
/// the outside world moves the session one step on or ends it: a label that
/// no device carries, a missing default device, an encoding that cannot be
/// captured and every failure reported from outside bring the session back to
/// `Idle`. An encoding is judged before any file is made. Every session
/// counts its samples from zero. If the stream fails after the file was
/// opened, the writer goes back to the caller to be closed.
pub open spec fn start_step<S, W>(phase: SessionPhase<S, W>, event: StartEvent<S, W>) -> (
    SessionPhase<S, W>,
    StartAction<S, W>,
) {
    match (phase, event) {
        (SessionPhase::Idle, StartEvent::Requested { device_label: Some(label) }) => (
            SessionPhase::ListingDevices { label },
            StartAction::ListDevices,
        ),
        (SessionPhase::Idle, StartEvent::Requested { device_label: None }) => (
            SessionPhase::FindingDefault,
            StartAction::FindDefaultDevice,
        ),
        (_, StartEvent::Requested { .. }) => (
            phase,
            StartAction::Failed { error: AudioError::AlreadyRecording, writer: None },
        ),
        (SessionPhase::ListingDevices { label }, StartEvent::DevicesListed(Ok(names))) => {
            match first_carrying(names@, label@) {
                Some(i) => (
                    SessionPhase::ReadingConfig,
                    StartAction::ReadConfig { device: DeviceChoice::Listed(i as usize) },
                ),
                None => (
                    SessionPhase::Idle,
                    StartAction::Failed { error: AudioError::DeviceNotFound(label), writer: None },
                ),
            }
        },
        (SessionPhase::ListingDevices { .. }, StartEvent::DevicesListed(Err(e))) => (
            SessionPhase::Idle,
            StartAction::Failed { error: AudioError::HostUnavailable(e), writer: None },
        ),
        (SessionPhase::FindingDefault, StartEvent::DefaultDevice { present }) => if present {
            (SessionPhase::ReadingConfig, StartAction::ReadConfig { device: DeviceChoice::Default })
        } else {
            (
                SessionPhase::Idle,
                StartAction::Failed { error: AudioError::NoDefaultDevice, writer: None },
            )
        },
        (SessionPhase::ReadingConfig, StartEvent::ConfigRead(Ok(config))) => {
            match config.sample_format {
                SampleFormat::Other(name) => (
                    SessionPhase::Idle,
                    StartAction::Failed {
                        error: AudioError::UnsupportedFormat(name),
                        writer: None,
                    },
                ),
                _ => (
                    SessionPhase::OpeningWriter {
                        format: capture_format_of(config.sample_format).unwrap(),
                    },
                    StartAction::OpenWriter {
                        spec: wav_spec_for(config.channels, config.sample_rate),
                    },
                ),
            }
        },
        (SessionPhase::ReadingConfig, StartEvent::ConfigRead(Err(e))) => (
            SessionPhase::Idle,
            StartAction::Failed { error: AudioError::ConfigUnavailable(e), writer: None },
        ),
        (SessionPhase::OpeningWriter { format }, StartEvent::WriterOpened(Ok((writer, path)))) => (
            SessionPhase::StartingStream { writer, path },
            StartAction::StartStream { format, samples_counter: 0 },
        ),
        (SessionPhase::OpeningWriter { .. }, StartEvent::WriterOpened(Err(e))) => (
            SessionPhase::Idle,
            StartAction::Failed { error: e, writer: None },
        ),
        (SessionPhase::StartingStream { writer, path }, StartEvent::StreamStarted(Ok(stream))) => (
            SessionPhase::Recording { stream, writer, path },
            StartAction::Started,
        ),
        (SessionPhase::StartingStream { writer, path }, StartEvent::StreamStarted(Err(e))) => (
            SessionPhase::Idle,
            StartAction::Failed { error: e, writer: Some(writer) },
        ),
        (_, _) => (phase, StartAction::OutOfTurn { event }),
    }
}

/// How a session is stopped, as a function of phase and event.
///
/// A request is taken only while capturing; everywhere else it fails with
/// `NotRecording` and disturbs nothing. The stream leaves first. The writer
/// leaves only when the stream is reported gone. When the writer has done its
/// work, well or badly, the session is over and nothing of it is left.
pub open spec fn stop_step<S, W>(phase: SessionPhase<S, W>, event: StopEvent) -> (
    SessionPhase<S, W>,
    StopAction<S, W>,
) {
    match (phase, event) {
        (SessionPhase::Recording { stream, writer, path }, StopEvent::Requested) => (
            SessionPhase::Severing { writer, path },
            StopAction::SeverStream { stream },
        ),
        (_, StopEvent::Requested) => (
            phase,
            StopAction::Failed { error: AudioError::NotRecording },
        ),
        (SessionPhase::Severing { writer, path }, StopEvent::StreamSevered { samples }) => (
            SessionPhase::Finalizing { path, samples },
            StopAction::FinalizeWriter { writer },
        ),
        (SessionPhase::Finalizing { path, samples }, StopEvent::WriterFinalized(Ok(_))) => (
            SessionPhase::Idle,
            StopAction::Stopped { path, samples },
        ),
        (SessionPhase::Finalizing { .. }, StopEvent::WriterFinalized(Err(e))) => (
            SessionPhase::Idle,
            StopAction::Failed { error: AudioError::FinalizeFailed(e) },
        ),
        (_, _) => (phase, StopAction::OutOfTurn { event }),
    }
}

fn start_transition<S, W>(phase: SessionPhase<S, W>, event: StartEvent<S, W>) -> (r: (
    SessionPhase<S, W>,
    StartAction<S, W>,
))
    ensures
        r == start_step(phase, event),
{
    match (phase, event) {
        (SessionPhase::Idle, StartEvent::Requested { device_label: Some(label) }) => (
            SessionPhase::ListingDevices { label },
            StartAction::ListDevices,
        ),
        (SessionPhase::Idle, StartEvent::Requested { device_label: None }) => (
            SessionPhase::FindingDefault,
            StartAction::FindDefaultDevice,
        ),
        (phase, StartEvent::Requested { .. }) => (
            phase,
            StartAction::Failed { error: AudioError::AlreadyRecording, writer: None },
        ),
        (SessionPhase::ListingDevices { label }, StartEvent::DevicesListed(Ok(names))) => {
            match find_device(&names, &label) {
                Some(i) => (
                    SessionPhase::ReadingConfig,
                    StartAction::ReadConfig { device: DeviceChoice::Listed(i) },
                ),
                None => (
                    SessionPhase::Idle,
                    StartAction::Failed { error: AudioError::DeviceNotFound(label), writer: None },
                ),
            }
        },
        (SessionPhase::ListingDevices { .. }, StartEvent::DevicesListed(Err(e))) => (
            SessionPhase::Idle,
            StartAction::Failed { error: AudioError::HostUnavailable(e), writer: None },
        ),
        (SessionPhase::FindingDefault, StartEvent::DefaultDevice { present }) => {
            if present {
                (
                    SessionPhase::ReadingConfig,
                    StartAction::ReadConfig { device: DeviceChoice::Default },
                )
            } else {
                (
                    SessionPhase::Idle,
                    StartAction::Failed { error: AudioError::NoDefaultDevice, writer: None },
                )
            }
        },
        (SessionPhase::ReadingConfig, StartEvent::ConfigRead(Ok(config))) => {
            let spec = wav_spec_from_config(&config);
            match check_sample_format(config.sample_format) {
                Ok(format) => (
                    SessionPhase::OpeningWriter { format },
                    StartAction::OpenWriter { spec },
                ),
                Err(error) => (SessionPhase::Idle, StartAction::Failed { error, writer: None }),
            }
        },
        (SessionPhase::ReadingConfig, StartEvent::ConfigRead(Err(e))) => (
            SessionPhase::Idle,
            StartAction::Failed { error: AudioError::ConfigUnavailable(e), writer: None },
        ),
        (SessionPhase::OpeningWriter { format }, StartEvent::WriterOpened(Ok((writer, path)))) => (
            SessionPhase::StartingStream { writer, path },
            StartAction::StartStream { format, samples_counter: 0 },
        ),
        (SessionPhase::OpeningWriter { .. }, StartEvent::WriterOpened(Err(e))) => (
            SessionPhase::Idle,
            StartAction::Failed { error: e, writer: None },
        ),
        (SessionPhase::StartingStream { writer, path }, StartEvent::StreamStarted(Ok(stream))) => (
            SessionPhase::Recording { stream, writer, path },
            StartAction::Started,
        ),
        (SessionPhase::StartingStream { writer, path }, StartEvent::StreamStarted(Err(e))) => (
            SessionPhase::Idle,
            StartAction::Failed { error: e, writer: Some(writer) },
        ),
        (phase, event) => (phase, StartAction::OutOfTurn { event }),
    }
}

fn stop_transition<S, W>(phase: SessionPhase<S, W>, event: StopEvent) -> (r: (
    SessionPhase<S, W>,
    StopAction<S, W>,
))
    ensures
        r == stop_step(phase, event),
{
    match (phase, event) {
        (SessionPhase::Recording { stream, writer, path }, StopEvent::Requested) => (
            SessionPhase::Severing { writer, path },
            StopAction::SeverStream { stream },
        ),
        (phase, StopEvent::Requested) => (
            phase,
            StopAction::Failed { error: AudioError::NotRecording },
        ),
        (SessionPhase::Severing { writer, path }, StopEvent::StreamSevered { samples }) => (
            SessionPhase::Finalizing { path, samples },
            StopAction::FinalizeWriter { writer },
        ),
        (SessionPhase::Finalizing { path, samples }, StopEvent::WriterFinalized(Ok(_))) => (
            SessionPhase::Idle,
            StopAction::Stopped { path, samples },
        ),
        (SessionPhase::Finalizing { .. }, StopEvent::WriterFinalized(Err(e))) => (
            SessionPhase::Idle,
            StopAction::Failed { error: AudioError::FinalizeFailed(e) },
        ),
        (phase, event) => (phase, StopAction::OutOfTurn { event }),
    }
}

impl<S, W> AudioState<S, W> {
    /// The state with no session.
    pub fn new() -> (state: Self)
        ensures
            state.phase == SessionPhase::<S, W>::Idle,
    {
        AudioState { phase: SessionPhase::Idle }
    }

    /// Whether a capture is running.
    pub fn is_recording(&self) -> (recording: bool)
        ensures
            recording == (self.phase is Recording),
    {
        match &self.phase {
            SessionPhase::Recording { .. } => true,
            _ => false,
        }
    }
}

/// One step of starting a recording.
///
/// The caller begins with `StartEvent::Requested`, performs each action it
/// is given and reports how that went, until the action is `Started` or
/// `Failed`. The session is claimed by the request itself: from then on every
/// other request to start fails with `AlreadyRecording`, whoever makes it.
pub fn start_audio_recording<S, W>(state: &mut AudioState<S, W>, event: StartEvent<S, W>) -> (action:
    StartAction<S, W>)
    ensures
        (final(state).phase, action) == start_step(old(state).phase, event),
{
    let mut phase: SessionPhase<S, W> = SessionPhase::Idle;
    core::mem::swap(&mut state.phase, &mut phase);
    let (next, action) = start_transition(phase, event);
    state.phase = next;
    action
}

/// One step of stopping the recording.
///
/// The caller begins with `StopEvent::Requested`, performs each action it is
/// given and reports how that went, until the action is `Stopped` or
/// `Failed`. The stream is always handed out before the writer.
pub fn stop_audio_recording<S, W>(state: &mut AudioState<S, W>, event: StopEvent) -> (action:
    StopAction<S, W>)
    ensures
        (final(state).phase, action) == stop_step(old(state).phase, event),
{
    let mut phase: SessionPhase<S, W> = SessionPhase::Idle;
    core::mem::swap(&mut state.phase, &mut phase);
    let (next, action) = stop_transition(phase, event);
    state.phase = next;
    action
}

/// While a session exists, in whatever phase, a request to start fails with
/// `AlreadyRecording` and leaves the session exactly as it was.
pub proof fn lemma_start_refused_while_active<S, W>(
    phase: SessionPhase<S, W>,
    device_label: Option<String>,
)
    requires
        !(phase is Idle),
    ensures
        start_step(phase, StartEvent::Requested { device_label }) == (
            phase,
            StartAction::<S, W>::Failed { error: AudioError::AlreadyRecording, writer: None },
        ),
{
}

/// A request to start that finds no session claims it at once: the phase is
/// no longer `Idle` when the step returns, so that a second request is
/// refused whatever the first is still waiting for.
pub proof fn lemma_start_claims_session<S, W>(device_label: Option<String>)
    ensures
        !(start_step(SessionPhase::<S, W>::Idle, StartEvent::Requested { device_label }).0
            is Idle),
        start_step(
            start_step(SessionPhase::<S, W>::Idle, StartEvent::Requested { device_label }).0,
            StartEvent::Requested { device_label },
        ).1 == (StartAction::<S, W>::Failed { error: AudioError::AlreadyRecording, writer: None }),
{
}

/// A writer or a stream enters the session only in the phase that asked for
/// it. In every other phase the session stays as it is and the handle comes
/// back with the event: a session never holds two of either.
pub proof fn lemma_handles_enter_once<S, W>(
    phase: SessionPhase<S, W>,
    writer: W,
    path: String,
    stream: S,
)
    ensures
        !(phase is OpeningWriter) ==> start_step(
            phase,
            StartEvent::WriterOpened(Ok((writer, path))),
        ) == (
            phase,
            StartAction::<S, W>::OutOfTurn { event: StartEvent::WriterOpened(Ok((writer, path))) },
        ),
        !(phase is StartingStream) ==> start_step(phase, StartEvent::StreamStarted(Ok(stream)))
            == (
            phase,
            StartAction::<S, W>::OutOfTurn { event: StartEvent::StreamStarted(Ok(stream)) },
        ),
{
}

/// A start that fails leaves no session behind, unless it failed because
/// somebody else's session exists.
pub proof fn lemma_failed_start_leaves_no_session<S, W>(
    phase: SessionPhase<S, W>,
    event: StartEvent<S, W>,
)
    requires
        start_step(phase, event).1 is Failed,
    ensures
        event is Requested ==> start_step(phase, event).0 == phase && !(phase is Idle),
        !(event is Requested) ==> start_step(phase, event).0 is Idle,
{
}

/// No file is asked for before the device's encoding is known to be one that
/// can be captured, and no stream before the file is open.
pub proof fn lemma_start_order<S, W>(phase: SessionPhase<S, W>, event: StartEvent<S, W>)
    ensures
        start_step(phase, event).1 is OpenWriter ==> phase is ReadingConfig && (
        event matches StartEvent::ConfigRead(Ok(config)) && capture_format_of(
            config.sample_format,
        ).is_some()),
        start_step(phase, event).1 is StartStream ==> phase is OpeningWriter && (
        event matches StartEvent::WriterOpened(Ok(_))),
        start_step(phase, event).1 is Started ==> phase is StartingStream && start_step(
            phase,
            event,
        ).0 is Recording,
{
}

/// A request to stop fails with `NotRecording` wherever no capture is
/// running, before the first start as well as after the last stop, and
/// changes nothing.
pub proof fn lemma_stop_refused_unless_recording<S, W>(phase: SessionPhase<S, W>)
    requires
        !(phase is Recording),
    ensures
        stop_step(phase, StopEvent::Requested) == (
            phase,
            StopAction::<S, W>::Failed { error: AudioError::NotRecording },
        ),
{
}

/// The order of teardown: the stream is handed out on the request, the
/// writer only on the report that the stream is gone.
pub proof fn lemma_stream_leaves_before_writer<S, W>(phase: SessionPhase<S, W>, event: StopEvent)
    ensures
        stop_step(phase, event).1 is SeverStream ==> phase is Recording && event is Requested
            && stop_step(phase, event).0 is Severing,
        stop_step(phase, event).1 is FinalizeWriter ==> phase is Severing && event
            is StreamSevered && stop_step(phase, event).0 is Finalizing,
{
}

/// A whole stop: from a running capture the three steps hand out the stream,
/// then the writer, then the path and the sample count, and end in `Idle`,
/// where the next start is taken.
pub proof fn lemma_stop_completes<S, W>(stream: S, writer: W, path: String, samples: u64)
    ensures
        ({
            let recording = SessionPhase::Recording { stream, writer, path };
            let (severing, first) = stop_step(recording, StopEvent::Requested);
            let (finalizing, second) = stop_step(severing, StopEvent::StreamSevered { samples });
            let (over, third) = stop_step(finalizing, StopEvent::WriterFinalized(Ok(())));
            &&& first == StopAction::<S, W>::SeverStream { stream }
            &&& second == StopAction::<S, W>::FinalizeWriter { writer }
            &&& third == StopAction::<S, W>::Stopped { path, samples }
            &&& over == SessionPhase::<S, W>::Idle
        }),
{
}

/// When the writer has reported, well or badly, the session is over.
pub proof fn lemma_stop_always_ends_session<S, W>(
    path: String,
    samples: u64,
    outcome: Result<(), String>,
)
    ensures
        stop_step(
            SessionPhase::<S, W>::Finalizing { path, samples },
            StopEvent::WriterFinalized(outcome),
        ).0 == SessionPhase::<S, W>::Idle,
        outcome matches Err(e) ==> stop_step(
            SessionPhase::<S, W>::Finalizing { path, samples },
            StopEvent::WriterFinalized(outcome),
        ).1 == (StopAction::<S, W>::Failed { error: AudioError::FinalizeFailed(e) }),
{
}

/// The streams that a session holds: one or none.
pub open spec fn streams_held<S, W>(phase: SessionPhase<S, W>) -> Multiset<S> {
    match phase {
        SessionPhase::Recording { stream, .. } => Multiset::singleton(stream),
        _ => Multiset::empty(),
    }
}

/// The writers that a session holds: one or none.
pub open spec fn writers_held<S, W>(phase: SessionPhase<S, W>) -> Multiset<W> {
    match phase {
        SessionPhase::StartingStream { writer, .. } => Multiset::singleton(writer),
        SessionPhase::Recording { writer, .. } => Multiset::singleton(writer),
        SessionPhase::Severing { writer, .. } => Multiset::singleton(writer),
        _ => Multiset::empty(),
    }
}

/// The streams that an event of a start brings.
pub open spec fn streams_in_event<S, W>(event: StartEvent<S, W>) -> Multiset<S> {
    match event {
        StartEvent::StreamStarted(Ok(stream)) => Multiset::singleton(stream),
        _ => Multiset::empty(),
    }
}

/// The writers that an event of a start brings.
pub open spec fn writers_in_event<S, W>(event: StartEvent<S, W>) -> Multiset<W> {
    match event {
        StartEvent::WriterOpened(Ok((writer, _))) => Multiset::singleton(writer),
        _ => Multiset::empty(),
    }
}

/// The streams that an action of a start gives to the caller.
pub open spec fn streams_in_start_action<S, W>(action: StartAction<S, W>) -> Multiset<S> {
    match action {
        StartAction::OutOfTurn { event } => streams_in_event(event),
        _ => Multiset::empty(),
    }
}

/// The writers that an action of a start gives to the caller.
pub open spec fn writers_in_start_action<S, W>(action: StartAction<S, W>) -> Multiset<W> {
    match action {
        StartAction::Failed { writer: Some(writer), .. } => Multiset::singleton(writer),
        StartAction::OutOfTurn { event } => writers_in_event(event),
        _ => Multiset::empty(),
    }
}

/// The streams that an action of a stop gives to the caller.
pub open spec fn streams_in_stop_action<S, W>(action: StopAction<S, W>) -> Multiset<S> {
    match action {
        StopAction::SeverStream { stream } => Multiset::singleton(stream),
        _ => Multiset::empty(),
    }
}

/// The writers that an action of a stop gives to the caller.
pub open spec fn writers_in_stop_action<S, W>(action: StopAction<S, W>) -> Multiset<W> {
    match action {
        StopAction::FinalizeWriter { writer } => Multiset::singleton(writer),
        _ => Multiset::empty(),
    }
}

/// No step of a start loses a stream or a writer, or hands one out twice:
/// what the session and the event hold before the step, the session and the
/// action hold after it. With a session that has room for one of each, two
/// streams or two writers are never open in it at once.
pub proof fn lemma_start_conserves_handles<S, W>(
    phase: SessionPhase<S, W>,
    event: StartEvent<S, W>,
)
    ensures
        streams_held(phase).add(streams_in_event(event)) =~= streams_held(
            start_step(phase, event).0,
        ).add(streams_in_start_action(start_step(phase, event).1)),
        writers_held(phase).add(writers_in_event(event)) =~= writers_held(
            start_step(phase, event).0,
        ).add(writers_in_start_action(start_step(phase, event).1)),
{
}

/// No step of a stop loses a stream or a writer, or hands one out twice.
pub proof fn lemma_stop_conserves_handles<S, W>(phase: SessionPhase<S, W>, event: StopEvent)
    ensures
        streams_held(phase) =~= streams_held(stop_step(phase, event).0).add(
            streams_in_stop_action(stop_step(phase, event).1),
        ),
        writers_held(phase) =~= writers_held(stop_step(phase, event).0).add(
            writers_in_stop_action(stop_step(phase, event).1),
        ),
{
}

/// While the callback may still run, the writer stays with the session: it
/// is handed out for finalizing only by a session that holds no stream.
pub proof fn lemma_writer_leaves_a_session_without_stream<S, W>(
    phase: SessionPhase<S, W>,
    event: StopEvent,
)
    requires
        stop_step(phase, event).1 is FinalizeWriter,
    ensures
        streams_held(phase) =~= Multiset::empty(),
        streams_held(stop_step(phase, event).0) =~= Multiset::empty(),
{
}

/// A session has room for one stream and one writer, and for no more.
pub proof fn lemma_at_most_one_of_each<S, W>(phase: SessionPhase<S, W>)
    ensures
        streams_held(phase).len() <= 1,
        writers_held(phase).len() <= 1,
        !(phase is Recording) ==> streams_held(phase).len() == 0,
{
}

/// Anything that can be told to the recording subsystem.
pub enum SessionEvent<S, W> {
    Start(StartEvent<S, W>),
    Stop(StopEvent),
}

/// The phase after a run of events, taken in order.
pub open spec fn session_after<S, W>(
    phase: SessionPhase<S, W>,
    events: Seq<SessionEvent<S, W>>,
) -> SessionPhase<S, W>
    decreases events.len(),
{
    if events.len() == 0 {
        phase
    } else {
        let before = session_after(phase, events.drop_last());
        match events.last() {
            SessionEvent::Start(event) => start_step(before, event).0,
            SessionEvent::Stop(event) => stop_step(before, event).0,
        }
    }
}

/// Sessions never overlap. Whatever was asked and answered since the state
/// was made, in whatever order: the subsystem holds at most one stream and
/// one writer, and while a session exists a request to start is refused with
/// `AlreadyRecording` and leaves that session as it is.
pub proof fn lemma_sessions_never_overlap<S, W>(
    events: Seq<SessionEvent<S, W>>,
    device_label: Option<String>,
)
    ensures
        streams_held(session_after(SessionPhase::<S, W>::Idle, events)).len() <= 1,
        writers_held(session_after(SessionPhase::<S, W>::Idle, events)).len() <= 1,
        !(session_after(SessionPhase::<S, W>::Idle, events) is Idle) ==> start_step(
            session_after(SessionPhase::<S, W>::Idle, events),
            StartEvent::Requested { device_label },
        ) == (
            session_after(SessionPhase::<S, W>::Idle, events),
            StartAction::<S, W>::Failed { error: AudioError::AlreadyRecording, writer: None },
        ),
{
    let phase = session_after(SessionPhase::<S, W>::Idle, events);
    lemma_at_most_one_of_each(phase);
    if !(phase is Idle) {
        lemma_start_refused_while_active(phase, device_label);
    }
}

} // verus!
