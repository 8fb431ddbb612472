//! The failures that the two subsystems report, and the text each carries to
//! the caller.

use vstd::prelude::*;
use vstd::string::StringExecFns;

verus! {

/// Why a recording request failed.
///
/// `AlreadyRecording` and `NotRecording` are state errors: the caller has to
/// change its request. A missing device or an unsupported encoding is a
/// configuration error. The others report outside work that failed; their
/// text is what the failing part said. None is retried by the library.
#[derive(Debug, Clone, PartialEq, Eq)]
pub enum AudioError {
    /// A session is active or being set up.
    AlreadyRecording,
    /// No session is active.
    NotRecording,
    /// The host has no default input device.
    NoDefaultDevice,
    /// The host audio subsystem could not be queried.
    HostUnavailable(String),
    /// No readable device carries the requested label.
    DeviceNotFound(String),
    /// The device gave no default input configuration.
    ConfigUnavailable(String),
    /// The device's native encoding, named here, is none of the supported ones.
    UnsupportedFormat(String),
    /// The application's data directory is not known.
    DataDirUnavailable(String),
    /// The recordings directory could not be made.
    DirectoryCreationFailed(String),
    /// The output file could not be created.
    WriterCreationFailed(String),
    /// The input stream could not be built.
    StreamCreationFailed(String),
    /// The input stream was built and did not start.
    StreamStartFailed(String),
    /// The waveform writer could not complete the file.
    FinalizeFailed(String),
}

impl AudioError {
    /// The text shown to the caller.
    pub open spec fn message_text(self) -> Seq<char> {
        match self {
            AudioError::AlreadyRecording => "Recording is already in progress"@,
            AudioError::NotRecording => "Nenhuma gravacao em andamento"@,
            AudioError::NoDefaultDevice => "Nenhum dispositivo de entrada padrao disponivel"@,
            AudioError::HostUnavailable(e) => e@,
            AudioError::DeviceNotFound(label) => "Dispositivo nao encontrado: "@ + label@,
            AudioError::ConfigUnavailable(e) => "Erro ao obter config do dispositivo: "@ + e@,
            AudioError::UnsupportedFormat(name) => "Formato de sample nao suportado: "@ + name@,
            AudioError::DataDirUnavailable(e) => "Erro ao obter diretorio do app: "@ + e@,
            AudioError::DirectoryCreationFailed(e) => "Erro ao criar diretorio: "@ + e@,
            AudioError::WriterCreationFailed(e) => "Erro ao criar WAV: "@ + e@,
            AudioError::StreamCreationFailed(e) => "Erro ao criar stream: "@ + e@,
            AudioError::StreamStartFailed(e) => "Erro ao iniciar stream: "@ + e@,
            AudioError::FinalizeFailed(e) => "Erro ao finalizar WAV: "@ + e@,
        }
    }

    /// The text shown to the caller.
    pub fn message(&self) -> (text: String)
        ensures
            text@ == self.message_text(),
    {
        match self {
            AudioError::AlreadyRecording => String::from_str("Recording is already in progress"),
            AudioError::NotRecording => String::from_str("Nenhuma gravacao em andamento"),
            AudioError::NoDefaultDevice => String::from_str(
                "Nenhum dispositivo de entrada padrao disponivel",
            ),
            AudioError::HostUnavailable(e) => e.clone(),
            AudioError::DeviceNotFound(label) => prefixed(
                "Dispositivo nao encontrado: ",
                label.as_str(),
            ),
            AudioError::ConfigUnavailable(e) => prefixed(
                "Erro ao obter config do dispositivo: ",
                e.as_str(),
            ),
            AudioError::UnsupportedFormat(name) => prefixed(
                "Formato de sample nao suportado: ",
                name.as_str(),
            ),
            AudioError::DataDirUnavailable(e) => prefixed(
                "Erro ao obter diretorio do app: ",
                e.as_str(),
            ),
            AudioError::DirectoryCreationFailed(e) => prefixed(
                "Erro ao criar diretorio: ",
                e.as_str(),
            ),
            AudioError::WriterCreationFailed(e) => prefixed("Erro ao criar WAV: ", e.as_str()),
            AudioError::StreamCreationFailed(e) => prefixed("Erro ao criar stream: ", e.as_str()),
            AudioError::StreamStartFailed(e) => prefixed("Erro ao iniciar stream: ", e.as_str()),
            AudioError::FinalizeFailed(e) => prefixed("Erro ao finalizar WAV: ", e.as_str()),
        }
    }
}

/// Why a request to the worker supervisor failed.
#[derive(Debug, Clone, PartialEq, Eq)]
pub enum SidecarError {
    /// The worker's command could not be put together.
    CommandFailed(String),
    /// The worker process could not be spawned.
    SpawnFailed(String),
    /// The worker process could not be terminated.
    KillFailed(String),
    /// This platform runs no worker process.
    Unavailable,
}

impl SidecarError {
    /// The text shown to the caller.
    pub open spec fn message_text(self) -> Seq<char> {
        match self {
            SidecarError::CommandFailed(e) => "Failed to create sidecar command: "@ + e@,
            SidecarError::SpawnFailed(e) => "Failed to spawn sidecar: "@ + e@,
            SidecarError::KillFailed(e) => "Failed to kill sidecar: "@ + e@,
            SidecarError::Unavailable => "Sidecar not available on mobile"@,
        }
    }

    /// The text shown to the caller.
    pub fn message(&self) -> (text: String)
        ensures
            text@ == self.message_text(),
    {
        match self {
            SidecarError::CommandFailed(e) => prefixed(
                "Failed to create sidecar command: ",
                e.as_str(),
            ),
            SidecarError::SpawnFailed(e) => prefixed("Failed to spawn sidecar: ", e.as_str()),
            SidecarError::KillFailed(e) => prefixed("Failed to kill sidecar: ", e.as_str()),
            SidecarError::Unavailable => String::from_str("Sidecar not available on mobile"),
        }
    }
}

/// `head` followed by `tail`.
pub(crate) fn prefixed(head: &str, tail: &str) -> (text: String)
    ensures
        text@ == head@ + tail@,
{
    let mut text = String::from_str(head);
    text.append(tail);
    text
}

} // verus!
