use voice_core::error::{AudioError, SidecarError};

#[test]
fn state_errors_have_fixed_text() {
    assert_eq!(AudioError::AlreadyRecording.message(), "Recording is already in progress");
    assert_eq!(AudioError::NotRecording.message(), "Nenhuma gravacao em andamento");
    assert_eq!(
        AudioError::NoDefaultDevice.message(),
        "Nenhum dispositivo de entrada padrao disponivel"
    );
}

#[test]
fn host_failure_text_is_the_hosts_own() {
    assert_eq!(AudioError::HostUnavailable("backend gone".to_string()).message(), "backend gone");
    assert_eq!(AudioError::HostUnavailable(String::new()).message(), "");
}

#[test]
fn configuration_errors_name_their_subject() {
    assert_eq!(
        AudioError::DeviceNotFound("USB Mic".to_string()).message(),
        "Dispositivo nao encontrado: USB Mic"
    );
    assert_eq!(
        AudioError::UnsupportedFormat("U16".to_string()).message(),
        "Formato de sample nao suportado: U16"
    );
    assert_eq!(
        AudioError::ConfigUnavailable("busy".to_string()).message(),
        "Erro ao obter config do dispositivo: busy"
    );
}

#[test]
fn infrastructure_errors_carry_the_cause() {
    assert_eq!(
        AudioError::DataDirUnavailable("unknown path".to_string()).message(),
        "Erro ao obter diretorio do app: unknown path"
    );
    assert_eq!(
        AudioError::DirectoryCreationFailed("denied".to_string()).message(),
        "Erro ao criar diretorio: denied"
    );
    assert_eq!(
        AudioError::WriterCreationFailed("disk full".to_string()).message(),
        "Erro ao criar WAV: disk full"
    );
    assert_eq!(
        AudioError::StreamCreationFailed("gone".to_string()).message(),
        "Erro ao criar stream: gone"
    );
    assert_eq!(
        AudioError::StreamStartFailed("gone".to_string()).message(),
        "Erro ao iniciar stream: gone"
    );
    assert_eq!(
        AudioError::FinalizeFailed("io".to_string()).message(),
        "Erro ao finalizar WAV: io"
    );
}

#[test]
fn sidecar_errors_carry_the_cause() {
    assert_eq!(
        SidecarError::CommandFailed("no binary".to_string()).message(),
        "Failed to create sidecar command: no binary"
    );
    assert_eq!(
        SidecarError::SpawnFailed("denied".to_string()).message(),
        "Failed to spawn sidecar: denied"
    );
    assert_eq!(
        SidecarError::KillFailed("gone".to_string()).message(),
        "Failed to kill sidecar: gone"
    );
    assert_eq!(SidecarError::Unavailable.message(), "Sidecar not available on mobile");
}
