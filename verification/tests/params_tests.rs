use guest_launcher::error::LaunchError;
use guest_launcher::params::{path_exists, InitialDataVersion, Params, PathProbe};

#[test]
fn default_version_is_v0() {
    assert_eq!(InitialDataVersion::default(), InitialDataVersion::V0);
    assert_ne!(InitialDataVersion::default(), InitialDataVersion::V1);
}

#[test]
fn params_compare_by_their_fields() {
    let params = Params {
        vmm_binary: "qemu".to_string(),
        kernel: "kernel".to_string(),
        app_binary: None,
        bios_binary: "bios".to_string(),
        gdb: Some(5),
        memory_size: Some("1G".to_string()),
        initrd: "initrd".to_string(),
        pci_passthrough: None,
        initial_data_version: InitialDataVersion::V1,
    };
    let mut other = params.clone();
    assert_eq!(params, other);
    other.gdb = None;
    assert_ne!(params, other);
}

#[test]
fn path_of_a_file_is_accepted() {
    assert_eq!(path_exists("/bin/sh", PathProbe::File), Ok("/bin/sh".to_string()));
    assert_eq!(path_exists("", PathProbe::File), Ok(String::new()));
}

#[test]
fn path_of_something_else_is_refused() {
    assert_eq!(
        path_exists("/tmp", PathProbe::NotFile),
        Err("path does not represent a file".to_string())
    );
}

#[test]
fn path_that_cannot_be_examined_is_refused_with_the_reason() {
    assert_eq!(
        path_exists("/nowhere", PathProbe::Unreadable("No such file or directory".to_string())),
        Err("No such file or directory".to_string())
    );
}

#[test]
fn errors_have_messages() {
    assert_eq!(LaunchError::Configuration.message(), "invalid launch configuration");
    assert_eq!(LaunchError::Spawn.message(), "could not create the monitor process");
    assert_eq!(LaunchError::ProtocolViolation.message(), "protocol violation");
    assert_eq!(LaunchError::HandshakeTimeout.message(), "handshake timed out");
    assert_eq!(LaunchError::ConnectionClosed.message(), "connection closed");
    assert_eq!(LaunchError::Io.message(), "host operation failed");
}

#[test]
fn handshake_failures_are_told_from_the_others() {
    assert!(!LaunchError::Configuration.is_handshake_failure());
    assert!(!LaunchError::Spawn.is_handshake_failure());
    assert!(LaunchError::ProtocolViolation.is_handshake_failure());
    assert!(LaunchError::HandshakeTimeout.is_handshake_failure());
    assert!(LaunchError::ConnectionClosed.is_handshake_failure());
    assert!(LaunchError::Io.is_handshake_failure());
}
