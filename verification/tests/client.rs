use trayd::cli::{Cli, Command};
use trayd::client::{stub_connect, ClientError};
use trayd::config::{default_socket_path, ConfigError};
use trayd::error::{TraydBinError, TraydError};

#[test]
fn stub_connect_is_not_ready() {
    assert!(matches!(stub_connect(), Err(ClientError::IpcNotReady)));
}

#[test]
fn socket_path_from_runtime_dir() {
    assert_eq!(default_socket_path(Some("/run/user/1000")).unwrap(), "/run/user/1000/trayd.sock");
    assert_eq!(default_socket_path(Some("/run/user/1000/")).unwrap(), "/run/user/1000/trayd.sock");
    assert_eq!(default_socket_path(Some("")).unwrap(), "trayd.sock");
    assert!(matches!(default_socket_path(None), Err(ConfigError::NoXdgRuntimeDir)));
}

#[test]
fn missing_subcommand_runs_daemon() {
    let cli = Cli { command: None };
    assert!(matches!(cli.into_command(), Command::Run));
    let cli = Cli { command: Some(Command::Ping) };
    assert!(matches!(cli.into_command(), Command::Ping));
}

#[test]
fn error_texts() {
    assert_eq!(TraydError::NotFound("x".to_owned()).to_string(), "item not found: x");
    assert_eq!(TraydError::DBus("boom".to_owned()).to_string(), "D-Bus error: boom");
    assert_eq!(
        TraydBinError::Host(TraydError::NoMenu("a".to_owned())).to_string(),
        "item has no menu: a"
    );
    assert_eq!(TraydBinError::IpcNotReady.to_string(), "IPC is not implemented yet (see docs/IPC.md Phase 1)");
    assert_eq!(ClientError::IpcNotReady.to_string(), "IPC client is not implemented yet (see docs/IPC.md Phase 1)");
}
