//! Tray host and IPC daemon core: in-process tray state, the SNI watcher's
//! registration rules, DBusMenu layout parsing, the IPC wire models and the
//! daemon's request handling, each with its contract.

pub mod cli;
pub mod client;
pub mod config;
pub mod dbus;
pub mod error;
pub mod host;
pub mod ipc;
pub mod model;
pub mod text;
