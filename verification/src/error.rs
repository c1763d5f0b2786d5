//! Errors of the tray host.

use vstd::prelude::*;

verus! {

/// Failures of the tray host. The D-Bus variants carry the message of the
/// bus error that caused them.
#[derive(Debug, Clone)]
pub enum TraydError {
    DBus(String),
    Fdo(String),
    NotFound(String),
    NoPixmap(String),
    NoMenu(String),
    Internal(String),
}

/// The display text of an error: a fixed prefix per variant, then its detail.
pub open spec fn error_text(e: TraydError) -> Seq<char> {
    match e {
        TraydError::DBus(m) => "D-Bus error: "@ + m@,
        TraydError::Fdo(m) => "D-Bus FDO error: "@ + m@,
        TraydError::NotFound(m) => "item not found: "@ + m@,
        TraydError::NoPixmap(m) => "no pixmap available for item "@ + m@,
        TraydError::NoMenu(m) => "item has no menu: "@ + m@,
        TraydError::Internal(m) => "tray host error: "@ + m@,
    }
}

impl TraydError {
    /// The display text of the error.
    pub fn to_string(&self) -> (r: String)
        ensures
            r@ == error_text(*self),
    {
        match self {
            TraydError::DBus(m) => "D-Bus error: ".to_owned().concat(m.as_str()),
            TraydError::Fdo(m) => "D-Bus FDO error: ".to_owned().concat(m.as_str()),
            TraydError::NotFound(m) => "item not found: ".to_owned().concat(m.as_str()),
            TraydError::NoPixmap(m) => "no pixmap available for item ".to_owned().concat(m.as_str()),
            TraydError::NoMenu(m) => "item has no menu: ".to_owned().concat(m.as_str()),
            TraydError::Internal(m) => "tray host error: ".to_owned().concat(m.as_str()),
        }
    }
}

/// Errors of the `trayd` binary.
#[derive(Debug, Clone)]
pub enum TraydBinError {
    /// A tray host failure, displayed as the host error itself.
    Host(TraydError),
    /// The requested IPC feature is not implemented yet.
    IpcNotReady,
}

impl TraydBinError {
    /// The display text of the error.
    pub fn to_string(&self) -> (r: String)
        ensures
            r@ == match *self {
                TraydBinError::Host(e) => error_text(e),
                TraydBinError::IpcNotReady => "IPC is not implemented yet (see docs/IPC.md Phase 1)"@,
            },
    {
        match self {
            TraydBinError::Host(e) => e.to_string(),
            TraydBinError::IpcNotReady => "IPC is not implemented yet (see docs/IPC.md Phase 1)".to_owned(),
        }
    }
}

} // verus!
