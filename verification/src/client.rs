//! The stand-alone tray client's connection entry point, which does not
//! talk to the daemon yet.

use vstd::prelude::*;

verus! {

/// Errors of the stand-alone client.
#[derive(Debug, Clone, Copy, PartialEq, Eq, Structural)]
pub enum ClientError {
    /// The IPC client is not implemented yet.
    IpcNotReady,
}

impl ClientError {
    /// The error's message.
    pub fn to_string(&self) -> (r: String)
        ensures
            r@ == "IPC client is not implemented yet (see docs/IPC.md Phase 1)"@,
    {
        "IPC client is not implemented yet (see docs/IPC.md Phase 1)".to_owned()
    }
}

/// Connect to the daemon; always reports that the client is not ready.
pub fn stub_connect() -> (r: Result<(), ClientError>)
    ensures
        r == Err::<(), ClientError>(ClientError::IpcNotReady),
{
    Err(ClientError::IpcNotReady)
}

} // verus!
