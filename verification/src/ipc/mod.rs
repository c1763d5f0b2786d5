//! Unix-socket NDJSON IPC: wire model, framing, the daemon's request
//! handling, and the CLI's reading of replies.

pub mod cli;
pub mod codec;
pub mod protocol;
pub mod server;
pub mod wire;
