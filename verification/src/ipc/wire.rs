//! IPC v1 wire model: `cmd`-tagged requests and `type`-tagged replies, each
//! carrying `"v": 1` (newline-delimited JSON on the daemon's socket).

use vstd::prelude::*;

verus! {

/// The IPC protocol version carried by every v1 message.
pub const IPC_VERSION: u32 = 1;

/// A request: the version and the command.
#[derive(Debug, Clone, PartialEq)]
pub struct IpcRequest {
    pub v: u32,
    pub cmd: Cmd,
}

impl IpcRequest {
    /// A v1 request for `cmd`.
    pub fn new(cmd: Cmd) -> (r: Self)
        ensures
            r.v == IPC_VERSION,
            r.cmd == cmd,
    {
        IpcRequest { v: IPC_VERSION, cmd }
    }
}

/// The v1 commands.
#[derive(Debug, Clone, PartialEq)]
pub enum Cmd {
    Ping,
    Subscribe,
    GetItems,
    /// Menu rows of an item; `submenu_id` selects a submenu (`None` = top level).
    GetMenu { app_id: String, submenu_id: Option<i32> },
    /// Click menu row `item_id` of an item.
    Activate { app_id: String, item_id: i32 },
    /// Pixmap of an item at about `size` pixels.
    GetPixmap { app_id: String, size: u32 },
}

/// A reply: a success with its payload, or an error.
#[derive(Debug, Clone, PartialEq)]
pub enum IpcResponse {
    Success(OkResponse),
    Failure(ErrResponse),
}

/// A success reply.
#[derive(Debug, Clone, PartialEq)]
pub struct OkResponse {
    pub v: u32,
    pub payload: OkPayload,
}

/// An error reply.
#[derive(Debug, Clone, PartialEq)]
pub struct ErrResponse {
    pub v: u32,
    pub error: ErrorBody,
}

/// Error code and human-readable message.
#[derive(Debug, Clone, PartialEq)]
pub struct ErrorBody {
    pub code: ErrorCode,
    pub message: String,
}

/// v1 error codes (`SCREAMING_SNAKE_CASE` on the wire).
#[derive(Debug, Clone, Copy, PartialEq, Eq, Structural)]
pub enum ErrorCode {
    /// `app_id` not registered.
    NotFound,
    /// D-Bus communication failed.
    BusFailed,
    /// Malformed `app_id`.
    InvalidAppId,
    /// Feature not yet available.
    NotImplemented,
}

/// Success payloads, tagged by `type` on the wire.
#[derive(Debug, Clone, PartialEq)]
pub enum OkPayload {
    Pong,
    Items { items: Vec<MinimalTrayItem> },
    Event { event: TrayEvent },
    Menu { app_id: String, items: Vec<MenuItem> },
    Ack,
    Pixmap { app_id: String, size: u32, width: u32, height: u32, data: String },
}

/// A change of tray state: the full current item list.
#[derive(Debug, Clone, PartialEq)]
pub enum TrayEvent {
    Update(Vec<MinimalTrayItem>),
}

/// An item as clients see it; absent properties are `None`.
#[derive(Debug, Clone, PartialEq)]
pub struct MinimalTrayItem {
    pub app_id: String,
    pub title: Option<String>,
    pub status: String,
    pub icon_handle: Option<String>,
    pub category: Option<String>,
    pub item_is_menu: bool,
    pub tooltip_title: Option<String>,
    pub tooltip_description: Option<String>,
}

/// One row of a menu.
#[derive(Debug, Clone, PartialEq)]
pub struct MenuItem {
    /// Stable row id within this menu.
    pub item_id: u32,
    /// Display text.
    pub label: String,
    /// `true` when the row has children.
    pub is_submenu: bool,
}

/// The v1 success reply carrying `payload`.
pub open spec fn success(payload: OkPayload) -> IpcResponse {
    IpcResponse::Success(OkResponse { v: IPC_VERSION, payload })
}

impl IpcResponse {
    /// A v1 success reply carrying `payload`.
    pub fn ok(payload: OkPayload) -> (r: Self)
        ensures
            r == success(payload),
    {
        IpcResponse::Success(OkResponse { v: IPC_VERSION, payload })
    }

    /// A v1 error reply with `code` and `message`.
    pub fn err(code: ErrorCode, message: &str) -> (r: Self)
        ensures
            r matches IpcResponse::Failure(e) && e.v == IPC_VERSION && e.error.code == code
                && e.error.message@ == message@,
    {
        IpcResponse::Failure(
            ErrResponse { v: IPC_VERSION, error: ErrorBody { code, message: message.to_owned() } },
        )
    }
}

} // verus!
