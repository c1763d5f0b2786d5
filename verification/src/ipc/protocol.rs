//! Request/response/event model of the method-based IPC protocol: every
//! message carries the protocol version `v`, requests name a method, and a
//! response holds exactly one of a result or an error.

use vstd::prelude::*;

verus! {

// ── Version ───────────────────────────────────────────────────────────────────

/// The only supported IPC protocol version.
pub const PROTOCOL_VERSION: u32 = 1;

// ── Request ───────────────────────────────────────────────────────────────────

/// Top-level request envelope: the version and the method with its params.
#[derive(Debug, Clone, PartialEq)]
pub struct RequestEnvelope {
    /// Protocol version — must be [`PROTOCOL_VERSION`].
    pub v: u32,
    pub method: Method,
}

impl RequestEnvelope {
    /// Construct a v1 request envelope.
    pub fn new(method: Method) -> (r: Self)
        ensures
            r.v == PROTOCOL_VERSION,
            r.method == method,
    {
        Self { v: PROTOCOL_VERSION, method }
    }
}

/// All v1 IPC methods.
#[derive(Debug, Clone, PartialEq)]
pub enum Method {
    /// Health / version check.
    Ping,
    /// Return all registered tray items.
    List,
    /// Subscribe to a live stream of [`HostEvent`]s. Long-lived connection.
    Subscribe,
    /// Fetch a pixmap for an item at the requested icon size (pixels).
    GetPixmap { item_id: String, size: u32 },
    /// Primary left-click activation.
    Activate { item_id: String },
    /// Middle-click / secondary activation.
    SecondaryActivate { item_id: String },
    /// Scroll event on the item's icon area.
    Scroll { item_id: String, direction: ScrollDirection, delta: i32 },
    /// Open a DBusMenu tree for an item; returns a [`MenuSession`].
    ///
    /// `parent_id` selects the subtree root (0 = top-level menu).
    MenuOpen { item_id: String, parent_id: i32 },
    /// Select a menu node within an open session.
    MenuSelect { session_id: String, node_id: String },
    /// Close/discard a menu session.
    MenuClose { session_id: String },
}

// ── Response ──────────────────────────────────────────────────────────────────

/// Top-level response envelope. A well-formed response has exactly one of
/// `result` or `error`.
#[derive(Debug, Clone, PartialEq)]
pub struct Response {
    pub v: u32,
    pub result: Option<ResultPayload>,
    pub error: Option<ErrorPayload>,
}

/// The message of the error that a response with neither part stands for.
pub open spec fn malformed_response_message() -> Seq<char> {
    "malformed response: neither `result` nor `error` is set"@
}

/// What a response amounts to: its result if it has one, else its error,
/// else an internal error saying that it is malformed.
pub open spec fn response_outcome(resp: Response) -> Result<ResultPayload, (ErrorCode, Seq<char>)> {
    match resp.result {
        Some(r) => Ok(r),
        None => match resp.error {
            Some(e) => Err((e.code, e.message@)),
            None => Err((ErrorCode::InternalError, malformed_response_message())),
        },
    }
}

impl Response {
    /// Build a success response.
    pub fn ok(result: ResultPayload) -> (r: Self)
        ensures
            r.v == PROTOCOL_VERSION,
            r.result == Some(result),
            r.error is None,
    {
        Self { v: PROTOCOL_VERSION, result: Some(result), error: None }
    }

    /// Build an error response.
    pub fn err(error: ErrorPayload) -> (r: Self)
        ensures
            r.v == PROTOCOL_VERSION,
            r.result is None,
            r.error == Some(error),
    {
        Self { v: PROTOCOL_VERSION, result: None, error: Some(error) }
    }

    /// Consume the response into a `Result`.
    pub fn into_result(self) -> (r: Result<ResultPayload, ErrorPayload>)
        ensures
            match r {
                Ok(p) => response_outcome(self) == Ok::<ResultPayload, (ErrorCode, Seq<char>)>(p),
                Err(e) => response_outcome(self) == Err::<ResultPayload, (ErrorCode, Seq<char>)>(
                    (e.code, e.message@),
                ),
            },
            self.result is None && self.error is Some ==> r == Err::<ResultPayload, ErrorPayload>(
                self.error->0,
            ),
    {
        if let Some(result) = self.result {
            Ok(result)
        } else if let Some(error) = self.error {
            Err(error)
        } else {
            Err(ErrorPayload::internal("malformed response: neither `result` nor `error` is set"))
        }
    }
}

/// Success payload variants.
#[derive(Debug, Clone, PartialEq)]
pub enum ResultPayload {
    /// Response to `ping`: carries the daemon version string.
    Pong { version: String },
    /// Response to `list`: carries all current tray items.
    List { items: Vec<ItemInfo> },
    /// Ack sent immediately after a `subscribe` request before streaming begins.
    Subscribed,
    /// Response to `get_pixmap`.
    Pixmap(PixmapPayload),
    /// Generic "void" success (activate, scroll, menu_close, leaf menu_select);
    /// `ok` on the wire.
    Success,
    /// Response to `menu_open` and sub-menu `menu_select`.
    MenuOpened(MenuSession),
}

// ── Event (subscribe stream) ──────────────────────────────────────────────────

/// A single event pushed on a `subscribe` connection.
#[derive(Debug, Clone, PartialEq)]
pub struct EventEnvelope {
    pub v: u32,
    pub event: HostEvent,
}

impl EventEnvelope {
    pub fn new(event: HostEvent) -> (r: Self)
        ensures
            r.v == PROTOCOL_VERSION,
            r.event == event,
    {
        Self { v: PROTOCOL_VERSION, event }
    }
}

/// Host-emitted tray events.
#[derive(Debug, Clone, PartialEq)]
pub enum HostEvent {
    /// A new StatusNotifier item appeared.
    ItemAdded { item: ItemInfo },
    /// A previously registered item disappeared.
    ItemRemoved { id: String },
    /// An item's properties (title, status, icon) changed.
    ItemUpdated { item: ItemInfo },
    /// A menu tree for an item changed.
    MenuChanged { item_id: String },
}

// ── Error ─────────────────────────────────────────────────────────────────────

/// Stable error descriptor.
#[derive(Debug, Clone, PartialEq)]
pub struct ErrorPayload {
    pub code: ErrorCode,
    pub message: String,
}

/// Stable error codes. Wire representation is `SCREAMING_SNAKE_CASE`.
#[derive(Debug, Clone, Copy, PartialEq, Eq, Structural)]
pub enum ErrorCode {
    /// Item or resource not found.
    NotFound,
    /// D-Bus operation failed.
    BusFailed,
    /// The referenced menu session does not exist or has expired.
    InvalidSession,
    /// The request is malformed or uses an unsupported protocol version.
    InvalidRequest,
    /// Unexpected internal daemon error.
    InternalError,
}

/// The wire name of an error code.
pub open spec fn error_code_text(c: ErrorCode) -> Seq<char> {
    match c {
        ErrorCode::NotFound => "NOT_FOUND"@,
        ErrorCode::BusFailed => "BUS_FAILED"@,
        ErrorCode::InvalidSession => "INVALID_SESSION"@,
        ErrorCode::InvalidRequest => "INVALID_REQUEST"@,
        ErrorCode::InternalError => "INTERNAL_ERROR"@,
    }
}

impl ErrorCode {
    /// The wire name of the code, as displayed.
    pub fn to_string(&self) -> (r: String)
        ensures
            r@ == error_code_text(*self),
    {
        match self {
            ErrorCode::NotFound => "NOT_FOUND".to_owned(),
            ErrorCode::BusFailed => "BUS_FAILED".to_owned(),
            ErrorCode::InvalidSession => "INVALID_SESSION".to_owned(),
            ErrorCode::InvalidRequest => "INVALID_REQUEST".to_owned(),
            ErrorCode::InternalError => "INTERNAL_ERROR".to_owned(),
        }
    }
}

impl ErrorPayload {
    pub fn not_found(msg: &str) -> (r: Self)
        ensures
            r.code == ErrorCode::NotFound,
            r.message@ == msg@,
    {
        Self { code: ErrorCode::NotFound, message: msg.to_owned() }
    }

    pub fn bus_failed(msg: &str) -> (r: Self)
        ensures
            r.code == ErrorCode::BusFailed,
            r.message@ == msg@,
    {
        Self { code: ErrorCode::BusFailed, message: msg.to_owned() }
    }

    pub fn invalid_session(msg: &str) -> (r: Self)
        ensures
            r.code == ErrorCode::InvalidSession,
            r.message@ == msg@,
    {
        Self { code: ErrorCode::InvalidSession, message: msg.to_owned() }
    }

    pub fn invalid_request(msg: &str) -> (r: Self)
        ensures
            r.code == ErrorCode::InvalidRequest,
            r.message@ == msg@,
    {
        Self { code: ErrorCode::InvalidRequest, message: msg.to_owned() }
    }

    pub fn internal(msg: &str) -> (r: Self)
        ensures
            r.code == ErrorCode::InternalError,
            r.message@ == msg@,
    {
        Self { code: ErrorCode::InternalError, message: msg.to_owned() }
    }
}

// ── Domain value types ────────────────────────────────────────────────────────

/// Summary of a single registered StatusNotifier item.
#[derive(Debug, Clone, PartialEq)]
pub struct ItemInfo {
    /// Stable identity: D-Bus service name (e.g. `org.kde.plasma.nm`).
    pub id: String,
    pub title: Option<String>,
    pub status: ItemStatus,
    pub has_attention_icon: bool,
    pub tooltip: Option<String>,
    pub category: Option<String>,
}

/// `StatusNotifierItem.Status` values.
#[derive(Debug, Clone, Copy, PartialEq, Eq, Structural)]
pub enum ItemStatus {
    Passive,
    Active,
    NeedsAttention,
}

/// Scroll direction for `scroll` requests.
#[derive(Debug, Clone, Copy, PartialEq, Eq, Structural)]
pub enum ScrollDirection {
    Up,
    Down,
    Left,
    Right,
}

/// Pixel data returned by `get_pixmap`.
///
/// `data` is **base64-encoded** pixel bytes in the declared `format`.
#[derive(Debug, Clone, PartialEq)]
pub struct PixmapPayload {
    pub item_id: String,
    pub format: PixmapFormat,
    pub width: u32,
    pub height: u32,
    /// Base64-encoded pixel data.
    pub data: String,
}

/// Pixel encoding used in [`PixmapPayload`].
#[derive(Debug, Clone, Copy, PartialEq, Eq, Structural)]
pub enum PixmapFormat {
    /// 32-bit ARGB, big-endian, row-major.
    Argb32,
    /// Portable Network Graphics.
    Png,
}

/// A single node in a DBusMenu tree.
#[derive(Debug, Clone, PartialEq)]
pub struct MenuNodeInfo {
    pub id: String,
    pub label: Option<String>,
    pub enabled: bool,
    pub visible: bool,
    pub is_separator: bool,
    /// `"submenu"` when the node has nested children; `None` for leaf nodes.
    pub children_display: Option<String>,
}

/// An open DBusMenu session returned by `menu_open` (or sub-menu `menu_select`).
#[derive(Debug, Clone, PartialEq)]
pub struct MenuSession {
    pub session_id: String,
    pub item_id: String,
    pub nodes: Vec<MenuNodeInfo>,
}

/// Reading a response built by `Response::ok` gives back its result, and one
/// built by `Response::err` gives back its error.
pub proof fn lemma_response_roundtrip(result: ResultPayload, error: ErrorPayload)
    ensures
        response_outcome(
            Response { v: PROTOCOL_VERSION, result: Some(result), error: None },
        ) == Ok::<ResultPayload, (ErrorCode, Seq<char>)>(result),
        response_outcome(Response { v: PROTOCOL_VERSION, result: None, error: Some(error) })
            == Err::<ResultPayload, (ErrorCode, Seq<char>)>((error.code, error.message@)),
{
}

/// Distinct error codes have distinct wire names.
pub proof fn lemma_error_code_text_injective(a: ErrorCode, b: ErrorCode)
    ensures
        error_code_text(a) == error_code_text(b) ==> a == b,
{
    reveal_strlit("NOT_FOUND");
    reveal_strlit("BUS_FAILED");
    reveal_strlit("INVALID_SESSION");
    reveal_strlit("INVALID_REQUEST");
    reveal_strlit("INTERNAL_ERROR");
    if error_code_text(a) == error_code_text(b) && a != b {
        assert(error_code_text(a)[0] == error_code_text(b)[0]);
        assert(error_code_text(a).len() == error_code_text(b).len());
        assert(error_code_text(a)[1] == error_code_text(b)[1]);
        assert(error_code_text(a)[8] == error_code_text(b)[8]);
    }
}

} // verus!
