//! The daemon's handling of IPC v1 requests: what each command asks of the
//! tray host, how each host outcome is answered, how items are presented to
//! clients, and the pacing of a `subscribe` stream.

use vstd::prelude::*;

use crate::error::TraydError;
use crate::ipc::wire::{success, ErrorCode, IpcResponse, MenuItem, MinimalTrayItem, OkPayload, TrayEvent};
use crate::model::{icon_handle, nonempty, opt_view, nonempty_string, status_text, ItemId, ItemStatus, MenuNode, Pixmap, TrayItem};
use crate::text::str_eq;

verus! {

// ── Presenting items ──────────────────────────────────────────────────────────

/// The icon a client should show: for an item that needs attention its
/// attention icon when it has one, else its regular icon.
pub open spec fn shown_icon(t: TrayItem) -> Option<Seq<char>> {
    if t.status == ItemStatus::NeedsAttention && icon_handle(t.attention_icon) is Some {
        icon_handle(t.attention_icon)
    } else {
        icon_handle(t.icon)
    }
}

/// Whether `m` is how the tracked item `t` is presented to clients.
pub open spec fn is_minimal_of(m: MinimalTrayItem, t: TrayItem) -> bool {
    &&& m.app_id@ == t.id.0@
    &&& opt_view(m.title) == nonempty(t.title@)
    &&& m.status@ == status_text(t.status)
    &&& opt_view(m.icon_handle) == shown_icon(t)
    &&& opt_view(m.category) == nonempty(t.category@)
    &&& m.item_is_menu == t.item_is_menu
    &&& opt_view(m.tooltip_title) == nonempty(t.tool_tip.title@)
    &&& opt_view(m.tooltip_description) == nonempty(t.tool_tip.description@)
}

/// The client-facing form of a tracked item.
pub fn to_minimal(item: &TrayItem) -> (r: MinimalTrayItem)
    ensures
        is_minimal_of(r, *item),
{
    // For items needing attention, prefer the attention icon name when available.
    let icon_handle = if item.status == ItemStatus::NeedsAttention {
        match item.attention_icon.as_handle() {
            Some(h) => Some(h),
            None => item.icon.as_handle(),
        }
    } else {
        item.icon.as_handle()
    };
    MinimalTrayItem {
        app_id: item.id.to_string(),
        title: nonempty_string(&item.title),
        status: item.status.to_string(),
        icon_handle,
        category: nonempty_string(&item.category),
        item_is_menu: item.item_is_menu,
        tooltip_title: nonempty_string(&item.tool_tip.title),
        tooltip_description: nonempty_string(&item.tool_tip.description),
    }
}

/// What a client sees of a tracked item: its id as `app_id`; whether the
/// item is a menu, unchanged (an item that is not a menu is never shown as
/// one); its title, category and tooltip texts when they are not empty;
/// for an item needing attention that has an attention icon, that icon,
/// else its regular icon when it has one; and a status text that tells the
/// three statuses apart.
pub proof fn lemma_minimal_item_fields(m1: MinimalTrayItem, t1: TrayItem, m2: MinimalTrayItem, t2: TrayItem)
    requires
        is_minimal_of(m1, t1),
        is_minimal_of(m2, t2),
    ensures
        m1.item_is_menu == t1.item_is_menu,
        m1.app_id@ == t1.id.0@,
        t1.title@.len() == 0 <==> m1.title is None,
        m1.title is Some ==> m1.title->Some_0@ == t1.title@,
        t1.category@.len() == 0 <==> m1.category is None,
        m1.category is Some ==> m1.category->Some_0@ == t1.category@,
        m1.tooltip_title is Some ==> m1.tooltip_title->Some_0@ == t1.tool_tip.title@,
        m1.tooltip_description is Some ==> m1.tooltip_description->Some_0@ == t1.tool_tip.description@,
        t1.status == ItemStatus::NeedsAttention && t1.attention_icon.name@.len() > 0 ==> m1.icon_handle is Some
            && m1.icon_handle->Some_0@ == t1.attention_icon.name@,
        t1.status != ItemStatus::NeedsAttention ==> (m1.icon_handle is Some <==> t1.icon.name@.len() > 0),
        t1.status != ItemStatus::NeedsAttention && m1.icon_handle is Some ==> m1.icon_handle->Some_0@
            == t1.icon.name@,
        t1.status != t2.status ==> m1.status@ != m2.status@,
{
    reveal_strlit("passive");
    reveal_strlit("active");
    reveal_strlit("needs_attention");
    if t1.status != t2.status && m1.status@ == m2.status@ {
        assert(m1.status@.len() == m2.status@.len());
        assert(m1.status@[0] == m2.status@[0]);
    }
}

/// The client-facing forms of `items`, in order.
pub fn items_snapshot(items: &Vec<TrayItem>) -> (r: Vec<MinimalTrayItem>)
    ensures
        r@.len() == items@.len(),
        forall|i: int| 0 <= i < r@.len() ==> is_minimal_of(#[trigger] r@[i], items@[i]),
{
    let mut out: Vec<MinimalTrayItem> = Vec::new();
    let mut i: usize = 0;
    while i < items.len()
        invariant
            i <= items@.len(),
            out@.len() == i,
            forall|j: int| 0 <= j < i ==> is_minimal_of(#[trigger] out@[j], items@[j]),
        decreases items.len() - i,
    {
        out.push(to_minimal(&items[i]));
        i = i + 1;
    }
    out
}

// ── Planning ──────────────────────────────────────────────────────────────────

/// What the daemon has to do to answer a command.
#[derive(Debug)]
pub enum HostCall {
    /// Answer `pong` right away.
    Pong,
    /// Answer with the current item list.
    ListItems,
    /// Fetch the menu rows under `parent` (`None` = top level) of an item.
    GetMenu { app_id: String, parent: Option<i32> },
    /// Click menu row `node_id` of an item.
    ActivateMenu { app_id: String, node_id: i32 },
    /// Fetch an item's pixmap near `host_size` pixels; `size` is the
    /// requested size to echo back.
    GetPixmap { app_id: String, size: u32, host_size: u16 },
    /// Start a `subscribe` stream; the connection ends with it.
    Subscribe,
}

/// The host call a command needs. The pixmap size is handed to the host as
/// a 16-bit size (its low 16 bits).
pub fn plan(cmd: crate::ipc::wire::Cmd) -> (r: HostCall)
    ensures
        match cmd {
            crate::ipc::wire::Cmd::Ping => r is Pong,
            crate::ipc::wire::Cmd::GetItems => r is ListItems,
            crate::ipc::wire::Cmd::Subscribe => r is Subscribe,
            crate::ipc::wire::Cmd::GetMenu { app_id, submenu_id } => r matches HostCall::GetMenu {
                app_id: a,
                parent,
            } && a == app_id && parent == submenu_id,
            crate::ipc::wire::Cmd::Activate { app_id, item_id } => r matches HostCall::ActivateMenu {
                app_id: a,
                node_id,
            } && a == app_id && node_id == item_id,
            crate::ipc::wire::Cmd::GetPixmap { app_id, size } => r matches HostCall::GetPixmap {
                app_id: a,
                size: s,
                host_size,
            } && a == app_id && s == size && host_size as int == size as int % 65536,
        },
{
    match cmd {
        crate::ipc::wire::Cmd::Ping => HostCall::Pong,
        crate::ipc::wire::Cmd::GetItems => HostCall::ListItems,
        crate::ipc::wire::Cmd::Subscribe => HostCall::Subscribe,
        crate::ipc::wire::Cmd::GetMenu { app_id, submenu_id } => HostCall::GetMenu {
            app_id,
            parent: submenu_id,
        },
        crate::ipc::wire::Cmd::Activate { app_id, item_id } => HostCall::ActivateMenu {
            app_id,
            node_id: item_id,
        },
        crate::ipc::wire::Cmd::GetPixmap { app_id, size } => {
            let host_size = (size % 65536) as u16;
            HostCall::GetPixmap { app_id, size, host_size }
        },
    }
}

// ── Answering ─────────────────────────────────────────────────────────────────

/// The error reply for a failed host call about `app_id`.
pub open spec fn host_error_reply(app_id: Seq<char>, e: TraydError) -> (ErrorCode, Seq<char>) {
    match e {
        TraydError::NotFound(_) => (ErrorCode::NotFound, app_id + " not found"@),
        _ => (ErrorCode::BusFailed, crate::error::error_text(e)),
    }
}

/// Whether `r` is the error reply with `code` and `message`.
pub open spec fn is_error_reply(r: IpcResponse, reply: (ErrorCode, Seq<char>)) -> bool {
    r matches IpcResponse::Failure(e) && e.v == crate::ipc::wire::IPC_VERSION && e.error.code
        == reply.0 && e.error.message@ == reply.1
}

/// The error reply for a failed host call about `app_id`: `NOT_FOUND` for an
/// unknown item, `BUS_FAILED` with the error's text otherwise.
pub fn error_reply(app_id: &str, e: &TraydError) -> (r: IpcResponse)
    ensures
        is_error_reply(r, host_error_reply(app_id@, *e)),
{
    match e {
        TraydError::NotFound(_) => {
            let msg = app_id.to_owned().concat(" not found");
            IpcResponse::err(ErrorCode::NotFound, msg.as_str())
        },
        _ => {
            let msg = e.to_string();
            IpcResponse::err(ErrorCode::BusFailed, msg.as_str())
        },
    }
}

/// The reply to `ping`.
pub fn pong_reply() -> (r: IpcResponse)
    ensures
        r == success(OkPayload::Pong),
{
    IpcResponse::ok(OkPayload::Pong)
}

/// The reply to `get_items`.
pub fn items_reply(items: &Vec<TrayItem>) -> (r: IpcResponse)
    ensures
        r matches IpcResponse::Success(ok) && ok.v == crate::ipc::wire::IPC_VERSION && (
        ok.payload matches OkPayload::Items { items: list } && list@.len() == items@.len()
            && forall|i: int| 0 <= i < list@.len() ==> is_minimal_of(#[trigger] list@[i], items@[i])),
{
    IpcResponse::ok(OkPayload::Items { items: items_snapshot(items) })
}

/// Whether a menu node is shown as a row with children.
pub open spec fn is_submenu_node(n: MenuNode) -> bool {
    opt_view(n.children_display) == Some("submenu"@)
}

/// Whether `row` is how the visible menu node `n` is presented: its id as an
/// unsigned row id, its label (empty when it has none), and whether it opens
/// a submenu.
pub open spec fn is_row_of(row: MenuItem, n: MenuNode) -> bool {
    &&& row.item_id == n.id as u32
    &&& row.label@ == match opt_view(n.label) {
        Some(l) => l,
        None => Seq::<char>::empty(),
    }
    &&& row.is_submenu == is_submenu_node(n)
}

/// The visible nodes of a menu level, in order.
pub open spec fn visible_nodes(nodes: Seq<MenuNode>) -> Seq<MenuNode> {
    nodes.filter(|n: MenuNode| n.visible)
}

fn menu_row(n: &MenuNode) -> (r: MenuItem)
    ensures
        is_row_of(r, *n),
{
    let label = match &n.label {
        Some(l) => l.clone(),
        None => String::new(),
    };
    let is_submenu = match &n.children_display {
        Some(d) => str_eq(d.as_str(), "submenu"),
        None => false,
    };
    MenuItem { item_id: n.id as u32, label, is_submenu }
}

/// The rows of the visible nodes of a menu level, in order.
pub fn menu_rows(nodes: &Vec<MenuNode>) -> (r: Vec<MenuItem>)
    ensures
        r@.len() == visible_nodes(nodes@).len(),
        forall|i: int| 0 <= i < r@.len() ==> is_row_of(#[trigger] r@[i], visible_nodes(nodes@)[i]),
{
    let mut out: Vec<MenuItem> = Vec::new();
    let mut i: usize = 0;
    assert(nodes@.take(0) =~= Seq::<MenuNode>::empty());
    reveal_with_fuel(Seq::filter, 1);
    assert(visible_nodes(nodes@.take(0)) =~= Seq::<MenuNode>::empty());
    while i < nodes.len()
        invariant
            i <= nodes@.len(),
            out@.len() == visible_nodes(nodes@.take(i as int)).len(),
            forall|j: int| 0 <= j < out@.len() ==> is_row_of(#[trigger] out@[j], visible_nodes(nodes@.take(i as int))[j]),
        decreases nodes.len() - i,
    {
        proof {
            reveal_with_fuel(Seq::filter, 1);
            assert(nodes@.take(i + 1).drop_last() =~= nodes@.take(i as int));
            assert(nodes@.take(i + 1).last() == nodes@[i as int]);
        }
        if nodes[i].visible {
            out.push(menu_row(&nodes[i]));
        }
        i = i + 1;
    }
    assert(nodes@.take(nodes@.len() as int) =~= nodes@);
    out
}

/// The reply to `get_menu` once the host answered: the visible rows, or the
/// error reply.
pub fn menu_reply(app_id: String, result: Result<Vec<MenuNode>, TraydError>) -> (r: IpcResponse)
    ensures
        match result {
            Ok(nodes) => r matches IpcResponse::Success(ok) && ok.v == crate::ipc::wire::IPC_VERSION
                && (ok.payload matches OkPayload::Menu { app_id: a, items } && a@ == app_id@
                && items@.len() == visible_nodes(nodes@).len() && forall|i: int|
                0 <= i < items@.len() ==> is_row_of(#[trigger] items@[i], visible_nodes(nodes@)[i])),
            Err(e) => is_error_reply(r, host_error_reply(app_id@, e)),
        },
{
    match result {
        Ok(nodes) => {
            let items = menu_rows(&nodes);
            IpcResponse::ok(OkPayload::Menu { app_id, items })
        },
        Err(e) => error_reply(app_id.as_str(), &e),
    }
}

/// The reply to `activate` once the host answered.
pub fn activate_reply(app_id: &str, result: Result<(), TraydError>) -> (r: IpcResponse)
    ensures
        match result {
            Ok(()) => r == success(OkPayload::Ack),
            Err(e) => is_error_reply(r, host_error_reply(app_id@, e)),
        },
{
    match result {
        Ok(()) => IpcResponse::ok(OkPayload::Ack),
        Err(e) => error_reply(app_id, &e),
    }
}

/// The character of a 6-bit value in the standard Base64 alphabet
/// (`A`–`Z`, `a`–`z`, `0`–`9`, `+`, `/`).
pub open spec fn base64_digit(v: int) -> char {
    if v < 26 {
        ('A' as int + v) as char
    } else if v < 52 {
        ('a' as int + (v - 26)) as char
    } else if v < 62 {
        ('0' as int + (v - 52)) as char
    } else if v == 62 {
        '+'
    } else {
        '/'
    }
}

/// Standard padded Base64 (RFC 4648, section 4) of `data`: each group of
/// three bytes becomes four digits of six bits each, most significant
/// first; a last group of one or two bytes is filled with zero bits and
/// completed with `=`.
pub open spec fn base64_standard(data: Seq<u8>) -> Seq<char>
    decreases data.len(),
{
    if data.len() == 0 {
        Seq::<char>::empty()
    } else if data.len() == 1 {
        let b0 = data[0] as int;
        seq![base64_digit(b0 / 4), base64_digit((b0 % 4) * 16), '=', '=']
    } else if data.len() == 2 {
        let b0 = data[0] as int;
        let b1 = data[1] as int;
        seq![base64_digit(b0 / 4), base64_digit((b0 % 4) * 16 + b1 / 16), base64_digit((b1 % 16) * 4), '=']
    } else {
        let b0 = data[0] as int;
        let b1 = data[1] as int;
        let b2 = data[2] as int;
        seq![
            base64_digit(b0 / 4),
            base64_digit((b0 % 4) * 16 + b1 / 16),
            base64_digit((b1 % 16) * 4 + b2 / 64),
            base64_digit(b2 % 64),
        ] + base64_standard(data.skip(3))
    }
}

/// Standard padded Base64 of `n` bytes has four digits per started group
/// of three bytes.
pub proof fn lemma_base64_len(data: Seq<u8>)
    ensures
        base64_standard(data).len() == 4 * ((data.len() + 2) / 3),
    decreases data.len(),
{
    if data.len() >= 3 {
        lemma_base64_len(data.skip(3));
    }
}

/// Encodes bytes with `base64_ng::STANDARD` (`encoded_len`, then
/// `encode_slice`). Claims: the text is the standard padded Base64 of the
/// bytes. Under the size bound the buffer length cannot overflow, so both
/// calls succeed.
#[verifier::external_body]
fn encode_base64(bytes: &[u8]) -> (r: String)
    requires
        bytes@.len() <= usize::MAX / 2,
    ensures
        r@ == base64_standard(bytes@),
{
    let enc_len = base64_ng::STANDARD.encoded_len(bytes.len()).unwrap_or(0);
    let mut buf = vec![0u8; enc_len];
    let n = base64_ng::STANDARD.encode_slice(bytes, &mut buf).unwrap_or(0);
    String::from_utf8(buf[..n].to_vec()).unwrap_or_default()
}

/// The reply to `get_pixmap` once the host answered: the requested size,
/// the pixmap's dimensions and its Base64 pixel data.
pub fn pixmap_reply(app_id: String, size: u32, result: Result<Pixmap, TraydError>) -> (r: IpcResponse)
    requires
        result matches Ok(p) ==> p.data@.len() <= usize::MAX / 2,
    ensures
        match result {
            Ok(p) => r matches IpcResponse::Success(ok) && ok.v == crate::ipc::wire::IPC_VERSION
                && (ok.payload matches OkPayload::Pixmap { app_id: a, size: s, width, height, data }
                && a@ == app_id@ && s == size && width == p.width && height == p.height && data@
                == base64_standard(p.data@) && data@.len() == 4 * ((p.data@.len() + 2) / 3)),
            Err(e) => is_error_reply(r, host_error_reply(app_id@, e)),
        },
{
    match result {
        Ok(p) => {
            let data = encode_base64(p.data.as_slice());
            proof {
                lemma_base64_len(p.data@);
            }
            IpcResponse::ok(
                OkPayload::Pixmap { app_id, size, width: p.width, height: p.height, data },
            )
        },
        Err(e) => error_reply(app_id.as_str(), &e),
    }
}

/// The reply sent when a request line cannot be decoded; the connection is
/// closed after it.
pub fn undecodable_reply(message: &str) -> (r: IpcResponse)
    ensures
        is_error_reply(r, (ErrorCode::NotImplemented, message@)),
{
    IpcResponse::err(ErrorCode::NotImplemented, message)
}

/// A `subscribe` stream event carrying the client-facing item list.
pub fn event_reply(items: &Vec<TrayItem>) -> (r: IpcResponse)
    ensures
        r matches IpcResponse::Success(ok) && ok.v == crate::ipc::wire::IPC_VERSION && (
        ok.payload matches OkPayload::Event { event: TrayEvent::Update(list) } && list@.len()
            == items@.len() && forall|i: int|
            0 <= i < list@.len() ==> is_minimal_of(#[trigger] list@[i], items@[i])),
{
    IpcResponse::ok(OkPayload::Event { event: TrayEvent::Update(items_snapshot(items)) })
}

// ── Connection handling ───────────────────────────────────────────────────────

/// What happened on a client connection.
#[derive(Debug, Clone, Copy, PartialEq, Eq, Structural)]
pub enum ConnEvent {
    /// The client closed its side: no more request lines.
    EndOfInput,
    /// A request line could not be decoded.
    Undecodable,
    /// A request line was decoded; `subscribe` tells whether it asks for a
    /// `subscribe` stream.
    Request { subscribe: bool },
    /// The reply to a request was written, successfully or not.
    ReplyWritten(bool),
    /// A `subscribe` stream ended.
    StreamEnded,
}

/// What the connection has to do next.
#[derive(Debug, Clone, Copy, PartialEq, Eq, Structural)]
pub enum ConnAction {
    /// Read the next request line.
    ReadNext,
    /// Answer the request just read.
    Answer,
    /// Run the `subscribe` stream for the request just read.
    Stream,
    /// Send the undecodable-request reply, then close the connection.
    RejectAndClose,
    /// Close the connection.
    Close,
}

/// The connection rules: requests are answered one after another until the
/// input ends; an undecodable line is answered with an error and ends the
/// connection; a failed write ends it; a `subscribe` request takes the
/// connection over, and it closes when the stream ends.
pub open spec fn connection_rule(ev: ConnEvent) -> ConnAction {
    match ev {
        ConnEvent::EndOfInput => ConnAction::Close,
        ConnEvent::Undecodable => ConnAction::RejectAndClose,
        ConnEvent::Request { subscribe } => if subscribe {
            ConnAction::Stream
        } else {
            ConnAction::Answer
        },
        ConnEvent::ReplyWritten(ok) => if ok {
            ConnAction::ReadNext
        } else {
            ConnAction::Close
        },
        ConnEvent::StreamEnded => ConnAction::Close,
    }
}

/// The next step of a client connection.
pub fn connection_step(ev: ConnEvent) -> (r: ConnAction)
    ensures
        r == connection_rule(ev),
{
    match ev {
        ConnEvent::EndOfInput => ConnAction::Close,
        ConnEvent::Undecodable => ConnAction::RejectAndClose,
        ConnEvent::Request { subscribe } => if subscribe {
            ConnAction::Stream
        } else {
            ConnAction::Answer
        },
        ConnEvent::ReplyWritten(ok) => if ok {
            ConnAction::ReadNext
        } else {
            ConnAction::Close
        },
        ConnEvent::StreamEnded => ConnAction::Close,
    }
}

/// Whether a command asks for a `subscribe` stream.
pub fn is_subscribe(cmd: &crate::ipc::wire::Cmd) -> (r: bool)
    ensures
        r == (*cmd is Subscribe),
{
    match cmd {
        crate::ipc::wire::Cmd::Subscribe => true,
        _ => false,
    }
}

// ── Subscribe pacing ──────────────────────────────────────────────────────────

/// Coalescing window in milliseconds: after the first event arrives, further
/// events are collected for this long before one snapshot is sent.
pub const COALESCE_MS: u64 = 50;

/// Where a `subscribe` stream stands.
#[derive(Debug, Clone, Copy, PartialEq, Eq, Structural)]
pub enum SubscribePhase {
    /// Nothing sent yet.
    Start,
    /// A snapshot is being written; the stream continues after it.
    Sending,
    /// Waiting for the first host event after a snapshot.
    Waiting,
    /// Collecting events until the coalescing deadline.
    Coalescing,
    /// The last snapshot is being written; the stream ends after it.
    SendingLast,
    /// The stream is over.
    Finished,
}

/// What happened since the last step.
#[derive(Debug, Clone, Copy, PartialEq, Eq, Structural)]
pub enum SubscribeInput {
    /// The stream was just opened.
    Opened,
    /// The snapshot write finished, successfully or not.
    Written(bool),
    /// A host event arrived (or some were dropped because the reader lagged).
    Event,
    /// The host's event channel closed.
    ChannelClosed,
    /// The coalescing deadline passed.
    DeadlineElapsed,
}

/// What the stream has to do next.
#[derive(Debug, Clone, Copy, PartialEq, Eq, Structural)]
pub enum SubscribeAction {
    /// Write a snapshot of the current items.
    SendSnapshot,
    /// Wait for the next host event.
    AwaitEvent,
    /// Start the coalescing window of [`COALESCE_MS`], then wait for an event
    /// or its deadline.
    StartWindow,
    /// Wait for an event or the deadline of the current window.
    AwaitEventOrDeadline,
    /// End the stream.
    Stop,
}

/// The pacing rules of a `subscribe` stream: a snapshot first; then, after
/// each host event, collect events for one window and send one snapshot;
/// a closed channel ends the stream, with a last snapshot when it closes
/// during a window; a failed write of a regular snapshot ends it too.
/// Inputs that cannot occur in a phase end the stream.
pub open spec fn subscribe_transition(phase: SubscribePhase, input: SubscribeInput) -> (SubscribePhase, SubscribeAction) {
    match (phase, input) {
        (SubscribePhase::Start, SubscribeInput::Opened) => (SubscribePhase::Sending, SubscribeAction::SendSnapshot),
        (SubscribePhase::Sending, SubscribeInput::Written(true)) => (SubscribePhase::Waiting, SubscribeAction::AwaitEvent),
        (SubscribePhase::Waiting, SubscribeInput::Event) => (SubscribePhase::Coalescing, SubscribeAction::StartWindow),
        (SubscribePhase::Coalescing, SubscribeInput::Event) => (SubscribePhase::Coalescing, SubscribeAction::AwaitEventOrDeadline),
        (SubscribePhase::Coalescing, SubscribeInput::DeadlineElapsed) => (SubscribePhase::Sending, SubscribeAction::SendSnapshot),
        (SubscribePhase::Coalescing, SubscribeInput::ChannelClosed) => (SubscribePhase::SendingLast, SubscribeAction::SendSnapshot),
        _ => (SubscribePhase::Finished, SubscribeAction::Stop),
    }
}

/// One step of a `subscribe` stream.
pub fn subscribe_step(phase: SubscribePhase, input: SubscribeInput) -> (r: (SubscribePhase, SubscribeAction))
    ensures
        r == subscribe_transition(phase, input),
{
    match (phase, input) {
        (SubscribePhase::Start, SubscribeInput::Opened) => (SubscribePhase::Sending, SubscribeAction::SendSnapshot),
        (SubscribePhase::Sending, SubscribeInput::Written(true)) => (SubscribePhase::Waiting, SubscribeAction::AwaitEvent),
        (SubscribePhase::Waiting, SubscribeInput::Event) => (SubscribePhase::Coalescing, SubscribeAction::StartWindow),
        (SubscribePhase::Coalescing, SubscribeInput::Event) => (SubscribePhase::Coalescing, SubscribeAction::AwaitEventOrDeadline),
        (SubscribePhase::Coalescing, SubscribeInput::DeadlineElapsed) => (SubscribePhase::Sending, SubscribeAction::SendSnapshot),
        (SubscribePhase::Coalescing, SubscribeInput::ChannelClosed) => (SubscribePhase::SendingLast, SubscribeAction::SendSnapshot),
        _ => (SubscribePhase::Finished, SubscribeAction::Stop),
    }
}

/// The phase reached and the actions taken when a stream in `phase` meets
/// `inputs` in turn.
pub open spec fn run_pacing(phase: SubscribePhase, inputs: Seq<SubscribeInput>) -> (SubscribePhase, Seq<SubscribeAction>)
    decreases inputs.len(),
{
    if inputs.len() == 0 {
        (phase, Seq::<SubscribeAction>::empty())
    } else {
        let (p1, a1) = subscribe_transition(phase, inputs[0]);
        let (pn, rest) = run_pacing(p1, inputs.skip(1));
        (pn, seq![a1] + rest)
    }
}

/// `k` further events inside a window.
pub open spec fn more_events(k: nat) -> Seq<SubscribeInput> {
    Seq::new(k, |i: int| SubscribeInput::Event)
}

/// Waiting for the window's deadline or the next event, `k` times.
pub open spec fn window_waits(k: nat) -> Seq<SubscribeAction> {
    Seq::new(k, |i: int| SubscribeAction::AwaitEventOrDeadline)
}

proof fn lemma_window_rest(k: nat, last: SubscribeInput)
    requires
        last == SubscribeInput::DeadlineElapsed || last == SubscribeInput::ChannelClosed,
    ensures
        run_pacing(SubscribePhase::Coalescing, more_events(k) + seq![last]) == (
            subscribe_transition(SubscribePhase::Coalescing, last).0,
            window_waits(k) + seq![SubscribeAction::SendSnapshot],
        ),
    decreases k,
{
    let ins = more_events(k) + seq![last];
    if k == 0 {
        assert(ins =~= seq![last]);
        assert(ins.skip(1) =~= Seq::<SubscribeInput>::empty());
        let p1 = subscribe_transition(SubscribePhase::Coalescing, last).0;
        assert(run_pacing(p1, Seq::<SubscribeInput>::empty()) == (p1, Seq::<SubscribeAction>::empty()));
        assert(seq![SubscribeAction::SendSnapshot] + Seq::<SubscribeAction>::empty() =~= seq![SubscribeAction::SendSnapshot]);
        assert(window_waits(0) + seq![SubscribeAction::SendSnapshot] =~= seq![SubscribeAction::SendSnapshot]);
    } else {
        let k1 = (k - 1) as nat;
        lemma_window_rest(k1, last);
        assert(ins[0] == SubscribeInput::Event);
        assert(subscribe_transition(SubscribePhase::Coalescing, ins[0]) == (SubscribePhase::Coalescing, SubscribeAction::AwaitEventOrDeadline));
        assert(ins.skip(1) =~= more_events(k1) + seq![last]);
        assert(seq![SubscribeAction::AwaitEventOrDeadline] + (window_waits(k1) + seq![SubscribeAction::SendSnapshot])
            =~= window_waits(k) + seq![SubscribeAction::SendSnapshot]);
    }
}

/// A burst of events after a snapshot (a first event, then `k` more inside
/// its window) is answered by exactly one snapshot, sent when the window's
/// deadline passes, after which the stream goes on; when the channel closes
/// inside the window instead, that one snapshot is the last.
pub proof fn lemma_subscribe_burst(k: nat)
    ensures
        run_pacing(
            SubscribePhase::Waiting,
            seq![SubscribeInput::Event] + more_events(k) + seq![SubscribeInput::DeadlineElapsed],
        ) == (
            SubscribePhase::Sending,
            seq![SubscribeAction::StartWindow] + window_waits(k) + seq![SubscribeAction::SendSnapshot],
        ),
        run_pacing(
            SubscribePhase::Waiting,
            seq![SubscribeInput::Event] + more_events(k) + seq![SubscribeInput::ChannelClosed],
        ) == (
            SubscribePhase::SendingLast,
            seq![SubscribeAction::StartWindow] + window_waits(k) + seq![SubscribeAction::SendSnapshot],
        ),
        forall|i: int| 0 <= i < k ==> #[trigger] window_waits(k)[i] != SubscribeAction::SendSnapshot,
{
    lemma_window_rest(k, SubscribeInput::DeadlineElapsed);
    lemma_window_rest(k, SubscribeInput::ChannelClosed);
    let a = seq![SubscribeInput::Event] + more_events(k) + seq![SubscribeInput::DeadlineElapsed];
    let b = seq![SubscribeInput::Event] + more_events(k) + seq![SubscribeInput::ChannelClosed];
    assert(a[0] == SubscribeInput::Event);
    assert(b[0] == SubscribeInput::Event);
    assert(a.skip(1) =~= more_events(k) + seq![SubscribeInput::DeadlineElapsed]);
    assert(b.skip(1) =~= more_events(k) + seq![SubscribeInput::ChannelClosed]);
    assert(seq![SubscribeAction::StartWindow] + (window_waits(k) + seq![SubscribeAction::SendSnapshot])
        =~= seq![SubscribeAction::StartWindow] + window_waits(k) + seq![SubscribeAction::SendSnapshot]);
}

/// A stream's first action is a snapshot; once finished it stays finished;
/// a closed channel ends it at once or after exactly one last snapshot,
/// whatever that write's outcome; and a window never sends more than one
/// snapshot however many events it collects.
pub proof fn lemma_subscribe_pacing(p: SubscribePhase, i: SubscribeInput, ok: bool)
    ensures
        subscribe_transition(SubscribePhase::Start, SubscribeInput::Opened).1 == SubscribeAction::SendSnapshot,
        subscribe_transition(SubscribePhase::Finished, i) == (SubscribePhase::Finished, SubscribeAction::Stop),
        ({
            let (p1, a1) = subscribe_transition(p, SubscribeInput::ChannelClosed);
            (a1 == SubscribeAction::Stop && p1 == SubscribePhase::Finished) || (a1 == SubscribeAction::SendSnapshot
                && subscribe_transition(p1, SubscribeInput::Written(ok)) == (SubscribePhase::Finished, SubscribeAction::Stop))
        }),
        subscribe_transition(SubscribePhase::Coalescing, SubscribeInput::Event) == (SubscribePhase::Coalescing, SubscribeAction::AwaitEventOrDeadline),
{
}

} // verus!
