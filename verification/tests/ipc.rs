use trayd::error::TraydError;
use trayd::ipc::cli::{activate_report, list_output, list_report, ping_report, subscribe_ack_report, CliReport};
use trayd::ipc::codec::{decode_frame, encode_frame, trim_str};
use trayd::ipc::protocol::{
    ErrorCode, ErrorPayload, EventEnvelope, HostEvent, ItemInfo, ItemStatus, Method, RequestEnvelope,
    Response, ResultPayload, PROTOCOL_VERSION,
};
use trayd::ipc::server::{
    activate_reply, error_reply, event_reply, items_reply, menu_reply, pixmap_reply, plan, pong_reply,
    connection_step, is_subscribe, subscribe_step, to_minimal, undecodable_reply, ConnAction,
    ConnEvent, HostCall, SubscribeAction, SubscribeInput, SubscribePhase,
};
use trayd::ipc::wire::{self, Cmd, IpcRequest, IpcResponse, OkPayload, TrayEvent};
use trayd::model::{IconData, ItemId, MenuNode, Pixmap, PixmapFormat, ToolTip, TrayItem, TrayStatus};

fn tray_item(id: &str, status: TrayStatus) -> TrayItem {
    TrayItem {
        id: ItemId(id.to_owned()),
        bus_name: format!("org.example.{id}"),
        object_path: "/StatusNotifierItem".to_owned(),
        title: String::new(),
        status,
        icon: IconData { name: "app-icon".to_owned() },
        attention_icon: IconData::default(),
        category: String::new(),
        item_is_menu: false,
        tool_tip: ToolTip::default(),
        menu_path: String::new(),
    }
}

#[test]
fn response_ok_and_err_roundtrip() {
    let ok = Response::ok(ResultPayload::Subscribed);
    assert_eq!(ok.v, PROTOCOL_VERSION);
    assert_eq!(ok.into_result(), Ok(ResultPayload::Subscribed));
    let err = Response::err(ErrorPayload::not_found("nope"));
    assert_eq!(err.into_result(), Err(ErrorPayload { code: ErrorCode::NotFound, message: "nope".into() }));
    let bad = Response { v: 1, result: None, error: None };
    let e = bad.into_result().unwrap_err();
    assert_eq!(e.code, ErrorCode::InternalError);
    assert_eq!(e.message, "malformed response: neither `result` nor `error` is set");
}

#[test]
fn envelopes_carry_version() {
    let r = RequestEnvelope::new(Method::Ping);
    assert_eq!((r.v, r.method), (1, Method::Ping));
    let e = EventEnvelope::new(HostEvent::ItemRemoved { id: "x".into() });
    assert_eq!(e.v, 1);
    assert_eq!(IpcRequest::new(Cmd::Ping).v, 1);
}

#[test]
fn error_payload_builders_and_codes() {
    assert_eq!(ErrorPayload::bus_failed("b").code, ErrorCode::BusFailed);
    assert_eq!(ErrorPayload::invalid_session("s").code, ErrorCode::InvalidSession);
    assert_eq!(ErrorPayload::invalid_request("r").code, ErrorCode::InvalidRequest);
    assert_eq!(ErrorPayload::internal("i").message, "i");
    assert_eq!(ErrorCode::NotFound.to_string(), "NOT_FOUND");
    assert_eq!(ErrorCode::InternalError.to_string(), "INTERNAL_ERROR");
    assert_eq!(ErrorCode::InvalidSession.to_string(), "INVALID_SESSION");
}

#[test]
fn minimal_item_prefers_attention_icon() {
    let mut t = tray_item("App", TrayStatus::NeedsAttention);
    let m = to_minimal(&t);
    assert_eq!(m.icon_handle.as_deref(), Some("app-icon"));
    assert_eq!(m.status, "needs_attention");
    assert!(m.title.is_none());
    t.attention_icon = IconData { name: "alert".into() };
    assert_eq!(to_minimal(&t).icon_handle.as_deref(), Some("alert"));
    t.status = TrayStatus::Active;
    t.title = "Example".into();
    t.category = "ApplicationStatus".into();
    t.tool_tip = ToolTip { title: "T".into(), description: String::new() };
    t.item_is_menu = true;
    let m = to_minimal(&t);
    assert_eq!(m.icon_handle.as_deref(), Some("app-icon"));
    assert_eq!(m.app_id, "App");
    assert_eq!(m.title.as_deref(), Some("Example"));
    assert_eq!(m.category.as_deref(), Some("ApplicationStatus"));
    assert_eq!(m.tooltip_title.as_deref(), Some("T"));
    assert!(m.tooltip_description.is_none());
    assert!(m.item_is_menu);
}

#[test]
fn plan_maps_commands() {
    assert!(matches!(plan(Cmd::Ping), HostCall::Pong));
    assert!(matches!(plan(Cmd::GetItems), HostCall::ListItems));
    assert!(matches!(plan(Cmd::Subscribe), HostCall::Subscribe));
    assert!(matches!(
        plan(Cmd::GetMenu { app_id: "a".into(), submenu_id: Some(2) }),
        HostCall::GetMenu { ref app_id, parent: Some(2) } if app_id == "a"
    ));
    assert!(matches!(
        plan(Cmd::Activate { app_id: "a".into(), item_id: 7 }),
        HostCall::ActivateMenu { node_id: 7, .. }
    ));
    assert!(matches!(
        plan(Cmd::GetPixmap { app_id: "a".into(), size: 65536 + 22 }),
        HostCall::GetPixmap { size: 65558, host_size: 22, .. }
    ));
    assert_eq!(pong_reply(), IpcResponse::ok(OkPayload::Pong));
}

#[test]
fn replies_for_host_outcomes() {
    let r = error_reply("org.example.App", &TraydError::NotFound("org.example.App".into()));
    match r {
        IpcResponse::Failure(e) => {
            assert_eq!(e.error.code, wire::ErrorCode::NotFound);
            assert_eq!(e.error.message, "org.example.App not found");
        }
        other => panic!("expected an error, got {other:?}"),
    }
    match activate_reply("a", Err(TraydError::DBus("gone".into()))) {
        IpcResponse::Failure(e) => {
            assert_eq!(e.error.code, wire::ErrorCode::BusFailed);
            assert_eq!(e.error.message, "D-Bus error: gone");
        }
        other => panic!("expected an error, got {other:?}"),
    }
    assert_eq!(activate_reply("a", Ok(())), IpcResponse::ok(OkPayload::Ack));
    match undecodable_reply("bad json") {
        IpcResponse::Failure(e) => assert_eq!(e.error.code, wire::ErrorCode::NotImplemented),
        other => panic!("expected an error, got {other:?}"),
    }
}

#[test]
fn menu_reply_filters_hidden_rows() {
    let nodes = vec![
        MenuNode { id: 1, label: Some("Action".into()), enabled: true, visible: true, is_separator: false, children_display: None },
        MenuNode { id: 3, label: Some("Hidden".into()), enabled: true, visible: false, is_separator: false, children_display: None },
        MenuNode { id: 2, label: None, enabled: true, visible: true, is_separator: false, children_display: Some("submenu".into()) },
        MenuNode { id: -1, label: Some("Neg".into()), enabled: true, visible: true, is_separator: false, children_display: Some("other".into()) },
    ];
    match menu_reply("org.example.App".into(), Ok(nodes)) {
        IpcResponse::Success(ok) => match ok.payload {
            OkPayload::Menu { app_id, items } => {
                assert_eq!(app_id, "org.example.App");
                assert_eq!(items.len(), 3);
                assert_eq!((items[0].item_id, items[0].label.as_str(), items[0].is_submenu), (1, "Action", false));
                assert_eq!((items[1].item_id, items[1].label.as_str(), items[1].is_submenu), (2, "", true));
                assert_eq!((items[2].item_id, items[2].is_submenu), (u32::MAX, false));
            }
            other => panic!("expected a menu, got {other:?}"),
        },
        other => panic!("expected success, got {other:?}"),
    }
    assert!(matches!(
        menu_reply("x".into(), Err(TraydError::NoMenu("x".into()))),
        IpcResponse::Failure(_)
    ));
}

#[test]
fn pixmap_reply_encodes_base64() {
    let p = Pixmap { format: PixmapFormat::Argb32, width: 1, height: 1, data: vec![0, 0, 0, 255] };
    match pixmap_reply("org.example.App".into(), 22, Ok(p)) {
        IpcResponse::Success(ok) => match ok.payload {
            OkPayload::Pixmap { app_id, size, width, height, data } => {
                assert_eq!(app_id, "org.example.App");
                assert_eq!((size, width, height), (22, 1, 1));
                assert_eq!(data, "AAAA/w==");
            }
            other => panic!("expected a pixmap, got {other:?}"),
        },
        other => panic!("expected success, got {other:?}"),
    }
    let empty = Pixmap { format: PixmapFormat::Argb32, width: 0, height: 0, data: vec![] };
    match pixmap_reply("a".into(), 16, Ok(empty)) {
        IpcResponse::Success(ok) => assert!(matches!(ok.payload, OkPayload::Pixmap { ref data, .. } if data.is_empty())),
        other => panic!("expected success, got {other:?}"),
    }
}

#[test]
fn items_and_event_replies() {
    let items = vec![tray_item("A", TrayStatus::Passive), tray_item("B", TrayStatus::Active)];
    match items_reply(&items) {
        IpcResponse::Success(ok) => match ok.payload {
            OkPayload::Items { items } => {
                assert_eq!(items.len(), 2);
                assert_eq!(items[0].status, "passive");
                assert_eq!(items[1].app_id, "B");
            }
            other => panic!("unexpected {other:?}"),
        },
        other => panic!("unexpected {other:?}"),
    }
    match event_reply(&items) {
        IpcResponse::Success(ok) => {
            assert!(matches!(ok.payload, OkPayload::Event { event: TrayEvent::Update(ref l) } if l.len() == 2))
        }
        other => panic!("unexpected {other:?}"),
    }
}

#[test]
fn subscribe_pacing_sequence() {
    let mut phase = SubscribePhase::Start;
    let mut actions = Vec::new();
    for input in [
        SubscribeInput::Opened,
        SubscribeInput::Written(true),
        SubscribeInput::Event,
        SubscribeInput::Event,
        SubscribeInput::DeadlineElapsed,
        SubscribeInput::Written(true),
        SubscribeInput::Event,
        SubscribeInput::ChannelClosed,
        SubscribeInput::Written(false),
    ] {
        let (p, a) = subscribe_step(phase, input);
        phase = p;
        actions.push(a);
    }
    assert_eq!(
        actions,
        vec![
            SubscribeAction::SendSnapshot,
            SubscribeAction::AwaitEvent,
            SubscribeAction::StartWindow,
            SubscribeAction::AwaitEventOrDeadline,
            SubscribeAction::SendSnapshot,
            SubscribeAction::AwaitEvent,
            SubscribeAction::StartWindow,
            SubscribeAction::SendSnapshot,
            SubscribeAction::Stop,
        ]
    );
    assert_eq!(phase, SubscribePhase::Finished);
    assert_eq!(
        subscribe_step(SubscribePhase::Waiting, SubscribeInput::ChannelClosed),
        (SubscribePhase::Finished, SubscribeAction::Stop)
    );
    assert_eq!(
        subscribe_step(SubscribePhase::Sending, SubscribeInput::Written(false)),
        (SubscribePhase::Finished, SubscribeAction::Stop)
    );
}

#[test]
fn frames_trim_and_roundtrip() {
    assert_eq!(decode_frame(""), None);
    assert_eq!(decode_frame("\n"), Some(""));
    assert_eq!(decode_frame("  {\"v\":1}\r\n"), Some("{\"v\":1}"));
    assert_eq!(trim_str("\u{3000}\u{a0}x y\u{2029}"), "x y");
    let line = encode_frame("{\"v\":1,\"cmd\":\"ping\"}".to_owned());
    assert_eq!(line, "{\"v\":1,\"cmd\":\"ping\"}\n");
    assert_eq!(decode_frame(&line), Some("{\"v\":1,\"cmd\":\"ping\"}"));
}

#[test]
fn cli_reports() {
    let pong = Response::ok(ResultPayload::Pong { version: "0.1.0".into() });
    assert!(matches!(ping_report(pong), CliReport::Print(ref l) if l == &vec!["pong: trayd 0.1.0".to_owned()]));
    assert!(matches!(ping_report(Response::ok(ResultPayload::Subscribed)), CliReport::Unexpected(ResultPayload::Subscribed)));
    match ping_report(Response::err(ErrorPayload::bus_failed("x"))) {
        CliReport::Remote { code, message } => assert_eq!((code, message.as_str()), (ErrorCode::BusFailed, "x")),
        other => panic!("unexpected {other:?}"),
    }
    let none = Response::ok(ResultPayload::List { items: vec![] });
    assert!(matches!(list_report(none), CliReport::Print(ref l) if l == &vec!["(no tray items registered)".to_owned()]));
    let items = vec![
        ItemInfo { id: "a".into(), title: Some("Alpha".into()), status: ItemStatus::Active, has_attention_icon: false, tooltip: None, category: None },
        ItemInfo { id: "b".into(), title: None, status: ItemStatus::NeedsAttention, has_attention_icon: true, tooltip: None, category: None },
    ];
    assert_eq!(list_output(&items), vec!["a: Alpha [Active]".to_owned(), "b: <untitled> [NeedsAttention]".to_owned()]);
    assert!(matches!(activate_report(Response::ok(ResultPayload::Success)), CliReport::Print(ref l) if l.is_empty()));
    assert!(matches!(subscribe_ack_report(Response::ok(ResultPayload::Subscribed)), CliReport::Print(ref l) if l.is_empty()));
    assert!(matches!(subscribe_ack_report(Response::ok(ResultPayload::Success)), CliReport::Unexpected(_)));
}

#[test]
fn pixmap_reply_base64_groups_and_padding() {
    for (bytes, text) in [
        (vec![77u8, 97, 110], "TWFu"),
        (vec![77u8, 97], "TWE="),
        (vec![77u8], "TQ=="),
        (vec![255u8, 254, 253, 0], "//79AA=="),
    ] {
        let p = Pixmap { format: PixmapFormat::Argb32, width: 1, height: 1, data: bytes };
        match pixmap_reply("a".into(), 1, Ok(p)) {
            IpcResponse::Success(ok) => match ok.payload {
                OkPayload::Pixmap { data, .. } => assert_eq!(data, text),
                other => panic!("expected a pixmap, got {other:?}"),
            },
            other => panic!("expected success, got {other:?}"),
        }
    }
}

#[test]
fn connection_rules() {
    assert_eq!(connection_step(ConnEvent::EndOfInput), ConnAction::Close);
    assert_eq!(connection_step(ConnEvent::Undecodable), ConnAction::RejectAndClose);
    assert_eq!(connection_step(ConnEvent::Request { subscribe: false }), ConnAction::Answer);
    assert_eq!(connection_step(ConnEvent::Request { subscribe: true }), ConnAction::Stream);
    assert_eq!(connection_step(ConnEvent::ReplyWritten(true)), ConnAction::ReadNext);
    assert_eq!(connection_step(ConnEvent::ReplyWritten(false)), ConnAction::Close);
    assert_eq!(connection_step(ConnEvent::StreamEnded), ConnAction::Close);
    assert!(is_subscribe(&Cmd::Subscribe));
    assert!(!is_subscribe(&Cmd::Ping));
}
