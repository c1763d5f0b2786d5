use trayd::dbus::item::{pick_pixmap, scroll_delta, scroll_orientation};
use trayd::dbus::menu::{parse_layout_children, parse_node, DbusValue, DictEntry};
use trayd::dbus::watcher::{parse_service, WatcherInner, WatcherMsg};
use trayd::model::ScrollDirection;

#[test]
fn parse_service_plain_bus_name() {
    let (bus, path) = parse_service(":1.100", "com.example.App");
    assert_eq!(bus, "com.example.App");
    assert_eq!(path, "/StatusNotifierItem");
}

#[test]
fn parse_service_object_path_uses_sender() {
    let (bus, path) = parse_service(":1.100", "/org/example/Tray");
    assert_eq!(bus, ":1.100");
    assert_eq!(path, "/org/example/Tray");
}

#[test]
fn parse_service_combined_form() {
    let (bus, path) = parse_service(":1.100", "com.example.App/StatusNotifierItem");
    assert_eq!(bus, "com.example.App");
    assert_eq!(path, "/StatusNotifierItem");
}

#[test]
fn parse_service_unique_name_with_path() {
    let (bus, path) = parse_service(":1.100", ":1.100/StatusNotifierItem");
    assert_eq!(bus, ":1.100");
    assert_eq!(path, "/StatusNotifierItem");
}

#[test]
fn dbus_module_compiles() {}

#[test]
fn parse_service_splits_at_first_slash_only() {
    let (bus, path) = parse_service(":1.7", "org.a.B/x/y");
    assert_eq!(bus, "org.a.B");
    assert_eq!(path, "/x/y");
    let (bus, path) = parse_service(":1.7", "");
    assert_eq!(bus, "");
    assert_eq!(path, "/StatusNotifierItem");
}

#[test]
fn watcher_registers_once() {
    let mut w = WatcherInner::new();
    let first = w.register_item(":1.5", "/StatusNotifierItem");
    match first {
        Some(WatcherMsg::ItemRegistered { service_id, bus_name, object_path }) => {
            assert_eq!(service_id, ":1.5/StatusNotifierItem");
            assert_eq!(bus_name, ":1.5");
            assert_eq!(object_path, "/StatusNotifierItem");
        }
        None => panic!("first registration must be reported"),
    }
    assert!(w.register_item(":1.5", "/StatusNotifierItem").is_none());
    assert_eq!(w.items, vec![":1.5/StatusNotifierItem".to_owned()]);
    assert!(w.register_item(":1.9", "org.example.App").is_some());
    assert_eq!(
        w.items,
        vec![":1.5/StatusNotifierItem".to_owned(), "org.example.App".to_owned()]
    );
}

fn prop(key: &str, value: DbusValue) -> DictEntry {
    DictEntry {
        key: DbusValue::Str(key.to_owned()),
        value: DbusValue::Variant(Box::new(value)),
        ownable: true,
    }
}

fn node(id: i32, props: Vec<DictEntry>) -> DbusValue {
    DbusValue::Variant(Box::new(DbusValue::Structure(vec![
        DbusValue::I32(id),
        DbusValue::Dict(props),
        DbusValue::Other,
    ])))
}

#[test]
fn parse_node_reads_properties() {
    let v = node(
        5,
        vec![
            prop("label", DbusValue::Str("Quit".to_owned())),
            prop("enabled", DbusValue::Bool(false)),
            prop("type", DbusValue::Str("separator".to_owned())),
            prop("children-display", DbusValue::Str("submenu".to_owned())),
        ],
    );
    let n = parse_node(&v).expect("node");
    assert_eq!(n.id, 5);
    assert_eq!(n.label.as_deref(), Some("Quit"));
    assert!(!n.enabled);
    assert!(n.visible);
    assert!(n.is_separator);
    assert_eq!(n.children_display.as_deref(), Some("submenu"));
}

#[test]
fn parse_node_defaults_and_rejects() {
    let n = parse_node(&node(1, vec![])).expect("node");
    assert!(n.enabled && n.visible && !n.is_separator);
    assert!(n.label.is_none());
    // wrong property types fall back to defaults
    let n = parse_node(&node(
        2,
        vec![prop("visible", DbusValue::Str("no".to_owned())), prop("label", DbusValue::Bool(true))],
    ))
    .unwrap();
    assert!(n.visible);
    assert!(n.label.is_none());
    // the last of duplicate keys wins; unownable entries are skipped
    let mut late = prop("label", DbusValue::Str("Late".to_owned()));
    late.ownable = false;
    let n = parse_node(&node(
        3,
        vec![
            prop("label", DbusValue::Str("A".to_owned())),
            prop("label", DbusValue::Str("B".to_owned())),
            late,
        ],
    ))
    .unwrap();
    assert_eq!(n.label.as_deref(), Some("B"));
    // not a struct / too short / non-i32 id
    assert!(parse_node(&DbusValue::I32(1)).is_none());
    assert!(parse_node(&DbusValue::Structure(vec![DbusValue::I32(1)])).is_none());
    assert!(parse_node(&DbusValue::Structure(vec![DbusValue::Bool(true), DbusValue::Other])).is_none());
    // a non-dict second field means no properties
    let n = parse_node(&DbusValue::Structure(vec![DbusValue::I32(9), DbusValue::Other])).unwrap();
    assert_eq!(n.id, 9);
    assert!(n.enabled);
}

#[test]
fn layout_children_skip_non_nodes() {
    let children = vec![node(1, vec![]), DbusValue::Other, node(2, vec![])];
    let nodes = parse_layout_children(&children);
    let ids: Vec<i32> = nodes.iter().map(|n| n.id).collect();
    assert_eq!(ids, vec![1, 2]);
}

#[test]
fn scroll_mapping() {
    assert_eq!(scroll_orientation(ScrollDirection::Up), "vertical");
    assert_eq!(scroll_orientation(ScrollDirection::Right), "horizontal");
    assert_eq!(scroll_delta(ScrollDirection::Up, 3), -3);
    assert_eq!(scroll_delta(ScrollDirection::Down, 3), 3);
    assert_eq!(scroll_delta(ScrollDirection::Left, i32::MIN), i32::MAX);
    assert_eq!(scroll_delta(ScrollDirection::Right, -2), -2);
}

#[test]
fn pick_pixmap_best_fit() {
    let frames = vec![
        (0, 16, vec![1u8]),
        (16, 16, vec![2u8]),
        (24, 24, vec![3u8]),
        (20, 20, vec![4u8]),
    ];
    let p = pick_pixmap(frames, 22).expect("a frame");
    assert_eq!((p.width, p.height, p.data), (24, 24, vec![3u8]));
    assert!(pick_pixmap(vec![(0, 0, vec![]), (-1, 5, vec![])], 22).is_none());
    assert!(pick_pixmap(vec![], 22).is_none());
}
