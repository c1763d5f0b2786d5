use trayd::error::TraydError;
use trayd::host::HostState;
use trayd::model::{IconData, ItemId, ToolTip, TrayItem, TrayStatus};

/// Build a dummy `TrayItem` for use in unit tests (no D-Bus required).
fn dummy_item(id: &str) -> TrayItem {
    TrayItem {
        id: ItemId(id.to_owned()),
        bus_name: format!("org.example.{id}"),
        object_path: "/StatusNotifierItem".to_owned(),
        title: id.to_owned(),
        status: TrayStatus::Active,
        icon: IconData::default(),
        attention_icon: IconData::default(),
        category: String::new(),
        item_is_menu: false,
        tool_tip: ToolTip::default(),
        menu_path: String::new(),
    }
}

#[test]
fn host_state_insert_and_retrieve() {
    let mut state = HostState::new();
    let item = dummy_item("App");
    state.insert(item.id.clone(), item.clone());

    let retrieved = state.get(&item.id).unwrap();
    assert_eq!(retrieved.title, "App");
}

#[test]
fn host_state_remove_item() {
    let mut state = HostState::new();
    let item = dummy_item("App");
    let id = item.id.clone();
    state.insert(id.clone(), item);
    assert!(state.contains_key(&id));

    state.remove(&id);
    assert!(!state.contains_key(&id));
}

#[test]
fn host_state_multiple_items() {
    let mut state = HostState::new();
    for name in ["Alpha", "Beta", "Gamma"] {
        let item = dummy_item(name);
        state.insert(item.id.clone(), item);
    }
    assert_eq!(state.len(), 3);
}

#[test]
fn host_state_overwrite_keeps_order_and_len() {
    let mut state = HostState::new();
    for name in ["Alpha", "Beta"] {
        let item = dummy_item(name);
        assert!(state.insert(item.id.clone(), item).is_none());
    }
    let mut newer = dummy_item("Alpha");
    newer.title = "Alpha 2".to_owned();
    let old = state.insert(ItemId("Alpha".to_owned()), newer).expect("replaced");
    assert_eq!(old.title, "Alpha");
    assert_eq!(state.len(), 2);
    let titles: Vec<String> = state.items().into_iter().map(|t| t.title).collect();
    assert_eq!(titles, vec!["Alpha 2".to_owned(), "Beta".to_owned()]);
    let ids: Vec<String> = state.item_ids().into_iter().map(|i| i.0).collect();
    assert_eq!(ids, vec!["Alpha".to_owned(), "Beta".to_owned()]);
    assert!(state.remove(&ItemId("Nope".to_owned())).is_none());
    assert_eq!(state.remove(&ItemId("Alpha".to_owned())).unwrap().title, "Alpha 2");
    assert_eq!(state.len(), 1);
}

#[test]
fn host_state_resolve() {
    let mut state = HostState::new();
    let mut item = dummy_item("App");
    state.insert(item.id.clone(), item.clone());
    assert_eq!(
        state.resolve("App").unwrap(),
        ("org.example.App".to_owned(), "/StatusNotifierItem".to_owned())
    );
    assert!(matches!(state.resolve("Other"), Err(TraydError::NotFound(ref m)) if m == "Other"));
    assert!(matches!(state.resolve_menu("App"), Err(TraydError::NoMenu(ref m)) if m == "App"));
    item.menu_path = "/MenuBar".to_owned();
    state.insert(item.id.clone(), item);
    assert_eq!(
        state.resolve_menu("App").unwrap(),
        ("org.example.App".to_owned(), "/MenuBar".to_owned())
    );
    assert!(matches!(state.resolve_menu("X"), Err(TraydError::NotFound(_))));
}

#[test]
fn host_state_list_summaries() {
    let mut state = HostState::new();
    let mut item = dummy_item("App");
    item.title = String::new();
    item.attention_icon = IconData { name: "alert".to_owned() };
    item.icon = IconData { name: "app".to_owned() };
    item.tool_tip.title = "Tip".to_owned();
    state.insert(item.id.clone(), item);
    let list = state.list();
    assert_eq!(list.len(), 1);
    assert_eq!(list[0].id.0, "App");
    assert!(list[0].title.is_none());
    assert!(list[0].has_attention_icon);
    assert_eq!(list[0].tooltip.as_deref(), Some("Tip"));
    assert!(list[0].category.is_none());
    assert_eq!(list[0].icon_name.as_deref(), Some("app"));
}
