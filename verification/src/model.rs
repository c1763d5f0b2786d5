//! In-process tray domain types (not the IPC wire format).

use vstd::prelude::*;

use crate::text::str_eq;

verus! {

// ── Identity ──────────────────────────────────────────────────────────────────

/// Stable item identity: D-Bus service name + object path, e.g.
/// `org.kde.plasma.nm/StatusNotifierItem`.
#[derive(Debug, PartialEq, Eq, Hash)]
pub struct ItemId(pub String);

impl Clone for ItemId {
    fn clone(&self) -> (r: Self)
        ensures
            r == *self,
    {
        ItemId(self.0.clone())
    }
}

impl ItemId {
    /// The text of the identity, as it is displayed.
    pub fn to_string(&self) -> (r: String)
        ensures
            r@ == self.0@,
    {
        self.0.clone()
    }
}

/// The identities of a list of ids, as character sequences.
pub open spec fn id_views(ids: Seq<ItemId>) -> Seq<Seq<char>> {
    ids.map_values(|id: ItemId| id.0@)
}

/// A copy of an optional string that keeps its contents.
pub fn clone_opt_string(s: &Option<String>) -> (r: Option<String>)
    ensures
        r == *s,
{
    match s {
        Some(t) => Some(t.clone()),
        None => None,
    }
}

// ── Item ──────────────────────────────────────────────────────────────────────

/// A registered StatusNotifier item with its last-known properties.
#[derive(Debug)]
pub struct Item {
    pub id: ItemId,
    pub title: Option<String>,
    pub status: ItemStatus,
    pub has_attention_icon: bool,
    pub tooltip: Option<String>,
    pub category: Option<String>,
    pub icon_name: Option<String>,
}

impl Clone for Item {
    fn clone(&self) -> (r: Self)
        ensures
            r == *self,
    {
        Item {
            id: self.id.clone(),
            title: clone_opt_string(&self.title),
            status: self.status,
            has_attention_icon: self.has_attention_icon,
            tooltip: clone_opt_string(&self.tooltip),
            category: clone_opt_string(&self.category),
            icon_name: clone_opt_string(&self.icon_name),
        }
    }
}

/// `StatusNotifierItem.Status` values.
#[derive(Debug, Clone, Copy, PartialEq, Eq, Structural)]
pub enum ItemStatus {
    Passive,
    Active,
    NeedsAttention,
}

/// The tray host's own name for the status of a tracked item.
pub type TrayStatus = ItemStatus;

/// The status that an SNI `Status` property string stands for: the two
/// named non-default states, and `Active` for anything else.
pub open spec fn sni_status(s: Seq<char>) -> ItemStatus {
    if s == "Passive"@ {
        ItemStatus::Passive
    } else if s == "NeedsAttention"@ {
        ItemStatus::NeedsAttention
    } else {
        ItemStatus::Active
    }
}

/// The text of a status as clients see it: `"passive"`, `"active"` or
/// `"needs_attention"`.
pub open spec fn status_text(s: ItemStatus) -> Seq<char> {
    match s {
        ItemStatus::Passive => "passive"@,
        ItemStatus::Active => "active"@,
        ItemStatus::NeedsAttention => "needs_attention"@,
    }
}

impl ItemStatus {
    pub fn from_sni_str(s: &str) -> (r: Self)
        ensures
            r == sni_status(s@),
    {
        if str_eq(s, "Passive") {
            ItemStatus::Passive
        } else if str_eq(s, "NeedsAttention") {
            ItemStatus::NeedsAttention
        } else {
            ItemStatus::Active
        }
    }

    /// The display text of the status (`"passive"`, `"active"`,
    /// `"needs_attention"`).
    pub fn to_string(&self) -> (r: String)
        ensures
            r@ == status_text(*self),
    {
        match self {
            ItemStatus::Passive => "passive".to_owned(),
            ItemStatus::Active => "active".to_owned(),
            ItemStatus::NeedsAttention => "needs_attention".to_owned(),
        }
    }
}

impl Default for ItemStatus {
    fn default() -> (r: Self)
        ensures
            r == ItemStatus::Active,
    {
        ItemStatus::Active
    }
}

// ── Tracked item (host state) ─────────────────────────────────────────────────

/// Icon reference of an item: a theme icon name, empty when the item gave none.
#[derive(Debug)]
pub struct IconData {
    pub name: String,
}

impl Clone for IconData {
    fn clone(&self) -> (r: Self)
        ensures
            r == *self,
    {
        IconData { name: self.name.clone() }
    }
}

impl Default for IconData {
    fn default() -> (r: Self)
        ensures
            r.name@ == Seq::<char>::empty(),
    {
        IconData { name: String::new() }
    }
}

/// The handle that a client can use for an icon: its name, when it has one.
pub open spec fn icon_handle(icon: IconData) -> Option<Seq<char>> {
    if icon.name@.len() == 0 {
        None
    } else {
        Some(icon.name@)
    }
}

/// `None` for an empty string, the string itself otherwise.
pub open spec fn nonempty(s: Seq<char>) -> Option<Seq<char>> {
    if s.len() == 0 {
        None
    } else {
        Some(s)
    }
}

/// The view of an optional string as optional characters.
pub open spec fn opt_view(s: Option<String>) -> Option<Seq<char>> {
    match s {
        Some(t) => Some(t@),
        None => None,
    }
}

/// `None` for an empty string, a copy of it otherwise.
pub fn nonempty_string(s: &String) -> (r: Option<String>)
    ensures
        opt_view(r) == nonempty(s@),
{
    if s.as_str().is_empty() {
        None
    } else {
        Some(s.clone())
    }
}

impl IconData {
    pub fn as_handle(&self) -> (r: Option<String>)
        ensures
            opt_view(r) == icon_handle(*self),
    {
        nonempty_string(&self.name)
    }
}

/// Tool-tip text of an item.
#[derive(Debug)]
pub struct ToolTip {
    pub title: String,
    pub description: String,
}

impl Clone for ToolTip {
    fn clone(&self) -> (r: Self)
        ensures
            r == *self,
    {
        ToolTip { title: self.title.clone(), description: self.description.clone() }
    }
}

impl Default for ToolTip {
    fn default() -> (r: Self)
        ensures
            r.title@ == Seq::<char>::empty(),
            r.description@ == Seq::<char>::empty(),
    {
        ToolTip { title: String::new(), description: String::new() }
    }
}

/// An item as the tray host tracks it: where it lives on the bus and the
/// properties it last reported. Empty strings stand for absent properties.
#[derive(Debug)]
pub struct TrayItem {
    pub id: ItemId,
    pub bus_name: String,
    pub object_path: String,
    pub title: String,
    pub status: TrayStatus,
    pub icon: IconData,
    pub attention_icon: IconData,
    pub category: String,
    pub item_is_menu: bool,
    pub tool_tip: ToolTip,
    pub menu_path: String,
}

impl Clone for TrayItem {
    fn clone(&self) -> (r: Self)
        ensures
            r == *self,
    {
        TrayItem {
            id: self.id.clone(),
            bus_name: self.bus_name.clone(),
            object_path: self.object_path.clone(),
            title: self.title.clone(),
            status: self.status,
            icon: self.icon.clone(),
            attention_icon: self.attention_icon.clone(),
            category: self.category.clone(),
            item_is_menu: self.item_is_menu,
            tool_tip: self.tool_tip.clone(),
            menu_path: self.menu_path.clone(),
        }
    }
}

/// Whether `item` is the summary of the tracked item `t`: the same id and
/// status, and each absent (empty) property as `None`.
pub open spec fn is_summary_of(item: Item, t: TrayItem) -> bool {
    &&& item.id.0@ == t.id.0@
    &&& opt_view(item.title) == nonempty(t.title@)
    &&& item.status == t.status
    &&& item.has_attention_icon == (icon_handle(t.attention_icon) is Some)
    &&& opt_view(item.tooltip) == nonempty(t.tool_tip.title@)
    &&& opt_view(item.category) == nonempty(t.category@)
    &&& opt_view(item.icon_name) == icon_handle(t.icon)
}

impl TrayItem {
    /// The summary of this item: absent (empty) properties become `None`.
    pub fn to_item(&self) -> (r: Item)
        ensures
            is_summary_of(r, *self),
    {
        Item {
            id: ItemId(self.id.0.clone()),
            title: nonempty_string(&self.title),
            status: self.status,
            has_attention_icon: self.attention_icon.as_handle().is_some(),
            tooltip: nonempty_string(&self.tool_tip.title),
            category: nonempty_string(&self.category),
            icon_name: self.icon.as_handle(),
        }
    }
}

// ── Pixmap ────────────────────────────────────────────────────────────────────

/// Raw pixmap returned by the tray host.
#[derive(Debug, Clone)]
pub struct Pixmap {
    pub format: PixmapFormat,
    pub width: u32,
    pub height: u32,
    /// Raw pixel bytes in the declared format.
    pub data: Vec<u8>,
}

/// Pixel encoding for [`Pixmap`].
#[derive(Debug, Clone, Copy, PartialEq, Eq, Structural)]
pub enum PixmapFormat {
    /// 32-bit ARGB, big-endian, row-major (native SNI wire format).
    Argb32,
}

// ── Menu ──────────────────────────────────────────────────────────────────────

/// One node of a DBusMenu layout, as parsed from the bus.
#[derive(Debug, Clone)]
pub struct MenuNode {
    pub id: i32,
    pub label: Option<String>,
    pub enabled: bool,
    pub visible: bool,
    pub is_separator: bool,
    /// `"submenu"` when the node has nested children; `None` for leaf nodes.
    pub children_display: Option<String>,
}

// ── Events ────────────────────────────────────────────────────────────────────

/// Events broadcast by the tray host to all subscribers.
#[derive(Debug, Clone)]
pub enum HostEvent {
    ItemAdded(Item),
    ItemRemoved(ItemId),
    ItemUpdated(Item),
    MenuChanged(ItemId),
}

// ── Scroll direction ──────────────────────────────────────────────────────────

#[derive(Debug, Clone, Copy, PartialEq, Eq, Structural)]
pub enum ScrollDirection {
    Up,
    Down,
    Left,
    Right,
}

} // verus!
