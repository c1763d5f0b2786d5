//! DBusMenu (`com.canonical.dbusmenu`) layout parsing.
//!
//! A `GetLayout` reply carries each child node as a variant-wrapped D-Bus
//! struct `(i32, a{sv}, av)`. The values are held here as [`DbusValue`], the
//! part of the D-Bus value model that the parser reads.

use vstd::prelude::*;

use crate::model::MenuNode;
use crate::text::str_eq;

verus! {

/// A D-Bus value, as far as the menu parser reads it. Values of any other
/// D-Bus type are `Other`.
#[derive(Debug)]
pub enum DbusValue {
    I32(i32),
    Bool(bool),
    Str(String),
    /// A struct with its fields in order.
    Structure(Vec<DbusValue>),
    /// A dictionary with its entries in wire order.
    Dict(Vec<DictEntry>),
    /// A variant (`v`) wrapping one value.
    Variant(Box<DbusValue>),
    Other,
}

/// One entry of a D-Bus dictionary.
#[derive(Debug)]
pub struct DictEntry {
    pub key: DbusValue,
    pub value: DbusValue,
    /// Whether the bus library could take the entry's value (with one variant
    /// layer removed) into an owned value; entries it could not are skipped.
    pub ownable: bool,
}

/// A menu node as plain values.
pub struct MenuNodeView {
    pub id: i32,
    pub label: Option<Seq<char>>,
    pub enabled: bool,
    pub visible: bool,
    pub is_separator: bool,
    pub children_display: Option<Seq<char>>,
}

pub open spec fn opt_string_view(s: Option<String>) -> Option<Seq<char>> {
    match s {
        Some(t) => Some(t@),
        None => None,
    }
}

impl View for MenuNode {
    type V = MenuNodeView;

    open spec fn view(&self) -> MenuNodeView {
        MenuNodeView {
            id: self.id,
            label: opt_string_view(self.label),
            enabled: self.enabled,
            visible: self.visible,
            is_separator: self.is_separator,
            children_display: opt_string_view(self.children_display),
        }
    }
}

/// The value with one variant layer removed, if it has one.
pub open spec fn peel(v: DbusValue) -> DbusValue {
    match v {
        DbusValue::Variant(inner) => *inner,
        other => other,
    }
}

/// The property `key` of a dictionary: the (peeled) value of the last
/// ownable entry whose key is the string `key`, as a map built by inserting
/// the entries in order would hold it.
pub open spec fn dict_lookup(entries: Seq<DictEntry>, key: Seq<char>) -> Option<DbusValue>
    decreases entries.len(),
{
    if entries.len() == 0 {
        None
    } else {
        let e = entries.last();
        if e.ownable && (e.key matches DbusValue::Str(k) && k@ == key) {
            Some(peel(e.value))
        } else {
            dict_lookup(entries.drop_last(), key)
        }
    }
}

/// A string property, or `None` when absent or not a string.
pub open spec fn prop_str_spec(entries: Seq<DictEntry>, key: Seq<char>) -> Option<Seq<char>> {
    match dict_lookup(entries, key) {
        Some(DbusValue::Str(s)) => Some(s@),
        _ => None,
    }
}

/// A boolean property, or `default` when absent or not a boolean.
pub open spec fn prop_bool_spec(entries: Seq<DictEntry>, key: Seq<char>, default: bool) -> bool {
    match dict_lookup(entries, key) {
        Some(DbusValue::Bool(b)) => b,
        _ => default,
    }
}

/// The properties dictionary of a node struct's second field (none when it
/// is not a dictionary).
pub open spec fn node_props(field: DbusValue) -> Seq<DictEntry> {
    match field {
        DbusValue::Dict(d) => d@,
        _ => Seq::empty(),
    }
}

/// The menu node that one element of a layout's children array stands for:
/// a (possibly variant-wrapped) struct of at least two fields whose first
/// field is an `i32` id and whose second holds the properties.
pub open spec fn parse_node_spec(ov: DbusValue) -> Option<MenuNodeView> {
    match peel(ov) {
        DbusValue::Structure(fields) => {
            if fields@.len() < 2 {
                None
            } else {
                match fields@[0] {
                    DbusValue::I32(id) => {
                        let props = node_props(fields@[1]);
                        Some(
                            MenuNodeView {
                                id,
                                label: prop_str_spec(props, "label"@),
                                enabled: prop_bool_spec(props, "enabled"@, true),
                                visible: prop_bool_spec(props, "visible"@, true),
                                is_separator: prop_str_spec(props, "type"@) == Some("separator"@),
                                children_display: prop_str_spec(props, "children-display"@),
                            },
                        )
                    },
                    _ => None,
                }
            }
        },
        _ => None,
    }
}

/// The nodes of a children array, skipping elements that are not nodes.
pub open spec fn parse_children_spec(children: Seq<DbusValue>) -> Seq<MenuNodeView>
    decreases children.len(),
{
    if children.len() == 0 {
        Seq::empty()
    } else {
        let rest = parse_children_spec(children.drop_last());
        match parse_node_spec(children.last()) {
            Some(n) => rest.push(n),
            None => rest,
        }
    }
}

fn peel_exec(v: &DbusValue) -> (r: &DbusValue)
    ensures
        *r == peel(*v),
{
    match v {
        DbusValue::Variant(inner) => &**inner,
        other => other,
    }
}

/// Look up property `key`: the last ownable entry with that string key.
fn lookup<'a>(entries: &'a Vec<DictEntry>, key: &str) -> (r: Option<&'a DbusValue>)
    ensures
        match r {
            Some(v) => dict_lookup(entries@, key@) == Some(*v),
            None => dict_lookup(entries@, key@) is None,
        },
{
    let mut i: usize = entries.len();
    assert(entries@.take(i as int) =~= entries@);
    while i > 0
        invariant
            i <= entries@.len(),
            dict_lookup(entries@, key@) == dict_lookup(entries@.take(i as int), key@),
        decreases i,
    {
        let e = &entries[i - 1];
        assert(entries@.take(i as int).last() == *e);
        assert(entries@.take(i as int).drop_last() =~= entries@.take(i - 1));
        let matches = match &e.key {
            DbusValue::Str(k) => e.ownable && str_eq(k.as_str(), key),
            _ => false,
        };
        if matches {
            return Some(peel_exec(&e.value));
        }
        i = i - 1;
    }
    None
}

fn prop_str<'a>(entries: &'a Vec<DictEntry>, key: &str) -> (r: Option<&'a String>)
    ensures
        match r {
            Some(s) => prop_str_spec(entries@, key@) == Some(s@),
            None => prop_str_spec(entries@, key@) is None,
        },
{
    match lookup(entries, key) {
        Some(DbusValue::Str(s)) => Some(s),
        _ => None,
    }
}

fn prop_bool(entries: &Vec<DictEntry>, key: &str, default: bool) -> (r: bool)
    ensures
        r == prop_bool_spec(entries@, key@, default),
{
    match lookup(entries, key) {
        Some(DbusValue::Bool(b)) => *b,
        _ => default,
    }
}

fn copy_opt(s: Option<&String>) -> (r: Option<String>)
    ensures
        opt_string_view(r) == match s {
            Some(t) => Some(t@),
            None => None::<Seq<char>>,
        },
{
    match s {
        Some(t) => Some(t.clone()),
        None => None,
    }
}

/// Parse one element of a layout's children array into a [`MenuNode`].
pub fn parse_node(ov: &DbusValue) -> (r: Option<MenuNode>)
    ensures
        match r {
            Some(n) => parse_node_spec(*ov) == Some(n@),
            None => parse_node_spec(*ov) is None,
        },
{
    let val = peel_exec(ov);
    let fields = match val {
        DbusValue::Structure(s) => s,
        _ => return None,
    };
    if fields.len() < 2 {
        return None;
    }
    let id = match &fields[0] {
        DbusValue::I32(i) => *i,
        _ => return None,
    };
    let empty: Vec<DictEntry> = Vec::new();
    let props: &Vec<DictEntry> = match &fields[1] {
        DbusValue::Dict(d) => d,
        _ => &empty,
    };
    assert(props@ == node_props(fields@[1]));
    let label = copy_opt(prop_str(props, "label"));
    let enabled = prop_bool(props, "enabled", true);
    let visible = prop_bool(props, "visible", true);
    let is_separator = match prop_str(props, "type") {
        Some(t) => str_eq(t.as_str(), "separator"),
        None => false,
    };
    let children_display = copy_opt(prop_str(props, "children-display"));
    Some(MenuNode { id, label, enabled, visible, is_separator, children_display })
}

/// The direct children of a `GetLayout` reply as menu nodes, in order,
/// skipping elements that do not parse.
pub fn parse_layout_children(children: &Vec<DbusValue>) -> (r: Vec<MenuNode>)
    ensures
        r@.map_values(|n: MenuNode| n@) == parse_children_spec(children@),
{
    let mut out: Vec<MenuNode> = Vec::new();
    let mut i: usize = 0;
    assert(children@.take(0) =~= Seq::<DbusValue>::empty());
    assert(out@.map_values(|n: MenuNode| n@) =~= Seq::<MenuNodeView>::empty());
    while i < children.len()
        invariant
            i <= children@.len(),
            out@.map_values(|n: MenuNode| n@) == parse_children_spec(children@.take(i as int)),
        decreases children.len() - i,
    {
        let ghost before = out@;
        assert(children@.take(i + 1).drop_last() =~= children@.take(i as int));
        assert(children@.take(i + 1).last() == children@[i as int]);
        match parse_node(&children[i]) {
            Some(n) => {
                out.push(n);
                assert(out@.map_values(|n: MenuNode| n@) =~= before.map_values(|n: MenuNode| n@).push(n@));
            },
            None => {},
        }
        i = i + 1;
    }
    assert(children@.take(children@.len() as int) =~= children@);
    out
}

/// Whether entry `i` is the one that sets property `key`: an ownable entry
/// whose key is the string `key`, with no such entry after it.
pub open spec fn sets_property(entries: Seq<DictEntry>, key: Seq<char>, i: int) -> bool {
    &&& 0 <= i < entries.len()
    &&& entries[i].ownable
    &&& entries[i].key matches DbusValue::Str(k) && k@ == key
    &&& forall|j: int|
        #![trigger entries[j]]
        i < j < entries.len() ==> !(entries[j].ownable && (entries[j].key matches DbusValue::Str(k) && k@ == key))
}

/// The last ownable entry with a key decides that property, and a property
/// no ownable entry names is absent.
pub proof fn lemma_last_entry_wins(entries: Seq<DictEntry>, key: Seq<char>, i: int)
    ensures
        sets_property(entries, key, i) ==> dict_lookup(entries, key) == Some(peel(entries[i].value)),
        (forall|j: int|
            #![trigger entries[j]]
            0 <= j < entries.len() ==> !(entries[j].ownable && (entries[j].key matches DbusValue::Str(k) && k@
                == key))) ==> dict_lookup(entries, key) is None,
    decreases entries.len(),
{
    if entries.len() > 0 {
        let rest = entries.drop_last();
        assert forall|j: int| 0 <= j < rest.len() implies #[trigger] rest[j] == entries[j] by {}
        lemma_last_entry_wins(rest, key, i);
        if sets_property(entries, key, i) && i < entries.len() - 1 {
            assert(rest[i] == entries[i]);
            assert forall|j: int| #![trigger rest[j]] i < j < rest.len() implies !(rest[j].ownable && (rest[j].key matches DbusValue::Str(k) && k@ == key)) by {
                assert(rest[j] == entries[j]);
            }
            assert(sets_property(rest, key, i));
            let e = entries[entries.len() - 1];
            assert(!(e.ownable && (e.key matches DbusValue::Str(k) && k@ == key)));
        }
        if forall|j: int|
            #![trigger entries[j]]
            0 <= j < entries.len() ==> !(entries[j].ownable && (entries[j].key matches DbusValue::Str(k) && k@
                == key)) {
            let e = entries[entries.len() - 1];
            assert(!(e.ownable && (e.key matches DbusValue::Str(k) && k@ == key)));
            assert forall|j: int| #![trigger rest[j]] 0 <= j < rest.len() implies !(rest[j].ownable && (rest[j].key matches DbusValue::Str(k) && k@ == key)) by {
                assert(rest[j] == entries[j]);
            }
        }
    }
}

/// A node reads its id from the struct's first field, and its `visible`,
/// `enabled` and `label` properties from the entries that set them: a
/// boolean `visible` of `b` gives a node with `visible == b` (so a hidden
/// entry stays hidden), likewise for `enabled`, and a string `label` gives
/// that label. Without a setting entry a node is visible and enabled.
pub proof fn lemma_node_properties(ov: DbusValue, vi: int, ei: int, li: int)
    requires
        peel(ov) matches DbusValue::Structure(fields) && fields@.len() >= 2 && fields@[0] is I32
            && fields@[1] is Dict,
    ensures
        ({
            let fields = peel(ov)->Structure_0@;
            let d = fields[1]->Dict_0@;
            let n = parse_node_spec(ov)->Some_0;
            &&& parse_node_spec(ov) is Some
            &&& n.id == fields[0]->I32_0
            &&& (sets_property(d, "visible"@, vi) && peel(d[vi].value) is Bool) ==> n.visible == peel(d[vi].value)->Bool_0
            &&& (sets_property(d, "enabled"@, ei) && peel(d[ei].value) is Bool) ==> n.enabled == peel(d[ei].value)->Bool_0
            &&& (sets_property(d, "label"@, li) && peel(d[li].value) is Str) ==> n.label == Some(peel(d[li].value)->Str_0@)
            &&& (forall|j: int| #![trigger d[j]] 0 <= j < d.len() ==> !(d[j].ownable && (d[j].key matches DbusValue::Str(k) && k@ == "visible"@))) ==> n.visible
            &&& (forall|j: int| #![trigger d[j]] 0 <= j < d.len() ==> !(d[j].ownable && (d[j].key matches DbusValue::Str(k) && k@ == "enabled"@))) ==> n.enabled
        }),
{
    let fields = peel(ov)->Structure_0@;
    let d = fields[1]->Dict_0@;
    assert(node_props(fields[1]) == d);
    lemma_last_entry_wins(d, "visible"@, vi);
    lemma_last_entry_wins(d, "enabled"@, ei);
    lemma_last_entry_wins(d, "label"@, li);
}

/// A node struct without properties is an enabled, visible, unlabelled,
/// non-separator leaf carrying its id.
pub proof fn lemma_bare_node_defaults(ov: DbusValue)
    requires
        peel(ov) matches DbusValue::Structure(fields) && fields@.len() >= 2 && fields@[0] is I32
            && node_props(fields@[1]).len() == 0,
    ensures
        parse_node_spec(ov) matches Some(n) && n.id == peel(ov)->Structure_0@[0]->I32_0 && n.label
            is None && n.enabled && n.visible && !n.is_separator && n.children_display is None,
{
}

} // verus!
