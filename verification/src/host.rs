//! The tray host's in-memory item state.
//!
//! Tracked items are keyed by their [`ItemId`]; the state keeps them in the
//! order in which their keys were first inserted.

use vstd::prelude::*;

use crate::error::TraydError;
use crate::model::{id_views, is_summary_of, Item, ItemId, TrayItem};
use crate::text::str_eq;

verus! {

/// Items tracked by the tray host.
pub struct HostState {
    entries: Vec<(ItemId, TrayItem)>,
}

impl HostState {
    /// The keys, in order.
    pub closed spec fn keys(&self) -> Seq<Seq<char>> {
        self.entries@.map_values(|e: (ItemId, TrayItem)| e.0.0@)
    }

    /// The tracked items, in the order of their keys.
    pub closed spec fn values(&self) -> Seq<TrayItem> {
        self.entries@.map_values(|e: (ItemId, TrayItem)| e.1)
    }

    #[verifier::type_invariant]
    closed spec fn inv(&self) -> bool {
        self.keys().no_duplicates()
    }
}

impl View for HostState {
    type V = Map<Seq<char>, TrayItem>;

    /// Each key maps to the item stored under it.
    closed spec fn view(&self) -> Map<Seq<char>, TrayItem> {
        Map::new(
            |k: Seq<char>| self.keys().contains(k),
            |k: Seq<char>| self.values()[self.keys().index_of(k)],
        )
    }
}

/// In a sequence without duplicates, the index of an element is its position.
proof fn lemma_index_of_unique(s: Seq<Seq<char>>, i: int)
    requires
        s.no_duplicates(),
        0 <= i < s.len(),
    ensures
        s.index_of(s[i]) == i,
        s.contains(s[i]),
{
    assert(s.contains(s[i]));
}

impl HostState {
    /// The map view agrees with the ordered keys and values: its keys are
    /// the listed keys, and the i-th key maps to the i-th value.
    pub proof fn lemma_view_entries(&self)
        requires
            self.keys().no_duplicates(),
        ensures
            self@.dom() == self.keys().to_set(),
            self@.len() == self.keys().len(),
            self.values().len() == self.keys().len(),
            forall|i: int| 0 <= i < self.keys().len() ==> #[trigger] self@[self.keys()[i]] == self.values()[i],
    {
        assert(self@.dom() =~= self.keys().to_set());
        self.keys().unique_seq_to_set();
        assert forall|i: int| 0 <= i < self.keys().len() implies #[trigger] self@[self.keys()[i]] == self.values()[i] by {
            lemma_index_of_unique(self.keys(), i);
        }
    }

    /// A state with no items.
    pub fn new() -> (r: Self)
        ensures
            r.keys() == Seq::<Seq<char>>::empty(),
            r.values() == Seq::<TrayItem>::empty(),
            r.keys().no_duplicates(),
            r@ == Map::<Seq<char>, TrayItem>::empty(),
    {
        let r = HostState { entries: Vec::new() };
        assert(r.keys() =~= Seq::<Seq<char>>::empty());
        assert(r.values() =~= Seq::<TrayItem>::empty());
        assert(r@ =~= Map::<Seq<char>, TrayItem>::empty());
        r
    }

    /// Position of the entry whose key is `key`.
    fn find(&self, key: &str) -> (r: Option<usize>)
        ensures
            match r {
                Some(i) => i < self.keys().len() && self.keys()[i as int] == key@,
                None => !self.keys().contains(key@),
            },
    {
        let mut i: usize = 0;
        while i < self.entries.len()
            invariant
                i <= self.entries@.len(),
                forall|j: int| 0 <= j < i ==> self.keys()[j] != key@,
            decreases self.entries.len() - i,
        {
            if str_eq(self.entries[i].0.0.as_str(), key) {
                return Some(i);
            }
            i = i + 1;
        }
        proof {
            if self.keys().contains(key@) {
                let j = choose|j: int| 0 <= j < self.keys().len() && self.keys()[j] == key@;
                assert(self.keys()[j] != key@);
            }
        }
        None
    }

    /// Number of tracked items.
    pub fn len(&self) -> (r: usize)
        ensures
            r == self.keys().len(),
            r == self@.len(),
    {
        proof {
            use_type_invariant(self);
            self.lemma_view_entries();
        }
        self.entries.len()
    }

    /// Whether an item is tracked under `key`.
    pub fn contains_key(&self, key: &ItemId) -> (r: bool)
        ensures
            r == self@.contains_key(key.0@),
    {
        self.find(key.0.as_str()).is_some()
    }

    /// The item tracked under `key`.
    pub fn get(&self, key: &ItemId) -> (r: Option<&TrayItem>)
        ensures
            match r {
                Some(v) => self@.contains_key(key.0@) && self@[key.0@] == *v,
                None => !self@.contains_key(key.0@),
            },
    {
        proof {
            use_type_invariant(self);
            self.lemma_view_entries();
        }
        match self.find(key.0.as_str()) {
            Some(i) => {
                assert(self.values()[i as int] == self.entries@[i as int].1);
                Some(&self.entries[i].1)
            },
            None => None,
        }
    }

    /// Track `item` under `key`, returning the item it replaces.
    ///
    /// A new key goes after the existing ones; an existing key keeps its place.
    pub fn insert(&mut self, key: ItemId, item: TrayItem) -> (r: Option<TrayItem>)
        ensures
            final(self)@ == old(self)@.insert(key.0@, item),
            final(self).keys().no_duplicates(),
            match r {
                Some(v) => old(self)@.contains_key(key.0@) && old(self)@[key.0@] == v,
                None => !old(self)@.contains_key(key.0@),
            },
            old(self).keys().contains(key.0@) ==> final(self).keys() == old(self).keys()
                && final(self).values() == old(self).values().update(
                old(self).keys().index_of(key.0@),
                item,
            ),
            !old(self).keys().contains(key.0@) ==> final(self).keys() == old(self).keys().push(key.0@)
                && final(self).values() == old(self).values().push(item),
    {
        proof {
            use_type_invariant(&*self);
            self.lemma_view_entries();
        }
        let ghost k = key.0@;
        let ghost old_keys = self.keys();
        let ghost old_values = self.values();
        let ghost old_view = self@;
        match self.find(key.0.as_str()) {
            Some(i) => {
                proof {
                    lemma_index_of_unique(old_keys, i as int);
                }
                let old_item = self.entries[i].1.clone();
                let mut es: Vec<(ItemId, TrayItem)> = Vec::new();
                std::mem::swap(&mut es, &mut self.entries);
                es.set(i, (key, item));
                proof {
                    let ks = es@.map_values(|e: (ItemId, TrayItem)| e.0.0@);
                    assert(ks =~= old_keys);
                }
                self.entries = es;
                assert(self.keys() =~= old_keys);
                assert(self.values() =~= old_values.update(i as int, item));
                proof {
                    assert forall|kk: Seq<char>| #[trigger] self@.contains_key(kk) implies self@[kk] == old_view.insert(k, item)[kk] by {
                        let j = self.keys().index_of(kk);
                        assert(self.keys().contains(kk));
                        if kk == k {
                            lemma_index_of_unique(old_keys, i as int);
                        }
                    }
                    assert(self@ =~= old_view.insert(k, item));
                }
                Some(old_item)
            },
            None => {
                let mut es: Vec<(ItemId, TrayItem)> = Vec::new();
                std::mem::swap(&mut es, &mut self.entries);
                es.push((key, item));
                proof {
                    let ks = es@.map_values(|e: (ItemId, TrayItem)| e.0.0@);
                    assert(ks =~= old_keys.push(k));
                    assert(ks.no_duplicates()) by {
                        assert forall|a: int, b: int| 0 <= a < ks.len() && 0 <= b < ks.len() && a != b implies ks[a] != ks[b] by {
                            if a == old_keys.len() as int {
                                assert(old_keys[b] == ks[b]);
                            } else if b == old_keys.len() as int {
                                assert(old_keys[a] == ks[a]);
                            }
                        }
                    }
                }
                self.entries = es;
                assert(self.keys() =~= old_keys.push(k));
                assert(self.values() =~= old_values.push(item));
                proof {
                    assert forall|kk: Seq<char>| self.keys().contains(kk) <==> (old_keys.contains(kk) || kk == k) by {
                        if old_keys.contains(kk) {
                            let a = choose|a: int| 0 <= a < old_keys.len() && old_keys[a] == kk;
                            assert(self.keys()[a] == kk);
                        }
                        if kk == k {
                            assert(self.keys()[old_keys.len() as int] == kk);
                        }
                        if self.keys().contains(kk) && kk != k {
                            let a = choose|a: int| 0 <= a < self.keys().len() && self.keys()[a] == kk;
                            assert(a != old_keys.len() as int);
                            assert(old_keys[a] == kk);
                        }
                    }
                    assert forall|kk: Seq<char>| #[trigger] self@.contains_key(kk) implies self@[kk] == old_view.insert(k, item)[kk] by {
                        let j = self.keys().index_of(kk);
                        assert(self.keys().contains(kk));
                        if kk == k {
                            lemma_index_of_unique(self.keys(), old_keys.len() as int);
                        } else {
                            let oj = old_keys.index_of(kk);
                            assert(old_keys.contains(kk)) by {
                                assert(self.keys()[j] == kk);
                                assert(j != old_keys.len() as int);
                            }
                            lemma_index_of_unique(self.keys(), oj);
                        }
                    }
                    assert(self@ =~= old_view.insert(k, item));
                }
                None
            },
        }
    }

    /// Stop tracking `key`, returning the item it held. The other items keep
    /// their order.
    pub fn remove(&mut self, key: &ItemId) -> (r: Option<TrayItem>)
        ensures
            final(self)@ == old(self)@.remove(key.0@),
            final(self).keys().no_duplicates(),
            match r {
                Some(v) => old(self)@.contains_key(key.0@) && old(self)@[key.0@] == v,
                None => !old(self)@.contains_key(key.0@),
            },
            old(self).keys().contains(key.0@) ==> final(self).keys() == old(self).keys().remove(
                old(self).keys().index_of(key.0@),
            ) && final(self).values() == old(self).values().remove(old(self).keys().index_of(key.0@)),
            !old(self).keys().contains(key.0@) ==> final(self).keys() == old(self).keys()
                && final(self).values() == old(self).values(),
    {
        proof {
            use_type_invariant(&*self);
            self.lemma_view_entries();
        }
        let ghost k = key.0@;
        let ghost old_keys = self.keys();
        let ghost old_values = self.values();
        let ghost old_view = self@;
        match self.find(key.0.as_str()) {
            Some(i) => {
                proof {
                    lemma_index_of_unique(old_keys, i as int);
                }
                let mut es: Vec<(ItemId, TrayItem)> = Vec::new();
                std::mem::swap(&mut es, &mut self.entries);
                let e = es.remove(i);
                proof {
                    let ks = es@.map_values(|e: (ItemId, TrayItem)| e.0.0@);
                    assert(ks =~= old_keys.remove(i as int));
                    assert(ks.no_duplicates()) by {
                        assert forall|a: int, b: int| 0 <= a < ks.len() && 0 <= b < ks.len() && a != b implies ks[a] != ks[b] by {
                            let oa = if a < i as int { a } else { a + 1 };
                            let ob = if b < i as int { b } else { b + 1 };
                            assert(ks[a] == old_keys[oa]);
                            assert(ks[b] == old_keys[ob]);
                        }
                    }
                }
                self.entries = es;
                assert(self.keys() =~= old_keys.remove(i as int));
                assert(self.values() =~= old_values.remove(i as int));
                proof {
                    assert forall|kk: Seq<char>| self@.contains_key(kk) <==> old_view.remove(k).contains_key(kk) by {
                        if self.keys().contains(kk) {
                            let a = choose|a: int| 0 <= a < self.keys().len() && self.keys()[a] == kk;
                            let oa = if a < i as int { a } else { a + 1 };
                            assert(old_keys[oa] == kk);
                            assert(old_keys.contains(kk));
                            assert(kk != k);
                        }
                        if old_keys.contains(kk) && kk != k {
                            let oa = choose|oa: int| 0 <= oa < old_keys.len() && old_keys[oa] == kk;
                            assert(oa != i as int);
                            let a = if oa < i as int { oa } else { oa - 1 };
                            assert(self.keys()[a] == kk);
                        }
                    }
                    assert forall|kk: Seq<char>| #[trigger] self@.contains_key(kk) implies self@[kk] == old_view.remove(k)[kk] by {
                        let a = self.keys().index_of(kk);
                        assert(self.keys().contains(kk));
                        let oa = if a < i as int { a } else { a + 1 };
                        assert(old_keys[oa] == kk);
                        lemma_index_of_unique(old_keys, oa);
                    }
                    assert(self@ =~= old_view.remove(k));
                }
                Some(e.1)
            },
            None => {
                assert(old_view.remove(k) =~= old_view);
                None
            },
        }
    }

    /// Copies of the tracked items, in order.
    pub fn items(&self) -> (r: Vec<TrayItem>)
        ensures
            r@ == self.values(),
            self.keys().no_duplicates(),
            r@.len() == self.keys().len(),
            forall|i: int| 0 <= i < r@.len() ==> self@[#[trigger] self.keys()[i]] == r@[i],
    {
        proof {
            use_type_invariant(self);
            self.lemma_view_entries();
        }
        let mut out: Vec<TrayItem> = Vec::new();
        let mut i: usize = 0;
        while i < self.entries.len()
            invariant
                i <= self.entries@.len(),
                out@ == self.values().take(i as int),
            decreases self.entries.len() - i,
        {
            out.push(self.entries[i].1.clone());
            assert(out@ =~= self.values().take(i + 1));
            i = i + 1;
        }
        assert(self.values().take(self.entries@.len() as int) =~= self.values());
        out
    }

    /// The keys of all tracked items, in order.
    pub fn item_ids(&self) -> (r: Vec<ItemId>)
        ensures
            r@.map_values(|id: ItemId| id.0@) == self.keys(),
    {
        let mut out: Vec<ItemId> = Vec::new();
        let mut i: usize = 0;
        while i < self.entries.len()
            invariant
                i <= self.entries@.len(),
                out@.map_values(|id: ItemId| id.0@) == self.keys().take(i as int),
            decreases self.entries.len() - i,
        {
            let ghost before = out@;
            let id = self.entries[i].0.clone();
            assert(id.0@ == self.keys()[i as int]);
            out.push(id);
            assert(out@ == before.push(id));
            assert(out@.map_values(|id: ItemId| id.0@) =~= before.map_values(|id: ItemId| id.0@).push(id.0@));
            assert(out@.map_values(|id: ItemId| id.0@) =~= self.keys().take(i + 1));
            i = i + 1;
        }
        assert(self.keys().take(self.entries@.len() as int) =~= self.keys());
        out
    }

    /// Summaries of all tracked items, in order.
    pub fn list(&self) -> (r: Vec<Item>)
        ensures
            r@.len() == self.values().len(),
            forall|i: int| 0 <= i < r@.len() ==> is_summary_of(#[trigger] r@[i], self.values()[i]),
    {
        let mut out: Vec<Item> = Vec::new();
        let mut i: usize = 0;
        while i < self.entries.len()
            invariant
                i <= self.entries@.len(),
                out@.len() == i,
                forall|j: int| 0 <= j < i ==> is_summary_of(#[trigger] out@[j], self.values()[j]),
            decreases self.entries.len() - i,
        {
            out.push(self.entries[i].1.to_item());
            i = i + 1;
        }
        out
    }

    /// The keys of the items served by bus name `bus`: the items that go away
    /// when that name leaves the bus. Each such key occurs once.
    pub fn ids_on_bus(&self, bus: &str) -> (r: Vec<ItemId>)
        ensures
            forall|k: Seq<char>| id_views(r@).contains(k) <==> (self@.contains_key(k) && self@[k].bus_name@ == bus@),
            id_views(r@).no_duplicates(),
    {
        proof {
            use_type_invariant(self);
            self.lemma_view_entries();
        }
        let mut out: Vec<ItemId> = Vec::new();
        let mut i: usize = 0;
        while i < self.entries.len()
            invariant
                i <= self.entries@.len(),
                self.keys().no_duplicates(),
                self.keys().len() == self.values().len(),
                forall|j: int| 0 <= j < self.keys().len() ==> #[trigger] self@[self.keys()[j]] == self.values()[j],
                self@.dom() == self.keys().to_set(),
                forall|k: Seq<char>| id_views(out@).contains(k) <==> exists|j: int| 0 <= j < i && self.keys()[j] == k && #[trigger] self.values()[j].bus_name@ == bus@,
                id_views(out@).no_duplicates(),
            decreases self.entries.len() - i,
        {
            let ghost before = id_views(out@);
            if str_eq(self.entries[i].1.bus_name.as_str(), bus) {
                let id = self.entries[i].0.clone();
                assert(id.0@ == self.keys()[i as int]);
                assert(!before.contains(id.0@)) by {
                    if before.contains(id.0@) {
                        let j = choose|j: int| 0 <= j < i && self.keys()[j] == id.0@ && #[trigger] self.values()[j].bus_name@ == bus@;
                        assert(self.keys()[j] == self.keys()[i as int]);
                    }
                }
                out.push(id);
                assert(id_views(out@) =~= before.push(id.0@));
                assert(self.values()[i as int].bus_name@ == bus@);
                assert forall|k: Seq<char>| id_views(out@).contains(k) <==> exists|j: int| 0 <= j < i + 1 && self.keys()[j] == k && #[trigger] self.values()[j].bus_name@ == bus@ by {
                    let ov = id_views(out@);
                    if ov.contains(k) {
                        if k == id.0@ {
                            assert(self.keys()[i as int] == k && self.values()[i as int].bus_name@ == bus@);
                        } else {
                            let a = choose|a: int| 0 <= a < ov.len() && ov[a] == k;
                            assert(a < before.len());
                            assert(before[a] == k);
                            assert(before.contains(k));
                        }
                    }
                    if exists|j: int| 0 <= j < i + 1 && self.keys()[j] == k && #[trigger] self.values()[j].bus_name@ == bus@ {
                        let j = choose|j: int| 0 <= j < i + 1 && self.keys()[j] == k && #[trigger] self.values()[j].bus_name@ == bus@;
                        if j < i {
                            assert(before.contains(k));
                            let a = choose|a: int| 0 <= a < before.len() && before[a] == k;
                            assert(ov[a] == k);
                        } else {
                            assert(ov[before.len() as int] == k);
                        }
                    }
                }
            } else {
                assert forall|k: Seq<char>| id_views(out@).contains(k) <==> exists|j: int| 0 <= j < i + 1 && self.keys()[j] == k && #[trigger] self.values()[j].bus_name@ == bus@ by {
                    if exists|j: int| 0 <= j < i + 1 && self.keys()[j] == k && #[trigger] self.values()[j].bus_name@ == bus@ {
                        let j = choose|j: int| 0 <= j < i + 1 && self.keys()[j] == k && #[trigger] self.values()[j].bus_name@ == bus@;
                        assert(j != i as int);
                    }
                }
            }
            i = i + 1;
        }
        assert forall|k: Seq<char>| id_views(out@).contains(k) <==> (self@.contains_key(k) && self@[k].bus_name@ == bus@) by {
            if self@.contains_key(k) && self@[k].bus_name@ == bus@ {
                assert(self.keys().to_set().contains(k));
                let j = choose|j: int| 0 <= j < self.keys().len() && self.keys()[j] == k;
                assert(self@[self.keys()[j]] == self.values()[j]);
            }
            if id_views(out@).contains(k) {
                let j = choose|j: int| 0 <= j < i && self.keys()[j] == k && #[trigger] self.values()[j].bus_name@ == bus@;
                assert(self@[self.keys()[j]] == self.values()[j]);
                assert(self.keys().to_set().contains(k));
            }
        }
        out
    }

    /// The bus name and object path of the item tracked under `item_id`.
    pub fn resolve(&self, item_id: &str) -> (r: Result<(String, String), TraydError>)
        ensures
            match r {
                Ok((service, path)) => self@.contains_key(item_id@) && service@
                    == self@[item_id@].bus_name@ && path@ == self@[item_id@].object_path@,
                Err(e) => !self@.contains_key(item_id@) && (e matches TraydError::NotFound(m)
                    && m@ == item_id@),
            },
    {
        proof {
            use_type_invariant(self);
            self.lemma_view_entries();
        }
        match self.find(item_id) {
            Some(i) => {
                let t = &self.entries[i].1;
                assert(self.values()[i as int] == *t);
                Ok((t.bus_name.clone(), t.object_path.clone()))
            },
            None => Err(TraydError::NotFound(item_id.to_owned())),
        }
    }

    /// The bus name and DBusMenu object path of the item tracked under
    /// `item_id`; an item that exported no menu has none.
    pub fn resolve_menu(&self, item_id: &str) -> (r: Result<(String, String), TraydError>)
        ensures
            match r {
                Ok((service, path)) => self@.contains_key(item_id@) && service@
                    == self@[item_id@].bus_name@ && path@ == self@[item_id@].menu_path@
                    && path@.len() > 0,
                Err(e) => if self@.contains_key(item_id@) {
                    self@[item_id@].menu_path@.len() == 0 && (e matches TraydError::NoMenu(m)
                        && m@ == item_id@)
                } else {
                    e matches TraydError::NotFound(m) && m@ == item_id@
                },
            },
    {
        proof {
            use_type_invariant(self);
            self.lemma_view_entries();
        }
        match self.find(item_id) {
            Some(i) => {
                let t = &self.entries[i].1;
                assert(self.values()[i as int] == *t);
                if t.menu_path.as_str().is_empty() {
                    Err(TraydError::NoMenu(item_id.to_owned()))
                } else {
                    Ok((t.bus_name.clone(), t.menu_path.clone()))
                }
            },
            None => Err(TraydError::NotFound(item_id.to_owned())),
        }
    }
}

/// Storing an item and then reading its key gives the item back, other
/// keys keep what they held, and after removing a key it is absent while the
/// other keys are untouched; removing a key that was just added restores
/// the state from before.
pub proof fn lemma_read_after_write(
    m: Map<Seq<char>, TrayItem>,
    k: Seq<char>,
    v: TrayItem,
    other: Seq<char>,
)
    requires
        other != k,
    ensures
        m.insert(k, v).contains_key(k),
        m.insert(k, v)[k] == v,
        m.insert(k, v).contains_key(other) == m.contains_key(other),
        m.contains_key(other) ==> m.insert(k, v)[other] == m[other],
        !m.remove(k).contains_key(k),
        m.remove(k).contains_key(other) == m.contains_key(other),
        m.contains_key(other) ==> m.remove(k)[other] == m[other],
        !m.contains_key(k) ==> m.insert(k, v).remove(k) == m,
{
    if !m.contains_key(k) {
        assert(m.insert(k, v).remove(k) =~= m);
    }
}

} // verus!
