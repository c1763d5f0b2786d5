//! Registration rules of the `org.kde.StatusNotifierWatcher` service.
//!
//! Apps call `RegisterStatusNotifierItem` on the watcher; the watcher keeps
//! the list of registered service ids and forwards each new registration to
//! the tray host.

use vstd::prelude::*;

use crate::text::str_chars;

verus! {

/// Default object path of a StatusNotifierItem.
pub open spec fn default_item_path() -> Seq<char> {
    "/StatusNotifierItem"@
}

/// Whether a registration string is an object path only.
pub open spec fn is_path_only(service: Seq<char>) -> bool {
    service.len() > 0 && service[0] == '/'
}

/// The `(bus_name, object_path)` that a raw SNI registration string names:
/// a path alone is served by the sender; `bus/path` splits at its first
/// slash; a plain bus name uses the default item path.
pub open spec fn service_location(sender: Seq<char>, service: Seq<char>) -> (Seq<char>, Seq<char>) {
    if is_path_only(service) {
        (sender, service)
    } else {
        match service.index_of_first('/') {
            Some(k) => (service.take(k), service.skip(k)),
            None => (service, default_item_path()),
        }
    }
}

/// Canonical id of a registration: sender + path when only a path was
/// given, else the raw service string.
pub open spec fn service_id(sender: Seq<char>, service: Seq<char>) -> Seq<char> {
    if is_path_only(service) {
        sender + service
    } else {
        service
    }
}

/// The id list after a registration: the id is appended unless present.
pub open spec fn registered_after(items: Seq<Seq<char>>, id: Seq<char>) -> Seq<Seq<char>> {
    if items.contains(id) {
        items
    } else {
        items.push(id)
    }
}

/// No id occurs twice.
pub open spec fn no_duplicates(items: Seq<Seq<char>>) -> bool {
    forall|i: int, j: int| 0 <= i < j < items.len() ==> items[i] != items[j]
}

/// Index of the first `'/'` in `chars`, if any.
fn first_slash(chars: &Vec<char>) -> (r: Option<usize>)
    ensures
        match r {
            Some(k) => chars@.index_of_first('/') == Some(k as int),
            None => chars@.index_of_first('/') is None,
        },
        r is Some ==> r->0 < chars@.len(),
{
    let mut i: usize = 0;
    while i < chars.len()
        invariant
            i <= chars@.len(),
            forall|j: int| 0 <= j < i ==> chars@[j] != '/',
        decreases chars.len() - i,
    {
        if chars[i] == '/' {
            proof {
                chars@.index_of_first_ensures('/');
                match chars@.index_of_first('/') {
                    Some(k) => {
                        assert(k == i as int) by {
                            if k < i as int {
                                assert(chars@[k] != '/');
                            } else if k > i as int {
                                assert(chars@[i as int] == '/');
                            }
                        }
                    },
                    None => {
                        assert(chars@.contains('/')) by {
                            assert(chars@[i as int] == '/');
                        }
                    },
                }
            }
            return Some(i);
        }
        i = i + 1;
    }
    proof {
        chars@.index_of_first_ensures('/');
        match chars@.index_of_first('/') {
            Some(k) => {
                assert(chars@[k] != '/');
            },
            None => {},
        }
    }
    None
}

/// Split a raw SNI service registration string into `(bus_name, object_path)`.
///
/// The SNI spec allows three forms:
///
/// | Input                            | bus_name            | object_path              |
/// |----------------------------------|---------------------|--------------------------|
/// | `"com.example.App"`              | `"com.example.App"` | `"/StatusNotifierItem"`  |
/// | `"/StatusNotifierItem"`          | `<sender>`          | `"/StatusNotifierItem"`  |
/// | `"com.example.App/SomePath"`     | `"com.example.App"` | `"/SomePath"`            |
pub fn parse_service(sender: &str, service: &str) -> (r: (String, String))
    ensures
        (r.0@, r.1@) == service_location(sender@, service@),
{
    let chars = str_chars(service);
    if chars.len() > 0 && chars[0] == '/' {
        (sender.to_owned(), service.to_owned())
    } else {
        match first_slash(&chars) {
            Some(k) => {
                let len = chars.len();
                let bus = service.substring_char(0, k).to_owned();
                let path = service.substring_char(k, len).to_owned();
                proof {
                    assert(service@.subrange(0, k as int) =~= service@.take(k as int));
                    assert(service@.subrange(k as int, len as int) =~= service@.skip(k as int));
                }
                (bus, path)
            },
            None => (service.to_owned(), "/StatusNotifierItem".to_owned()),
        }
    }
}

/// Rejoining what `parse_service` split from a `bus/path` registration gives
/// the registration back.
pub proof fn lemma_service_split_rejoins(sender: Seq<char>, service: Seq<char>)
    requires
        !is_path_only(service),
        service.contains('/'),
    ensures
        service_location(sender, service).0 + service_location(sender, service).1 == service,
        service_location(sender, service).1[0] == '/',
        !service_location(sender, service).0.contains('/'),
{
    service.index_of_first_ensures('/');
    let k = service.index_of_first('/')->0;
    assert(service.take(k) + service.skip(k) =~= service);
    assert forall|j: int| 0 <= j < service.take(k).len() implies service.take(k)[j] != '/' by {
        assert(service.take(k)[j] == service[j]);
    }
}

// ─── WatcherMsg ──────────────────────────────────────────────────────────────

/// Message sent from the watcher D-Bus object to the tray host loop.
#[derive(Debug)]
pub enum WatcherMsg {
    /// An app called `RegisterStatusNotifierItem`.
    ItemRegistered {
        /// Normalised service id stored in `RegisteredStatusNotifierItems`.
        service_id: String,
        /// Extracted D-Bus bus name.
        bus_name: String,
        /// Extracted D-Bus object path.
        object_path: String,
    },
}

// ─── Internal watcher state ──────────────────────────────────────────────────

/// Registered service ids, in registration order.
pub struct WatcherInner {
    pub items: Vec<String>,
}

impl WatcherInner {
    /// The registered ids as character sequences.
    pub open spec fn ids(&self) -> Seq<Seq<char>> {
        self.items@.map_values(|s: String| s@)
    }

    /// A watcher with nothing registered.
    pub fn new() -> (r: Self)
        ensures
            r.ids() == Seq::<Seq<char>>::empty(),
            no_duplicates(r.ids()),
    {
        let r = WatcherInner { items: Vec::new() };
        assert(r.ids() =~= Seq::<Seq<char>>::empty());
        r
    }

    /// Whether `id` is registered.
    pub fn contains(&self, id: &String) -> (r: bool)
        ensures
            r == self.ids().contains(id@),
    {
        let mut i: usize = 0;
        while i < self.items.len()
            invariant
                i <= self.items@.len(),
                forall|j: int| 0 <= j < i ==> self.ids()[j] != id@,
            decreases self.items.len() - i,
        {
            if self.items[i] == *id {
                assert(self.ids()[i as int] == id@);
                return true;
            }
            i = i + 1;
        }
        proof {
            if self.ids().contains(id@) {
                let j = choose|j: int| 0 <= j < self.ids().len() && self.ids()[j] == id@;
                assert(self.ids()[j] != id@);
            }
        }
        false
    }

    /// Record a `RegisterStatusNotifierItem(service)` call from `sender`.
    ///
    /// The canonical id is appended when new, and the registration to pass on
    /// to the host is returned; a repeated registration changes nothing and
    /// returns `None`.
    pub fn register_item(&mut self, sender: &str, service: &str) -> (msg: Option<WatcherMsg>)
        ensures
            final(self).ids() == registered_after(old(self).ids(), service_id(sender@, service@)),
            no_duplicates(old(self).ids()) ==> no_duplicates(final(self).ids()),
            msg is Some <==> !old(self).ids().contains(service_id(sender@, service@)),
            match msg {
                Some(WatcherMsg::ItemRegistered { service_id: id, bus_name, object_path }) => {
                    &&& id@ == service_id(sender@, service@)
                    &&& (bus_name@, object_path@) == service_location(sender@, service@)
                },
                None => true,
            },
    {
        let (bus_name, object_path) = parse_service(sender, service);
        let chars = str_chars(service);
        let service_id = if chars.len() > 0 && chars[0] == '/' {
            sender.to_owned().concat(service)
        } else {
            service.to_owned()
        };
        if !self.contains(&service_id) {
            let ghost old_ids = self.ids();
            self.items.push(service_id.clone());
            assert(self.ids() =~= old_ids.push(service_id@));
            proof {
                if no_duplicates(old_ids) {
                    lemma_register_idempotent(old_ids, service_id@);
                }
            }
            Some(WatcherMsg::ItemRegistered { service_id, bus_name, object_path })
        } else {
            None
        }
    }

    /// Drop a registered id (its service left the bus). Returns whether it
    /// was registered; the other ids keep their order.
    pub fn unregister(&mut self, id: &str) -> (r: bool)
        ensures
            r == old(self).ids().contains(id@),
            no_duplicates(old(self).ids()) ==> no_duplicates(final(self).ids()),
            r ==> final(self).ids() == old(self).ids().remove(old(self).ids().index_of_first(id@)->0),
            !r ==> final(self).ids() == old(self).ids(),
    {
        let mut i: usize = 0;
        while i < self.items.len()
            invariant
                i <= self.items@.len(),
                self.items@ == old(self).items@,
                forall|j: int| 0 <= j < i ==> self.ids()[j] != id@,
            decreases self.items.len() - i,
        {
            if crate::text::str_eq(self.items[i].as_str(), id) {
                let ghost old_ids = self.ids();
                proof {
                    old_ids.index_of_first_ensures(id@);
                    assert(old_ids[i as int] == id@);
                    let k = old_ids.index_of_first(id@)->0;
                    assert(k == i as int) by {
                        if k < i as int {
                            assert(old_ids[k] != id@);
                        } else if k > i as int {
                            assert(old_ids[i as int] == id@);
                        }
                    }
                }
                self.items.remove(i);
                assert(self.ids() =~= old_ids.remove(i as int));
                assert(no_duplicates(old_ids) ==> no_duplicates(self.ids())) by {
                    if no_duplicates(old_ids) {
                        assert forall|a: int, b: int| 0 <= a < b < self.ids().len() implies self.ids()[a] != self.ids()[b] by {
                            let oa = if a < i as int { a } else { a + 1 };
                            let ob = if b < i as int { b } else { b + 1 };
                            assert(self.ids()[a] == old_ids[oa]);
                            assert(self.ids()[b] == old_ids[ob]);
                        }
                    }
                }
                return true;
            }
            i = i + 1;
        }
        proof {
            if self.ids().contains(id@) {
                let j = choose|j: int| 0 <= j < self.ids().len() && self.ids()[j] == id@;
                assert(self.ids()[j] != id@);
            }
        }
        false
    }
}

/// The id a registration is kept under: a registration string that does
/// not start with `/` is its own id, whatever it names; one that does is
/// prefixed with the sender's bus name. So two items of one bus at
/// different paths get different ids, and the same registration from the
/// same sender always gets the same id.
pub proof fn lemma_service_id_forms(sender: Seq<char>, service: Seq<char>, other: Seq<char>)
    ensures
        !(service.len() > 0 && service[0] == '/') ==> service_id(sender, service) == service,
        (service.len() > 0 && service[0] == '/') ==> service_id(sender, service) == sender + service,
        !(service.len() > 0 && service[0] == '/') && !(other.len() > 0 && other[0] == '/') && service != other
            ==> service_id(sender, service) != service_id(sender, other),
        (service.len() > 0 && service[0] == '/') && (other.len() > 0 && other[0] == '/') && service != other
            ==> service_id(sender, service) != service_id(sender, other),
{
    if (service.len() > 0 && service[0] == '/') && (other.len() > 0 && other[0] == '/') && service != other {
        let a = sender + service;
        let b = sender + other;
        if a == b {
            assert(service =~= a.skip(sender.len() as int));
            assert(other =~= b.skip(sender.len() as int));
        }
    }
}

/// Registering an id keeps the id list free of duplicates, leaves the id
/// registered, and a second registration of the same id changes nothing.
pub proof fn lemma_register_idempotent(items: Seq<Seq<char>>, id: Seq<char>)
    requires
        no_duplicates(items),
    ensures
        no_duplicates(registered_after(items, id)),
        registered_after(items, id).contains(id),
        registered_after(registered_after(items, id), id) == registered_after(items, id),
        forall|x: Seq<char>| items.contains(x) ==> #[trigger] registered_after(items, id).contains(x),
{
    let after = registered_after(items, id);
    if !items.contains(id) {
        assert(after[items.len() as int] == id);
        assert forall|i: int, j: int| 0 <= i < j < after.len() implies after[i] != after[j] by {
            if j == items.len() {
                assert(after[i] == items[i]);
            }
        }
        assert forall|x: Seq<char>| items.contains(x) implies after.contains(x) by {
            let k = choose|k: int| 0 <= k < items.len() && items[k] == x;
            assert(after[k] == x);
        }
    }
}

/// Unregistering an id that a registration just added restores the id
/// list from before the registration.
pub proof fn lemma_unregister_undoes_register(items: Seq<Seq<char>>, id: Seq<char>)
    requires
        !items.contains(id),
    ensures
        registered_after(items, id).contains(id),
        registered_after(items, id).remove(registered_after(items, id).index_of_first(id)->0) == items,
{
    let after = items.push(id);
    assert(after[items.len() as int] == id);
    after.index_of_first_ensures(id);
    let k = after.index_of_first(id)->0;
    assert(k == items.len() as int) by {
        if k < items.len() as int {
            assert(items[k] == id);
        }
    }
    assert(after.remove(k) =~= items);
}

} // verus!
