use vstd::prelude::*;

use crate::error::FoliaError;
use crate::text::str_eq;

verus! {

/// The key type that the element store hands out.
pub type IntId = u32;

/// The characters of an optional owned string, as the contracts see them.
pub open spec fn opt_chars(o: Option<String>) -> Option<Seq<char>> {
    match o {
        Some(s) => Some(s@),
        None => None,
    }
}

/// A copyable handle that a store derives from a slot position.
pub trait StoreKey: Copy + Sized {
    /// The slot position that the key stands for.
    spec fn spec_slot(self) -> nat;

    /// Whether a slot position can be expressed as a key.
    spec fn spec_fits(slot: nat) -> bool;

    /// The key for a slot position, or `None` where the key type cannot express it.
    fn from_slot(slot: usize) -> (r: Option<Self>)
        ensures
            r is Some <==> Self::spec_fits(slot as nat),
            r matches Some(k) ==> k.spec_slot() == slot as nat,
    ;

    /// The slot position that the key stands for.
    fn slot(self) -> (r: usize)
        ensures
            r as nat == self.spec_slot(),
    ;

    /// Two keys for one slot are the same key.
    proof fn lemma_slot_injective(a: Self, b: Self)
        ensures
            a.spec_slot() == b.spec_slot() ==> a == b,
    ;
}

impl StoreKey for u32 {
    open spec fn spec_slot(self) -> nat {
        self as nat
    }

    open spec fn spec_fits(slot: nat) -> bool {
        slot <= u32::MAX
    }

    fn from_slot(slot: usize) -> (r: Option<u32>) {
        if slot <= u32::MAX as usize {
            Some(slot as u32)
        } else {
            None
        }
    }

    fn slot(self) -> (r: usize) {
        self as usize
    }

    proof fn lemma_slot_injective(a: u32, b: u32) {
    }
}

/// An item that a store can hold. An item may carry a string identity, may
/// need encoding before it can be stored, and may record the key it was stored
/// under.
pub trait Storable<Key>: Sized {
    /// The string identity of the item, if it has one.
    spec fn spec_id(&self) -> Option<Seq<char>>;

    /// Whether the item is ready for storage.
    spec fn spec_encoded(&self) -> bool;

    /// The item after it was told its key.
    spec fn spec_with_key(self, key: Key) -> Self;

    /// Learning its key leaves the identity of an item as it was.
    proof fn lemma_with_key_keeps_id(self, key: Key)
        ensures
            self.spec_with_key(key).spec_id() == self.spec_id(),
    ;

    fn maybe_id(&self) -> (r: Option<String>)
        ensures
            opt_chars(r) == self.spec_id(),
    ;

    fn is_encoded(&self) -> (r: bool)
        ensures
            r == self.spec_encoded(),
    ;

    /// The key of the item, where the item records it.
    fn key(&self) -> (r: Option<Key>) {
        None
    }

    /// Tell the item its key, where the item records it.
    fn set_key(&mut self, key: Key)
        ensures
            *final(self) == old(self).spec_with_key(key),
    ;
}

/// The identity of the item in a slot, if the slot is occupied and the item identified.
pub open spec fn slot_id<T: Storable<Key>, Key>(items: Seq<Option<T>>, k: int) -> Option<
    Seq<char>,
> {
    match items[k] {
        Some(it) => it.spec_id(),
        None => None,
    }
}

/// Consistency of the slots, the list of indexed identities and the index:
/// every indexed identity names an occupied slot whose item has that identity,
/// and every identified item is indexed under its own slot.
pub closed spec fn wf_parts<T: Storable<Key>, Key: StoreKey>(
    items: Seq<Option<T>>,
    ids: Seq<(String, Key)>,
    index: Map<Seq<char>, Key>,
) -> bool {
    &&& forall|i: int|
        0 <= i < ids.len() ==> #[trigger] index.contains_key(ids[i].0@) && index[ids[i].0@]
            == ids[i].1
    &&& forall|id: Seq<char>| #[trigger]
        index.contains_key(id) ==> exists|i: int| 0 <= i < ids.len() && #[trigger] ids[i].0@ == id
    &&& forall|id: Seq<char>| #[trigger]
        index.contains_key(id) ==> index[id].spec_slot() < items.len() && slot_id(
            items,
            index[id].spec_slot() as int,
        ) == Some(id)
    &&& forall|k: int|
        0 <= k < items.len() && (#[trigger] slot_id(items, k)) is Some ==> {
            let id = slot_id(items, k)->0;
            index.contains_key(id) && index[id].spec_slot() == k
        }
}

/// Replacing an item by one of the same identity keeps the store consistent.
proof fn lemma_replace_keeps_wf<T: Storable<Key>, Key: StoreKey>(
    items: Seq<Option<T>>,
    ids: Seq<(String, Key)>,
    index: Map<Seq<char>, Key>,
    k: int,
    v: T,
)
    requires
        wf_parts(items, ids, index),
        0 <= k < items.len(),
        items[k] is Some,
        v.spec_id() == items[k]->0.spec_id(),
    ensures
        wf_parts(items.update(k, Some(v)), ids, index),
{
    let items2 = items.update(k, Some(v));
    assert forall|j: int| 0 <= j < items.len() implies #[trigger] slot_id(items2, j) == slot_id(
        items,
        j,
    ) by {}
}

/// The item in the slot of a key, if the slot exists and is occupied.
pub open spec fn slot_of<T, Key: StoreKey>(items: Seq<Option<T>>, key: Key) -> Option<T> {
    if key.spec_slot() < items.len() {
        items[key.spec_slot() as int]
    } else {
        None
    }
}

/// The key that an index gives for an identity.
pub open spec fn key_of_id<Key>(index: Map<Seq<char>, Key>, id: Seq<char>) -> Option<Key> {
    if index.contains_key(id) {
        Some(index[id])
    } else {
        None
    }
}

/// The key that an index gives for the identity of an item.
pub open spec fn key_of_item<T: Storable<Key>, Key>(index: Map<Seq<char>, Key>, item: T) -> Option<Key> {
    match item.spec_id() {
        Some(id) => key_of_id(index, id),
        None => None,
    }
}

/// The contract of a key-indexed store: stable keys that stand for slot
/// positions, and an index from string identity to key.
pub trait Store<T: Storable<Key>, Key: StoreKey>: Sized {
    /// The slots, in key order; a cleared slot is `None`.
    spec fn spec_items(&self) -> Seq<Option<T>>;

    /// The identity index.
    spec fn spec_index(&self) -> Map<Seq<char>, Key>;

    /// The store is consistent: every indexed identity names an occupied slot
    /// whose item has that identity, and every identified item is indexed
    /// under its own slot.
    spec fn wf(&self) -> bool;

    /// Add an item and return its key. An item whose identity is already
    /// indexed is not added again: its existing key is returned.
    fn add(&mut self, item: T) -> (r: Result<Key, FoliaError>)
        requires
            old(self).wf(),
        ensures
            final(self).wf(),
            !item.spec_encoded() ==> (r matches Err(FoliaError::EncodeError(_)))
                && *final(self) == *old(self),
            item.spec_encoded() && key_of_item(old(self).spec_index(), item) is Some ==> r
                == Ok::<Key, FoliaError>(key_of_item(old(self).spec_index(), item)->0)
                && *final(self) == *old(self),
            item.spec_encoded() && key_of_item(old(self).spec_index(), item) is None
                && !Key::spec_fits(old(self).spec_items().len()) ==> (r matches Err(
                FoliaError::InternalError(_),
            )) && *final(self) == *old(self),
            item.spec_encoded() && key_of_item(old(self).spec_index(), item) is None
                && Key::spec_fits(old(self).spec_items().len()) ==> (r matches Ok(k)
                && k.spec_slot() == old(self).spec_items().len() && final(self).spec_items()
                == old(self).spec_items().push(Some(item.spec_with_key(k)))
                && final(self).spec_index() == match item.spec_id() {
                Some(id) => old(self).spec_index().insert(id, k),
                None => old(self).spec_index(),
            }),
    ;

    /// The number of slots, cleared ones included.
    fn len(&self) -> (r: usize)
        ensures
            r == self.spec_items().len(),
    ;

    fn is_empty(&self) -> (r: bool)
        ensures
            r == (self.spec_items().len() == 0),
    ;

    /// The item in the slot of a key; `None` for a key past the end or a cleared slot.
    fn get(&self, key: Key) -> (r: Option<&T>)
        ensures
            match r {
                Some(x) => slot_of(self.spec_items(), key) == Some(*x),
                None => slot_of(self.spec_items(), key) is None,
            },
    ;

    /// The item in the slot of a key, for change in place. A change that keeps
    /// the identity of the item keeps the store consistent.
    fn get_mut(&mut self, key: Key) -> (r: Option<&mut T>)
        ensures
            r is Some <==> slot_of(old(self).spec_items(), key) is Some,
            r matches Some(x) ==> slot_of(old(self).spec_items(), key) == Some(*x),
            r matches Some(x) ==> final(self).spec_items() == old(self).spec_items().update(
                key.spec_slot() as int,
                Some(*final(x)),
            ),
            r matches Some(x) ==> final(self).spec_index() == old(self).spec_index(),
            r matches Some(x) ==> (old(self).wf() && final(x).spec_id() == x.spec_id()
                ==> final(self).wf()),
            r is None ==> *final(self) == *old(self),
    ;

    /// Resolve an identity to a key through the index.
    fn id_to_key(&self, id: &str) -> (r: Option<Key>)
        requires
            self.wf(),
        ensures
            r == key_of_id(self.spec_index(), id@),
    ;

    /// The item with an identity; `None` where the identity is not indexed.
    fn get_by_id(&self, id: &str) -> (r: Option<&T>)
        requires
            self.wf(),
        ensures
            match r {
                Some(x) => key_of_id(self.spec_index(), id@) is Some && slot_of(self.spec_items(), 
                    key_of_id(self.spec_index(), id@)->0,
                ) == Some(*x),
                None => key_of_id(self.spec_index(), id@) is None,
            },
    ;

    /// The item with an identity, for change in place.
    fn get_mut_by_id(&mut self, id: &str) -> (r: Option<&mut T>)
        requires
            old(self).wf(),
        ensures
            r is Some <==> key_of_id(old(self).spec_index(), id@) is Some,
            r matches Some(x) ==> slot_of(old(self).spec_items(), key_of_id(old(self).spec_index(), id@)->0) == Some(
                *x,
            ),
            r matches Some(x) ==> final(self).spec_items() == old(self).spec_items().update(
                key_of_id(old(self).spec_index(), id@)->0.spec_slot() as int,
                Some(*final(x)),
            ),
            r matches Some(x) ==> final(self).spec_index() == old(self).spec_index(),
            r matches Some(x) ==> (final(x).spec_id() == x.spec_id() ==> final(self).wf()),
            r is None ==> *final(self) == *old(self),
    ;

    /// The key under which an item with the same identity is stored; `None`
    /// for an item without identity.
    fn get_key(&self, item: &T) -> (r: Option<Key>)
        requires
            self.wf(),
        ensures
            r == key_of_item(self.spec_index(), *item),
    ;

    /// An indexed identity names a stored item with that identity.
    proof fn lemma_index_names_item(&self, id: Seq<char>)
        requires
            self.wf(),
            self.spec_index().contains_key(id),
        ensures
            slot_of(self.spec_items(), self.spec_index()[id]) matches Some(it) && it.spec_id() == Some(id),
    ;

    /// A stored item with an identity is indexed under its own key: no two
    /// keys hold items of one identity.
    proof fn lemma_item_is_indexed(&self, key: Key)
        requires
            self.wf(),
            slot_of(self.spec_items(), key) matches Some(it) && it.spec_id() is Some,
        ensures
            self.spec_index().contains_key(slot_of(self.spec_items(), key)->0.spec_id()->0),
            self.spec_index()[slot_of(self.spec_items(), key)->0.spec_id()->0] == key,
    ;
}

/// What [`Store::add`] promises of an arena, before and after, and the result.
/// What [`Store::add`] promises of an arena, before and after, and the result.
pub open spec fn add_post<T: Storable<Key>, Key: StoreKey>(
    old: Arena<T, Key>,
    new: Arena<T, Key>,
    item: T,
    r: Result<Key, FoliaError>,
) -> bool {
    &&& new.wf()
    &&& !item.spec_encoded() ==> (r matches Err(FoliaError::EncodeError(_))) && new == old
    &&& item.spec_encoded() && key_of_item(old.spec_index(), item) is Some ==> r == Ok::<
        Key,
        FoliaError,
    >(key_of_item(old.spec_index(), item)->0) && new == old
    &&& item.spec_encoded() && key_of_item(old.spec_index(), item) is None && !Key::spec_fits(
        old.spec_items().len(),
    ) ==> (r matches Err(FoliaError::InternalError(_))) && new == old
    &&& item.spec_encoded() && key_of_item(old.spec_index(), item) is None && Key::spec_fits(
        old.spec_items().len(),
    ) ==> (r matches Ok(k) && k.spec_slot() == old.spec_items().len() && new.spec_items()
        == old.spec_items().push(Some(item.spec_with_key(k))) && new.spec_index()
        == match item.spec_id() {
        Some(id) => old.spec_index().insert(id, k),
        None => old.spec_index(),
    })
}

/// Adding two items of one identity gives the same key both times, and the
/// second addition leaves the store as the first left it.
pub proof fn lemma_add_same_identity<T: Storable<Key>, Key: StoreKey>(
    s0: Arena<T, Key>,
    s1: Arena<T, Key>,
    s2: Arena<T, Key>,
    a: T,
    b: T,
    r1: Result<Key, FoliaError>,
    r2: Result<Key, FoliaError>,
)
    requires
        s0.wf(),
        add_post(s0, s1, a, r1),
        add_post(s1, s2, b, r2),
        a.spec_encoded(),
        b.spec_encoded(),
        a.spec_id() is Some,
        a.spec_id() == b.spec_id(),
        r1 is Ok,
    ensures
        r2 == r1,
        s2 == s1,
{
    let id = a.spec_id()->0;
    a.lemma_with_key_keeps_id(r1->Ok_0);
    if key_of_item(s0.spec_index(), a) is Some {
        assert(s1 == s0);
        assert(key_of_item(s1.spec_index(), b) == key_of_item(s0.spec_index(), a));
    } else {
        assert(Key::spec_fits(s0.spec_items().len()));
        let k = r1->Ok_0;
        assert(s1.spec_index() == s0.spec_index().insert(id, k));
        assert(s1.spec_index().contains_key(id));
        assert(key_of_item(s1.spec_index(), b) == Some(k));
    }
}


/// A growable arena of slots with an identity index: the implementation of
/// [`Store`] that the element store is built on.
pub struct Arena<T, Key> {
    items: Vec<Option<T>>,
    ids: Vec<(String, Key)>,
    index: Ghost<Map<Seq<char>, Key>>,
}

impl<T: Storable<Key>, Key: StoreKey> Arena<T, Key> {
    /// An empty store.
    pub fn new() -> (r: Self)
        ensures
            r.wf(),
            r.spec_items() == Seq::<Option<T>>::empty(),
            r.spec_index() == Map::<Seq<char>, Key>::empty(),
    {
        let r = Arena { items: Vec::new(), ids: Vec::new(), index: Ghost(Map::empty()) };
        proof {
            assert(wf_parts(r.items@, r.ids@, r.index@));
        }
        r
    }

    /// The position in the list of identities that holds an identity.
    fn find_id(&self, id: &str) -> (r: Option<usize>)
        requires
            self.wf(),
        ensures
            match r {
                Some(i) => i < self.ids@.len() && self.ids@[i as int].0@ == id@,
                None => !self.index@.contains_key(id@),
            },
    {
        let mut i: usize = 0;
        while i < self.ids.len()
            invariant
                self.wf(),
                i <= self.ids@.len(),
                forall|j: int| 0 <= j < i ==> self.ids@[j].0@ != id@,
            decreases self.ids@.len() - i,
        {
            if str_eq(self.ids[i].0.as_str(), id) {
                return Some(i);
            }
            i = i + 1;
        }
        None
    }

    /// No two slots hold items of one identity.
    pub proof fn lemma_identity_unique(&self, k1: int, k2: int)
        requires
            self.wf(),
            0 <= k1 < self.spec_items().len(),
            0 <= k2 < self.spec_items().len(),
            slot_id(self.spec_items(), k1) is Some,
            slot_id(self.spec_items(), k1) == slot_id(self.spec_items(), k2),
        ensures
            k1 == k2,
    {
    }
}

impl<T: Storable<Key>, Key: StoreKey> Store<T, Key> for Arena<T, Key> {
    closed spec fn spec_items(&self) -> Seq<Option<T>> {
        self.items@
    }

    closed spec fn spec_index(&self) -> Map<Seq<char>, Key> {
        self.index@
    }

    closed spec fn wf(&self) -> bool {
        wf_parts(self.items@, self.ids@, self.index@)
    }

    fn add(&mut self, item: T) -> (r: Result<Key, FoliaError>) {
        if !item.is_encoded() {
            return Err(FoliaError::EncodeError("Item is not encoded yet".to_string()));
        }
        if let Some(key) = self.get_key(&item) {
            return Ok(key);
        }
        let id = item.maybe_id();
        let slot = self.items.len();
        match Key::from_slot(slot) {
            Some(key) => {
                let ghost old_self = *self;
                let mut item = item;
                proof {
                    item.lemma_with_key_keeps_id(key);
                }
                item.set_key(key);
                self.items.push(Some(item));
                proof {
                    assert forall|k: int| 0 <= k < old_self.items@.len() implies #[trigger] slot_id(
                        self.items@,
                        k,
                    ) == slot_id(old_self.items@, k) by {
                        assert(self.items@[k] == old_self.items@[k]);
                    }
                    assert(slot_id(self.items@, slot as int) == opt_chars(id));
                }
                match id {
                    Some(id) => {
                        proof {
                            self.index@ = self.index@.insert(id@, key);
                        }
                        self.ids.push((id, key));
                        proof {
                            let n = self.ids@.len() - 1;
                            assert(self.ids@[n].0@ == id@);
                            assert forall|nid: Seq<char>| #[trigger]
                                self.index@.contains_key(nid) implies exists|i: int|
                                0 <= i < self.ids@.len() && #[trigger] self.ids@[i].0@ == nid by {
                                if nid != id@ {
                                    let i = choose|i: int|
                                        0 <= i < old_self.ids@.len() && #[trigger] old_self.ids@[i].0@
                                            == nid;
                                    assert(self.ids@[i].0@ == nid);
                                }
                            }
                        }
                    },
                    None => {},
                }
                Ok(key)
            },
            None => Err(
                FoliaError::InternalError(
                    "Store.add(): the slot position cannot be expressed as a key".to_string(),
                ),
            ),
        }
    }

    fn len(&self) -> (r: usize) {
        self.items.len()
    }

    fn is_empty(&self) -> (r: bool) {
        self.items.len() == 0
    }

    fn get(&self, key: Key) -> (r: Option<&T>) {
        let slot = key.slot();
        if slot < self.items.len() {
            self.items[slot].as_ref()
        } else {
            None
        }
    }

    fn get_mut(&mut self, key: Key) -> (r: Option<&mut T>) {
        let slot = key.slot();
        if slot < self.items.len() && self.items[slot].is_some() {
            proof {
                assert forall|v: T|
                    wf_parts(self.items@, self.ids@, self.index@) && v.spec_id()
                        == self.items@[slot as int]->0.spec_id() implies wf_parts(
                    #[trigger] self.items@.update(slot as int, Some(v)),
                    self.ids@,
                    self.index@,
                ) by {
                    lemma_replace_keeps_wf(self.items@, self.ids@, self.index@, slot as int, v);
                }
            }
            self.items[slot].as_mut()
        } else {
            None
        }
    }

    fn id_to_key(&self, id: &str) -> (r: Option<Key>) {
        match self.find_id(id) {
            Some(i) => Some(self.ids[i].1),
            None => None,
        }
    }

    fn get_by_id(&self, id: &str) -> (r: Option<&T>) {
        match self.id_to_key(id) {
            Some(key) => self.get(key),
            None => None,
        }
    }

    fn get_mut_by_id(&mut self, id: &str) -> (r: Option<&mut T>) {
        match self.id_to_key(id) {
            Some(key) => self.get_mut(key),
            None => None,
        }
    }

    fn get_key(&self, item: &T) -> (r: Option<Key>) {
        match item.maybe_id() {
            Some(id) => self.id_to_key(id.as_str()),
            None => None,
        }
    }

    proof fn lemma_index_names_item(&self, id: Seq<char>) {
    }

    proof fn lemma_item_is_indexed(&self, key: Key) {
        let id = slot_id(self.items@, key.spec_slot() as int)->0;
        Key::lemma_slot_injective(self.index@[id], key);
    }
}

/// An owner of a store, which hands the store out for lookups.
pub trait FromStore<Key: StoreKey + 'static, Item: Storable<Key>>: Sized {
    /// The store that the owner holds.
    spec fn spec_store(&self) -> Arena<Item, Key>;

    fn store(&self) -> (r: &Arena<Item, Key>)
        ensures
            *r == self.spec_store(),
    ;

    fn store_mut(&mut self) -> (r: &mut Arena<Item, Key>)
        ensures
            *r == old(self).spec_store(),
            final(self).spec_store() == *final(r),
    ;

    /// The item in the slot of a key.
    fn get(&self, key: Key) -> (r: Option<&Item>)
        ensures
            match r {
                Some(x) => slot_of(self.spec_store().spec_items(), key) == Some(*x),
                None => slot_of(self.spec_store().spec_items(), key) is None,
            },
    {
        self.store().get(key)
    }

    /// The item in the slot of a key, for change in place.
    fn get_mut(&mut self, key: Key) -> (r: Option<&mut Item>)
        ensures
            r is Some <==> slot_of(old(self).spec_store().spec_items(), key) is Some,
            r matches Some(x) ==> slot_of(old(self).spec_store().spec_items(), key) == Some(*x),
            r matches Some(x) ==> final(self).spec_store().spec_items() == old(
                self,
            ).spec_store().spec_items().update(key.spec_slot() as int, Some(*final(x))),
            r is None ==> final(self).spec_store() == old(self).spec_store(),
    {
        self.store_mut().get_mut(key)
    }

    /// The item with an identity, for change in place.
    fn get_mut_by_id(&mut self, id: &str) -> (r: Option<&mut Item>)
        requires
            old(self).spec_store().wf(),
        ensures
            r is Some <==> key_of_id(old(self).spec_store().spec_index(), id@) is Some,
            r matches Some(x) ==> slot_of(
                old(self).spec_store().spec_items(),
                key_of_id(old(self).spec_store().spec_index(), id@)->0,
            ) == Some(*x),
            r is None ==> final(self).spec_store() == old(self).spec_store(),
    {
        self.store_mut().get_mut_by_id(id)
    }

    /// The item with an identity.
    fn get_by_id(&self, id: &str) -> (r: Option<&Item>)
        requires
            self.spec_store().wf(),
        ensures
            match r {
                Some(x) => key_of_id(self.spec_store().spec_index(), id@) is Some && slot_of(self.spec_store().spec_items(), 
                    key_of_id(self.spec_store().spec_index(), id@)->0,
                ) == Some(*x),
                None => key_of_id(self.spec_store().spec_index(), id@) is None,
            },
    {
        self.store().get_by_id(id)
    }

    /// Resolve an identity to a key.
    fn id_to_key(&self, id: &str) -> (r: Option<Key>)
        requires
            self.spec_store().wf(),
        ensures
            r == key_of_id(self.spec_store().spec_index(), id@),
    {
        self.store().id_to_key(id)
    }

    /// The key under which an item of the same identity is stored.
    fn get_key(&self, item: &Item) -> (r: Option<Key>)
        requires
            self.spec_store().wf(),
        ensures
            r == key_of_item(self.spec_store().spec_index(), *item),
    {
        self.store().get_key(item)
    }
}

/// An owner of a store that adds items to it, encoding them first where
/// they need it.
pub trait IntoStore<Item: Storable<Key>, Key: StoreKey + 'static>: FromStore<Key, Item> {
    /// Make an item ready for storage. By default it is handed back as it is.
    fn encode(&mut self, item: Item) -> (r: Result<Item, FoliaError>)
        ensures
            old(self).spec_store().wf() ==> final(self).spec_store().wf(),
        default_ensures
            r == Ok::<Item, FoliaError>(item),
            *final(self) == *old(self),
    {
        Ok(item)
    }

    /// Encode an item and add it to the store; the key under which it is
    /// stored is returned.
    fn add(&mut self, item: Item) -> (r: Result<Key, FoliaError>)
        requires
            old(self).spec_store().wf(),
        ensures
            final(self).spec_store().wf(),
            r matches Ok(k) ==> slot_of(final(self).spec_store().spec_items(), k) is Some,
    {
        let item = match self.encode(item) {
            Ok(item) => item,
            Err(e) => {
                return Err(e);
            },
        };
        let store = self.store_mut();
        let ghost s0 = *store;
        let r = store.add(item);
        proof {
            if r is Ok {
                if key_of_item(s0.spec_index(), item) is Some && item.spec_encoded() {
                    s0.lemma_index_names_item(item.spec_id()->0);
                }
            }
        }
        r
    }
}

} // verus!
