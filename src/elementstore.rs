use vstd::prelude::*;

use crate::element::{first_same, id_of, is_first_same, DataType, ElementView, FoliaElement};
use crate::error::FoliaError;
use crate::store::{Arena, FromStore, IntId, IntoStore, Storable, Store};

verus! {

broadcast use vstd::seq_lib::group_to_multiset_ensures;

impl Storable<IntId> for FoliaElement {
    /// A node is identified by the value of its first `ID` attribute.
    open spec fn spec_id(&self) -> Option<Seq<char>> {
        id_of(self@.attribs)
    }

    open spec fn spec_encoded(&self) -> bool {
        true
    }

    /// A node does not record its key.
    open spec fn spec_with_key(self, key: IntId) -> Self {
        self
    }

    proof fn lemma_with_key_keeps_id(self, key: IntId) {
    }

    fn maybe_id(&self) -> (r: Option<String>) {
        self.id()
    }

    fn is_encoded(&self) -> (r: bool) {
        true
    }

    fn set_key(&mut self, key: IntId) {
    }
}

/// The view of an optional node.
pub open spec fn node_view(o: Option<FoliaElement>) -> Option<ElementView> {
    match o {
        Some(e) => Some(e@),
        None => None,
    }
}

/// Whether a key names a node of the store.
pub open spec fn valid(s: Seq<Option<ElementView>>, k: IntId) -> bool {
    (k as int) < s.len() && s[k as int] is Some
}

/// The node that a key names.
pub open spec fn node(s: Seq<Option<ElementView>>, k: IntId) -> ElementView {
    s[k as int]->0
}

/// How many times the content of node `m` refers to node `j`.
pub open spec fn refs(s: Seq<Option<ElementView>>, m: IntId, j: IntId) -> nat {
    node(s, m).data.to_multiset().count(DataType::Element(j))
}

/// Parent and child links agree: a node is referred to exactly once by the
/// content of its parent and by no other content; a parent is a node of the
/// store; and content refers only to nodes of the store.
pub open spec fn consistent(s: Seq<Option<ElementView>>) -> bool {
    &&& forall|m: IntId, j: IntId|
        valid(s, m) && valid(s, j) ==> #[trigger] refs(s, m, j) == if node(s, j).parent == Some(m) {
            1nat
        } else {
            0nat
        }
    &&& forall|j: IntId| #[trigger]
        valid(s, j) && node(s, j).parent is Some ==> valid(s, node(s, j).parent->0)
    &&& forall|m: IntId, j: IntId| valid(s, m) && #[trigger] refs(s, m, j) > 0 ==> valid(s, j)
}

/// A node that can join a consistent store: it has no parent and its content
/// refers to no node.
pub open spec fn detached_node(v: ElementView) -> bool {
    &&& v.parent is None
    &&& forall|i: int| 0 <= i < v.data.len() ==> !(#[trigger] v.data[i] is Element)
}

/// The nodes after `c` is taken out of the content of its parent, if it has one.
pub open spec fn unlink(s: Seq<Option<ElementView>>, o: Option<IntId>, c: IntId) -> Seq<
    Option<ElementView>,
> {
    match o {
        Some(o) => if valid(s, o) {
            match first_same(node(s, o).data, DataType::Element(c)) {
                Some(i) => s.update(
                    o as int,
                    Some(ElementView { data: node(s, o).data.remove(i), ..node(s, o) }),
                ),
                None => s,
            }
        } else {
            s
        },
        None => s,
    }
}

/// The nodes after node `c` is attached to node `p`: `c` takes `p` as its
/// parent, `p` gains a reference to `c` at the end of its content, and the
/// former parent of `c`, if any, loses its first reference to `c`.
pub open spec fn spec_attach(s: Seq<Option<ElementView>>, p: IntId, c: IntId) -> Seq<
    Option<ElementView>,
> {
    let s1 = s.update(c as int, Some(ElementView { parent: Some(p), ..node(s, c) }));
    let s2 = s1.update(
        p as int,
        Some(ElementView { data: node(s1, p).data.push(DataType::Element(c)), ..node(s1, p) }),
    );
    unlink(s2, node(s, c).parent, c)
}

/// The nodes after node `c` is detached: it has no parent, and its former
/// parent, if any, loses its first reference to it.
pub open spec fn spec_detach(s: Seq<Option<ElementView>>, c: IntId) -> Seq<Option<ElementView>> {
    let s1 = s.update(c as int, Some(ElementView { parent: None, ..node(s, c) }));
    unlink(s1, node(s, c).parent, c)
}

/// A content item equals a reference exactly when it is that reference.
proof fn lemma_same_as_element(d: DataType, c: IntId)
    ensures
        d.same_as(DataType::Element(c)) <==> d == DataType::Element(c),
{
}

/// Where some item equals `x`, a first one does.
proof fn lemma_first_same_exists(s: Seq<DataType>, x: DataType, i: int)
    requires
        0 <= i < s.len(),
        s[i].same_as(x),
    ensures
        first_same(s, x) is Some,
    decreases i,
{
    if exists|j: int| 0 <= j < i && (#[trigger] s[j]).same_as(x) {
        let j = choose|j: int| 0 <= j < i && (#[trigger] s[j]).same_as(x);
        lemma_first_same_exists(s, x, j);
    } else {
        assert(is_first_same(s, x, i));
    }
}

/// Setting the parent of a node changes no content.
proof fn lemma_refs_set_parent(s: Seq<Option<ElementView>>, c: IntId, x: Option<IntId>)
    requires
        valid(s, c),
    ensures
        ({
            let s1 = s.update(c as int, Some(ElementView { parent: x, ..node(s, c) }));
            &&& s1.len() == s.len()
            &&& forall|k: IntId| #[trigger] valid(s1, k) == valid(s, k)
            &&& forall|m: IntId, j: IntId| valid(s, m) ==> #[trigger] refs(s1, m, j) == refs(s, m, j)
            &&& forall|k: IntId| valid(s, k) && k != c ==> #[trigger] node(s1, k) == node(s, k)
            &&& node(s1, c).parent == x
        }),
{
    let s1 = s.update(c as int, Some(ElementView { parent: x, ..node(s, c) }));
    assert forall|m: IntId, j: IntId| valid(s, m) implies #[trigger] refs(s1, m, j) == refs(s, m, j) by {
        if m == c {
            assert(node(s1, m).data == node(s, m).data);
        } else {
            assert(node(s1, m) == node(s, m));
        }
    }
}

/// Appending a reference to `c` to the content of `p` adds one reference.
proof fn lemma_refs_push(s: Seq<Option<ElementView>>, p: IntId, c: IntId)
    requires
        valid(s, p),
    ensures
        ({
            let s1 = s.update(
                p as int,
                Some(ElementView { data: node(s, p).data.push(DataType::Element(c)), ..node(s, p) }),
            );
            &&& s1.len() == s.len()
            &&& forall|k: IntId| #[trigger] valid(s1, k) == valid(s, k)
            &&& forall|m: IntId, j: IntId| valid(s, m) ==> #[trigger]
                refs(s1, m, j) == refs(s, m, j) + if m == p && j == c {
                    1nat
                } else {
                    0nat
                }
            &&& forall|k: IntId| valid(s, k) ==> #[trigger] node(s1, k).parent == node(s, k).parent
        }),
{
    let s1 = s.update(
        p as int,
        Some(ElementView { data: node(s, p).data.push(DataType::Element(c)), ..node(s, p) }),
    );
    assert forall|m: IntId, j: IntId| valid(s, m) implies #[trigger]
        refs(s1, m, j) == refs(s, m, j) + if m == p && j == c {
            1nat
        } else {
            0nat
        } by {
        if m == p {
            assert(node(s1, m).data == node(s, p).data.push(DataType::Element(c)));
        } else {
            assert(node(s1, m) == node(s, m));
        }
    }
    assert forall|k: IntId| valid(s, k) implies #[trigger] node(s1, k).parent == node(s, k).parent by {
        if k == p {
        } else {
            assert(node(s1, k) == node(s, k));
        }
    }
}

/// Taking the first reference to `c` out of a content that holds one removes one reference.
proof fn lemma_refs_unlink(s: Seq<Option<ElementView>>, o: IntId, c: IntId)
    requires
        valid(s, o),
        refs(s, o, c) > 0,
    ensures
        ({
            let s1 = unlink(s, Some(o), c);
            &&& s1.len() == s.len()
            &&& forall|k: IntId| #[trigger] valid(s1, k) == valid(s, k)
            &&& forall|m: IntId, j: IntId| valid(s, m) ==> #[trigger]
                refs(s1, m, j) + if m == o && j == c {
                    1nat
                } else {
                    0nat
                } == refs(s, m, j)
            &&& forall|k: IntId| valid(s, k) ==> #[trigger] node(s1, k).parent == node(s, k).parent
        }),
{
    let d = node(s, o).data;
    assert(d.contains(DataType::Element(c)));
    let i0 = choose|i: int| 0 <= i < d.len() && d[i] == DataType::Element(c);
    lemma_same_as_element(d[i0], c);
    lemma_first_same_exists(d, DataType::Element(c), i0);
    let i = first_same(d, DataType::Element(c))->0;
    assert(is_first_same(d, DataType::Element(c), i));
    lemma_same_as_element(d[i], c);
    let s1 = unlink(s, Some(o), c);
    assert(s1 == s.update(o as int, Some(ElementView { data: d.remove(i), ..node(s, o) })));
    assert forall|m: IntId, j: IntId| valid(s, m) implies #[trigger]
        refs(s1, m, j) + if m == o && j == c {
            1nat
        } else {
            0nat
        } == refs(s, m, j) by {
        if m == o {
            assert(node(s1, m).data == d.remove(i));
        } else {
            assert(node(s1, m) == node(s, m));
        }
    }
    assert forall|k: IntId| valid(s, k) implies #[trigger] node(s1, k).parent == node(s, k).parent by {
        if k == o {
        } else {
            assert(node(s1, k) == node(s, k));
        }
    }
}

/// Attaching keeps parent and child links in agreement, and makes `p` the parent of `c`.
pub proof fn lemma_attach_consistent(s: Seq<Option<ElementView>>, p: IntId, c: IntId)
    requires
        consistent(s),
        valid(s, p),
        valid(s, c),
    ensures
        consistent(spec_attach(s, p, c)),
        spec_attach(s, p, c).len() == s.len(),
        forall|k: IntId| #[trigger] valid(spec_attach(s, p, c), k) == valid(s, k),
        node(spec_attach(s, p, c), c).parent == Some(p),
{
    let op = node(s, c).parent;
    let s1 = s.update(c as int, Some(ElementView { parent: Some(p), ..node(s, c) }));
    lemma_refs_set_parent(s, c, Some(p));
    let s2 = s1.update(
        p as int,
        Some(ElementView { data: node(s1, p).data.push(DataType::Element(c)), ..node(s1, p) }),
    );
    lemma_refs_push(s1, p, c);
    let s3 = unlink(s2, op, c);
    assert(s3 == spec_attach(s, p, c));
    match op {
        Some(o) => {
            assert(valid(s, o));
            assert(refs(s, o, c) == 1);
            assert(refs(s2, o, c) > 0);
            lemma_refs_unlink(s2, o, c);
            assert forall|m: IntId, j: IntId| valid(s3, m) && valid(s3, j) implies #[trigger] refs(s3, m, j)
                == if node(s3, j).parent == Some(m) {
                1nat
            } else {
                0nat
            } by {
                assert(refs(s1, m, j) == refs(s, m, j));
                if j != c {
                    assert(node(s3, j).parent == node(s, j).parent);
                }
            }
            assert forall|m: IntId, j: IntId| valid(s3, m) && #[trigger] refs(s3, m, j) > 0 implies valid(s3, j) by {
                assert(refs(s1, m, j) == refs(s, m, j));
            }
            assert forall|j: IntId| #[trigger]
                valid(s3, j) && node(s3, j).parent is Some implies valid(s3, node(s3, j).parent->0) by {
                if j != c {
                    assert(node(s3, j).parent == node(s, j).parent);
                }
            }
        },
        None => {
            assert(refs(s, p, c) == 0);
            assert forall|m: IntId, j: IntId| valid(s3, m) && valid(s3, j) implies #[trigger] refs(s3, m, j)
                == if node(s3, j).parent == Some(m) {
                1nat
            } else {
                0nat
            } by {
                assert(refs(s1, m, j) == refs(s, m, j));
                if j != c {
                    assert(node(s3, j).parent == node(s, j).parent);
                } else {
                    assert(refs(s, m, c) == 0);
                }
            }
            assert forall|m: IntId, j: IntId| valid(s3, m) && #[trigger] refs(s3, m, j) > 0 implies valid(s3, j) by {
                assert(refs(s1, m, j) == refs(s, m, j));
            }
            assert forall|j: IntId| #[trigger]
                valid(s3, j) && node(s3, j).parent is Some implies valid(s3, node(s3, j).parent->0) by {
                if j != c {
                    assert(node(s3, j).parent == node(s, j).parent);
                }
            }
        },
    }
}

/// Detaching keeps parent and child links in agreement, and leaves `c` without parent.
pub proof fn lemma_detach_consistent(s: Seq<Option<ElementView>>, c: IntId)
    requires
        consistent(s),
        valid(s, c),
    ensures
        consistent(spec_detach(s, c)),
        spec_detach(s, c).len() == s.len(),
        forall|k: IntId| #[trigger] valid(spec_detach(s, c), k) == valid(s, k),
        node(spec_detach(s, c), c).parent is None,
{
    let op = node(s, c).parent;
    let s1 = s.update(c as int, Some(ElementView { parent: None, ..node(s, c) }));
    lemma_refs_set_parent(s, c, None);
    let s2 = unlink(s1, op, c);
    match op {
        Some(o) => {
            assert(refs(s1, o, c) == refs(s, o, c));
            lemma_refs_unlink(s1, o, c);
            assert forall|m: IntId, j: IntId| valid(s2, m) && valid(s2, j) implies #[trigger] refs(s2, m, j)
                == if node(s2, j).parent == Some(m) {
                1nat
            } else {
                0nat
            } by {
                if j != c {
                    assert(node(s2, j).parent == node(s, j).parent);
                }
            }
            assert forall|j: IntId| #[trigger]
                valid(s2, j) && node(s2, j).parent is Some implies valid(s2, node(s2, j).parent->0) by {
                if j != c {
                    assert(node(s2, j).parent == node(s, j).parent);
                }
            }
        },
        None => {
            assert forall|m: IntId, j: IntId| valid(s2, m) && valid(s2, j) implies #[trigger] refs(s2, m, j)
                == if node(s2, j).parent == Some(m) {
                1nat
            } else {
                0nat
            } by {
                if j != c {
                    assert(node(s2, j).parent == node(s, j).parent);
                }
            }
            assert forall|j: IntId| #[trigger]
                valid(s2, j) && node(s2, j).parent is Some implies valid(s2, node(s2, j).parent->0) by {
                if j != c {
                    assert(node(s2, j).parent == node(s, j).parent);
                }
            }
        },
    }
}

/// Attaching a node to one parent and then to another leaves it under the
/// second: it names the second as its parent, the content of the second
/// refers to it exactly once, and the content of the first not at all.
pub proof fn lemma_attach_twice(s: Seq<Option<ElementView>>, p: IntId, q: IntId, c: IntId)
    requires
        consistent(s),
        valid(s, p),
        valid(s, q),
        valid(s, c),
        p != q,
    ensures
        ({
            let s2 = spec_attach(spec_attach(s, p, c), q, c);
            &&& node(s2, c).parent == Some(q)
            &&& refs(s2, q, c) == 1
            &&& refs(s2, p, c) == 0
        }),
{
    lemma_attach_consistent(s, p, c);
    let s1 = spec_attach(s, p, c);
    assert(valid(s1, q) && valid(s1, c) && valid(s1, p));
    lemma_attach_consistent(s1, q, c);
    let s2 = spec_attach(s1, q, c);
    assert(valid(s2, q) && valid(s2, c) && valid(s2, p));
    assert(refs(s2, q, c) == 1);
    assert(refs(s2, p, c) == 0);
}

/// After a node is detached it has no parent and no content refers to it;
/// detaching it again changes nothing.
pub proof fn lemma_detach_twice(s: Seq<Option<ElementView>>, c: IntId)
    requires
        consistent(s),
        valid(s, c),
    ensures
        ({
            let s1 = spec_detach(s, c);
            &&& node(s1, c).parent is None
            &&& forall|m: IntId| valid(s1, m) ==> #[trigger] refs(s1, m, c) == 0
            &&& valid(s1, c)
            &&& spec_detach(s1, c) == s1
        }),
{
    lemma_detach_consistent(s, c);
    let s1 = spec_detach(s, c);
    assert forall|m: IntId| valid(s1, m) implies #[trigger] refs(s1, m, c) == 0 by {
        assert(valid(s1, c));
    }
    assert(spec_detach(s1, c) =~= s1);
}

/// A consistent store stays consistent when a node without parent and
/// without references joins it.
pub proof fn lemma_push_consistent(s: Seq<Option<ElementView>>, v: ElementView)
    requires
        consistent(s),
        detached_node(v),
        s.len() <= u32::MAX,
    ensures
        consistent(s.push(Some(v))),
{
    let s1 = s.push(Some(v));
    let n = s.len() as IntId;
    assert forall|j: IntId| !(#[trigger] v.data.to_multiset().count(DataType::Element(j)) > 0) by {
        if v.data.to_multiset().count(DataType::Element(j)) > 0 {
            assert(v.data.contains(DataType::Element(j)));
        }
    }
    assert forall|k: IntId| #[trigger] valid(s1, k) == (valid(s, k) || k == n) by {}
    assert forall|k: IntId| valid(s, k) implies #[trigger] node(s1, k) == node(s, k) by {}
    assert forall|m: IntId, j: IntId| valid(s1, m) && valid(s1, j) implies #[trigger] refs(s1, m, j)
        == if node(s1, j).parent == Some(m) {
        1nat
    } else {
        0nat
    } by {
        if m == n {
            assert(node(s1, m) == v);
            assert(refs(s1, m, j) == v.data.to_multiset().count(DataType::Element(j)));
            if j != n {
                assert(valid(s, j));
                assert(node(s1, j) == node(s, j));
                if node(s, j).parent is Some {
                    assert(valid(s, node(s, j).parent->0));
                }
            }
        } else {
            assert(valid(s, m));
            assert(node(s1, m) == node(s, m));
            assert(refs(s1, m, j) == refs(s, m, j));
            if j == n {
                assert(!valid(s, j));
                assert(node(s1, j) == v);
            } else {
                assert(valid(s, j));
                assert(node(s1, j) == node(s, j));
            }
        }
    }
    assert forall|m: IntId, j: IntId| valid(s1, m) && #[trigger] refs(s1, m, j) > 0 implies valid(s1, j) by {
        if m == n {
            assert(node(s1, m) == v);
            assert(refs(s1, m, j) == v.data.to_multiset().count(DataType::Element(j)));
        } else {
            assert(valid(s, m));
            assert(node(s1, m) == node(s, m));
            assert(refs(s1, m, j) == refs(s, m, j));
        }
    }
    assert forall|j: IntId| #[trigger]
        valid(s1, j) && node(s1, j).parent is Some implies valid(s1, node(s1, j).parent->0) by {
        if j != n {
            assert(valid(s, j));
            assert(node(s1, j) == node(s, j));
        }
    }
}

/// Holds and owns all nodes, and the index from identity to key. Tree edges
/// are keys into the store: a node lists its children as `Element` content
/// and names its parent by key.
pub struct ElementStore {
    elements: Arena<FoliaElement, IntId>,
}

impl FromStore<IntId, FoliaElement> for ElementStore {
    closed spec fn spec_store(&self) -> Arena<FoliaElement, IntId> {
        self.elements
    }

    fn store(&self) -> (r: &Arena<FoliaElement, IntId>) {
        &self.elements
    }

    fn store_mut(&mut self) -> (r: &mut Arena<FoliaElement, IntId>) {
        &mut self.elements
    }
}


impl IntoStore<FoliaElement, IntId> for ElementStore {
}

impl Default for ElementStore {
    fn default() -> (r: ElementStore)
        ensures
            r.wf(),
            r@ == Seq::<Option<ElementView>>::empty(),
            consistent(r@),
    {
        ElementStore::new()
    }
}

impl View for ElementStore {
    type V = Seq<Option<ElementView>>;

    closed spec fn view(&self) -> Seq<Option<ElementView>> {
        self.elements.spec_items().map_values(|o: Option<FoliaElement>| node_view(o))
    }
}

impl ElementStore {
    /// The store is consistent as a store of items with an identity index.
    pub closed spec fn wf(&self) -> bool {
        self.elements.wf()
    }

    /// The identity index of the store.
    pub closed spec fn spec_index(&self) -> Map<Seq<char>, IntId> {
        self.elements.spec_index()
    }

    /// An empty store.
    pub fn new() -> (r: ElementStore)
        ensures
            r.wf(),
            r@ == Seq::<Option<ElementView>>::empty(),
            consistent(r@),
    {
        let r = ElementStore { elements: Arena::new() };
        assert(r@ =~= Seq::<Option<ElementView>>::empty());
        r
    }

    /// The node that a key names; `None` for a key that names none.
    pub fn get(&self, key: IntId) -> (r: Option<&FoliaElement>)
        ensures
            match r {
                Some(e) => valid(self@, key) && e@ == node(self@, key),
                None => !valid(self@, key),
            },
    {
        self.elements.get(key)
    }

    /// The node with an identity; `None` where no node has it.
    pub fn get_by_id(&self, id: &str) -> (r: Option<&FoliaElement>)
        requires
            self.wf(),
        ensures
            match r {
                Some(e) => self.spec_index().contains_key(id@) && valid(
                    self@,
                    self.spec_index()[id@],
                ) && e@ == node(self@, self.spec_index()[id@]),
                None => !self.spec_index().contains_key(id@),
            },
    {
        self.elements.get_by_id(id)
    }

    /// The key of the node with an identity.
    pub fn id_to_key(&self, id: &str) -> (r: Option<IntId>)
        requires
            self.wf(),
        ensures
            r is Some <==> self.spec_index().contains_key(id@),
            r matches Some(k) ==> k == self.spec_index()[id@],
            r matches Some(k) ==> valid(self@, k) && id_of(node(self@, k).attribs) == Some(id@),
    {
        let r = self.elements.id_to_key(id);
        proof {
            if r is Some {
                self.elements.lemma_index_names_item(id@);
            }
        }
        r
    }

    /// The number of slots of the store.
    pub fn len(&self) -> (r: usize)
        ensures
            r == self@.len(),
    {
        self.elements.len()
    }

    pub fn is_empty(&self) -> (r: bool)
        ensures
            r == (self@.len() == 0),
    {
        self.elements.is_empty()
    }

    /// Attach node `child_intid` under node `parent_intid`, taking it out of
    /// the content of its former parent, if any. Fails, changing nothing,
    /// where either key names no node.
    pub fn attach(&mut self, parent_intid: IntId, child_intid: IntId) -> (r: bool)
        requires
            old(self).wf(),
        ensures
            final(self).wf(),
            final(self).spec_index() == old(self).spec_index(),
            r == (valid(old(self)@, parent_intid) && valid(old(self)@, child_intid)),
            r ==> final(self)@ == spec_attach(old(self)@, parent_intid, child_intid),
            !r ==> final(self)@ == old(self)@,
    {
        if self.elements.get(parent_intid).is_none() {
            proof {
                assert(!valid(self@, parent_intid));
            }
            return false;
        }
        let ghost s0 = self@;
        let oldparent = match self.elements.get_mut(child_intid) {
            Some(child) => {
                let tmp = child.get_parent();
                child.set_parent(Some(parent_intid));
                tmp
            },
            None => {
                proof {
                    assert(!valid(s0, child_intid));
                }
                return false;
            },
        };
        proof {
            assert(valid(s0, child_intid));
            assert(self@ =~= s0.update(
                child_intid as int,
                Some(ElementView { parent: Some(parent_intid), ..node(s0, child_intid) }),
            ));
        }
        let ghost s1 = self@;
        match self.elements.get_mut(parent_intid) {
            Some(parent) => {
                parent.push(DataType::Element(child_intid));
            },
            None => {},
        }
        proof {
            assert(self@ =~= s1.update(
                parent_intid as int,
                Some(
                    ElementView {
                        data: node(s1, parent_intid).data.push(DataType::Element(child_intid)),
                        ..node(s1, parent_intid)
                    },
                ),
            ));
        }
        let ghost s2 = self@;
        match oldparent {
            Some(op) => {
                match self.elements.get_mut(op) {
                    Some(former) => {
                        match former.index(&DataType::Element(child_intid)) {
                            Some(i) => {
                                former.remove(i);
                            },
                            None => {},
                        }
                    },
                    None => {},
                }
                proof {
                    if valid(s2, op) {
                        match first_same(node(s2, op).data, DataType::Element(child_intid)) {
                            Some(i) => {
                                assert(self@ =~= s2.update(
                                    op as int,
                                    Some(ElementView { data: node(s2, op).data.remove(i), ..node(s2, op) }),
                                ));
                            },
                            None => {
                                assert(self@ =~= s2);
                            },
                        }
                    } else {
                        assert(self@ =~= s2);
                    }
                }
            },
            None => {},
        }
        true
    }

    /// Detach node `child_intid` from its parent, if it has one; the node
    /// stays in the store. Fails, changing nothing, where the key names no node.
    pub fn detach(&mut self, child_intid: IntId) -> (r: bool)
        requires
            old(self).wf(),
        ensures
            final(self).wf(),
            final(self).spec_index() == old(self).spec_index(),
            r == valid(old(self)@, child_intid),
            r ==> final(self)@ == spec_detach(old(self)@, child_intid),
            !r ==> final(self)@ == old(self)@,
    {
        let ghost s0 = self@;
        let oldparent = match self.elements.get_mut(child_intid) {
            Some(child) => {
                let tmp = child.get_parent();
                child.set_parent(None);
                tmp
            },
            None => {
                proof {
                    assert(!valid(s0, child_intid));
                }
                return false;
            },
        };
        proof {
            assert(self@ =~= s0.update(
                child_intid as int,
                Some(ElementView { parent: None, ..node(s0, child_intid) }),
            ));
        }
        let ghost s1 = self@;
        match oldparent {
            Some(op) => {
                match self.elements.get_mut(op) {
                    Some(former) => {
                        match former.index(&DataType::Element(child_intid)) {
                            Some(i) => {
                                former.remove(i);
                            },
                            None => {},
                        }
                    },
                    None => {},
                }
                proof {
                    if valid(s1, op) {
                        match first_same(node(s1, op).data, DataType::Element(child_intid)) {
                            Some(i) => {
                                assert(self@ =~= s1.update(
                                    op as int,
                                    Some(ElementView { data: node(s1, op).data.remove(i), ..node(s1, op) }),
                                ));
                            },
                            None => {
                                assert(self@ =~= s1);
                            },
                        }
                    } else {
                        assert(self@ =~= s1);
                    }
                }
            },
            None => {},
        }
        true
    }

    /// Whether the store already indexes the identity of a node.
    pub open spec fn holds_identity(&self, v: ElementView) -> bool {
        id_of(v.attribs) matches Some(id) && self.spec_index().contains_key(id)
    }

    /// Add a node and return its key. A node whose identity the store already
    /// holds is not added again: the key of the stored node is returned.
    pub fn add(&mut self, item: FoliaElement) -> (r: Result<IntId, FoliaError>)
        requires
            old(self).wf(),
        ensures
            final(self).wf(),
            old(self).holds_identity(item@) ==> r == Ok::<IntId, FoliaError>(
                old(self).spec_index()[id_of(item@.attribs)->0],
            ) && final(self)@ == old(self)@ && final(self).spec_index() == old(self).spec_index()
                && valid(old(self)@, r->Ok_0),
            !old(self).holds_identity(item@) && old(self)@.len() > u32::MAX ==> (r matches Err(
                FoliaError::InternalError(_),
            )) && final(self)@ == old(self)@,
            !old(self).holds_identity(item@) && old(self)@.len() <= u32::MAX ==> r == Ok::<
                IntId,
                FoliaError,
            >(old(self)@.len() as IntId) && final(self)@ == old(self)@.push(Some(item@))
                && final(self).spec_index() == match id_of(item@.attribs) {
                Some(id) => old(self).spec_index().insert(id, old(self)@.len() as IntId),
                None => old(self).spec_index(),
            },
            consistent(old(self)@) && detached_node(item@) ==> consistent(final(self)@),
    {
        let ghost s0 = self@;
        let ghost v = item@;
        let r = self.elements.add(item);
        proof {
            if !(id_of(v.attribs) matches Some(id) && old(self).spec_index().contains_key(id)) {
                if r is Ok {
                    assert(self@ =~= s0.push(Some(v)));
                    if consistent(s0) && detached_node(v) {
                        lemma_push_consistent(s0, v);
                    }
                }
            } else {
                old(self).elements.lemma_index_names_item(id_of(v.attribs)->0);
            }
        }
        r
    }

    /// Add a node and attach it under a parent, in one step; the key of the
    /// node is returned. A node whose identity the store already holds is not
    /// added again: the stored node is attached instead.
    pub fn add_to(&mut self, parent_intid: IntId, child: FoliaElement) -> (r: Result<IntId, FoliaError>)
        requires
            old(self).wf(),
        ensures
            final(self).wf(),
            old(self).holds_identity(child@) ==> ({
                let k = old(self).spec_index()[id_of(child@.attribs)->0];
                &&& r == Ok::<IntId, FoliaError>(k)
                &&& final(self)@ == if valid(old(self)@, parent_intid) {
                    spec_attach(old(self)@, parent_intid, k)
                } else {
                    old(self)@
                }
            }),
            !old(self).holds_identity(child@) && old(self)@.len() > u32::MAX ==> (r matches Err(
                FoliaError::InternalError(_),
            )) && final(self)@ == old(self)@,
            !old(self).holds_identity(child@) && old(self)@.len() <= u32::MAX ==> ({
                let k = old(self)@.len() as IntId;
                let s1 = old(self)@.push(Some(child@));
                &&& r == Ok::<IntId, FoliaError>(k)
                &&& final(self)@ == if valid(s1, parent_intid) {
                    spec_attach(s1, parent_intid, k)
                } else {
                    s1
                }
            }),
            consistent(old(self)@) && detached_node(child@) ==> consistent(final(self)@),
    {
        let ghost v = child@;
        let child_intid = match self.add(child) {
            Ok(k) => k,
            Err(e) => {
                return Err(e);
            },
        };
        let ghost s1 = self@;
        proof {
            if !old(self).holds_identity(v) {
                assert(valid(s1, child_intid));
            }
        }
        self.attach(parent_intid, child_intid);
        proof {
            if consistent(s1) && valid(s1, parent_intid) {
                lemma_attach_consistent(s1, parent_intid, child_intid);
            }
        }
        Ok(child_intid)
    }
}

} // verus!
