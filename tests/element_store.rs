use folia::{
    AttribType, Attribute, DataType, ElementStore, ElementType, FoliaElement, FromStore, IntoStore,
};

fn count(store: &ElementStore, m: u32, c: u32) -> usize {
    let node = store.get(m).unwrap();
    (0..node.len()).filter(|i| node.get(*i) == Some(&DataType::Element(c))).count()
}

#[test]
fn same_identity_gives_same_key() {
    let mut store = ElementStore::new();
    let a = FoliaElement::new(ElementType::Word).with_attrib(Attribute::Id("x".to_string()));
    let b = FoliaElement::new(ElementType::Sentence).with_attrib(Attribute::Id("x".to_string()));
    let ka = store.add(a).unwrap();
    let kb = store.add(b).unwrap();
    assert_eq!(ka, kb);
    assert_eq!(store.len(), 1);
    assert_eq!(store.get(ka).unwrap().elementtype, ElementType::Word);
}

#[test]
fn unidentified_nodes_get_fresh_keys() {
    let mut store = ElementStore::new();
    assert!(store.is_empty());
    let k0 = store.add(FoliaElement::new(ElementType::Word)).unwrap();
    let k1 = store.add(FoliaElement::new(ElementType::Word)).unwrap();
    assert_eq!((k0, k1), (0, 1));
    assert_eq!(store.len(), 2);
    assert!(store.get(2).is_none());
}

#[test]
fn attach_then_attach_elsewhere_moves_the_child() {
    let mut store = ElementStore::new();
    let p = store.add(FoliaElement::new(ElementType::Paragraph)).unwrap();
    let q = store.add(FoliaElement::new(ElementType::Paragraph)).unwrap();
    let c = store.add(FoliaElement::new(ElementType::Sentence)).unwrap();
    assert!(store.attach(p, c));
    assert_eq!(count(&store, p, c), 1);
    assert!(store.attach(q, c));
    assert_eq!(store.get(c).unwrap().get_parent(), Some(q));
    assert_eq!(count(&store, q, c), 1);
    assert_eq!(count(&store, p, c), 0);
}

#[test]
fn detach_clears_parent_and_content_and_repeats_harmlessly() {
    let mut store = ElementStore::new();
    let p = store.add(FoliaElement::new(ElementType::Paragraph)).unwrap();
    let c = store.add_to(p, FoliaElement::new(ElementType::Sentence)).unwrap();
    assert_eq!(count(&store, p, c), 1);
    assert!(store.detach(c));
    assert_eq!(store.get(c).unwrap().get_parent(), None);
    assert_eq!(count(&store, p, c), 0);
    assert_eq!(count(&store, c, c), 0);
    assert!(store.detach(c));
    assert_eq!(store.get(c).unwrap().get_parent(), None);
    assert_eq!(store.get(p).unwrap().len(), 0);
    assert!(store.get(c).is_some());
}

#[test]
fn attach_to_missing_parent_fails_and_changes_nothing() {
    let mut store = ElementStore::new();
    let p = store.add(FoliaElement::new(ElementType::Paragraph)).unwrap();
    let c = store.add_to(p, FoliaElement::new(ElementType::Sentence)).unwrap();
    assert!(!store.attach(99, c));
    assert_eq!(store.get(c).unwrap().get_parent(), Some(p));
    assert_eq!(count(&store, p, c), 1);
    assert!(!store.attach(p, 99));
    assert!(!store.detach(99));
}

#[test]
fn reattaching_to_the_same_parent_keeps_one_reference() {
    let mut store = ElementStore::new();
    let p = store.add(FoliaElement::new(ElementType::Paragraph)).unwrap();
    let a = store.add_to(p, FoliaElement::new(ElementType::Sentence)).unwrap();
    let b = store.add_to(p, FoliaElement::new(ElementType::Sentence)).unwrap();
    assert!(store.attach(p, a));
    let parent = store.get(p).unwrap();
    assert_eq!(parent.len(), 2);
    assert_eq!(parent.get(0), Some(&DataType::Element(b)));
    assert_eq!(parent.get(1), Some(&DataType::Element(a)));
}

#[test]
fn sentence_with_three_words() {
    let mut store = ElementStore::new();
    let body = store.add(FoliaElement::new(ElementType::Text)).unwrap();
    let s = store
        .add_to(body, FoliaElement::new(ElementType::Sentence).with_attrib(Attribute::Id("s.1".to_string())))
        .unwrap();
    let mut words = Vec::new();
    for class in ["WORD", "WORD", "PUNCTUATION"] {
        let w = FoliaElement::new(ElementType::Word).with_attrib(Attribute::Class(class.to_string()));
        words.push(store.add_to(s, w).unwrap());
    }
    let sentence = store.get(s).unwrap();
    assert_eq!(sentence.len(), 3);
    for (i, w) in words.iter().enumerate() {
        assert_eq!(sentence.get(i), Some(&DataType::Element(*w)));
        assert_eq!(store.get(*w).unwrap().get_parent(), Some(s));
    }
    assert_eq!(store.get(words[2]).unwrap().class(), Some("PUNCTUATION".to_string()));
    assert_eq!(store.id_to_key("s.1"), Some(s));
    let found = store.get_by_id("s.1").unwrap();
    assert_eq!(found.elementtype, ElementType::Sentence);
    assert!(store.get_by_id("s.2").is_none());
    assert_eq!(store.get(body).unwrap().get(0), Some(&DataType::Element(s)));
}

#[test]
fn add_to_with_known_identity_attaches_the_stored_node() {
    let mut store = ElementStore::new();
    let p = store.add(FoliaElement::new(ElementType::Paragraph)).unwrap();
    let q = store.add(FoliaElement::new(ElementType::Paragraph)).unwrap();
    let s = store
        .add_to(p, FoliaElement::new(ElementType::Sentence).with_attrib(Attribute::Id("s.1".to_string())))
        .unwrap();
    let again = store
        .add_to(q, FoliaElement::new(ElementType::Sentence).with_attrib(Attribute::Id("s.1".to_string())))
        .unwrap();
    assert_eq!(again, s);
    assert_eq!(store.len(), 3);
    assert_eq!(store.get(s).unwrap().get_parent(), Some(q));
    assert_eq!(count(&store, p, s), 0);
    assert_eq!(count(&store, q, s), 1);
}

#[test]
fn store_owner_traits() {
    let mut store = ElementStore::new();
    let k = IntoStore::add(&mut store, FoliaElement::new(ElementType::Word).with_attrib(Attribute::Id("w".to_string()))).unwrap();
    assert_eq!(FromStore::id_to_key(&store, "w"), Some(k));
    assert!(FromStore::get(&store, k).is_some());
    assert!(FromStore::get_by_id(&store, "w").unwrap().has_attrib(AttribType::ID));
    let probe = FoliaElement::new(ElementType::Word).with_attrib(Attribute::Id("w".to_string()));
    assert_eq!(FromStore::get_key(&store, &probe), Some(k));
}
