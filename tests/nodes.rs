use folia::{AttribType, Attribute, DataType, ElementType, FoliaElement, FoliaError};

#[test]
fn setting_an_attribute_twice_keeps_the_second() {
    let mut e = FoliaElement::new(ElementType::Word);
    e.set_attrib(Attribute::Class("WORD".to_string()));
    e.set_attrib(Attribute::Class("PUNCTUATION".to_string()));
    assert_eq!(e.attribs.len(), 1);
    assert_eq!(e.class(), Some("PUNCTUATION".to_string()));
}

#[test]
fn setting_an_attribute_removes_every_duplicate() {
    let mut e = FoliaElement::new(ElementType::Word).with_attribs(vec![
        Attribute::Class("a".to_string()),
        Attribute::Id("w.1".to_string()),
        Attribute::Class("b".to_string()),
    ]);
    e.set_attrib(Attribute::Class("c".to_string()));
    assert_eq!(e.attribs.len(), 2);
    assert_eq!(e.id(), Some("w.1".to_string()));
    assert_eq!(e.class(), Some("c".to_string()));
}

#[test]
fn attribute_lookup_and_removal() {
    let mut e = FoliaElement::new(ElementType::Sentence)
        .with_attrib(Attribute::Id("s.1".to_string()))
        .with_attrib(Attribute::AnnotationSet("set.1".to_string()))
        .with_attrib(Attribute::Processor("tokeniser".to_string()))
        .with_attrib(Attribute::Confidence("0.9".to_string()));
    assert!(e.has_attrib(AttribType::ID));
    assert_eq!(e.set(), Some("set.1".to_string()));
    assert_eq!(e.processor(), Some("tokeniser".to_string()));
    assert_eq!(e.attrib_string(AttribType::CONFIDENCE), None);
    assert!(e.attrib(AttribType::CONFIDENCE).is_some());
    assert!(e.attrib(AttribType::CLASS).is_none());
    let removed = e.del_attrib(AttribType::ID);
    assert!(matches!(removed, Some(Attribute::Id(ref s)) if s == "s.1"));
    assert!(!e.has_attrib(AttribType::ID));
    assert!(e.del_attrib(AttribType::ID).is_none());
    assert_eq!(e.id(), None);
}

#[test]
fn content_sequence_operations() {
    let mut e = FoliaElement::new(ElementType::Paragraph)
        .with(DataType::text("Hello"))
        .with_data(vec![DataType::Element(4), DataType::comment("note")]);
    e.push(DataType::Element(7));
    assert_eq!(e.len(), 4);
    assert_eq!(e.get(0), Some(&DataType::Text("Hello".to_string())));
    assert_eq!(e.get(4), None);
    assert_eq!(e.index(&DataType::Element(7)), Some(3));
    assert_eq!(e.index(&DataType::Comment("note".to_string())), Some(2));
    assert_eq!(e.index(&DataType::Text("note".to_string())), None);
    assert_eq!(e.remove(1), Some(DataType::Element(4)));
    assert_eq!(e.remove(9), None);
    assert_eq!(e.len(), 3);
    assert_eq!(e.index(&DataType::Element(7)), Some(2));
}

#[test]
fn parent_accessors() {
    let mut e = FoliaElement::new(ElementType::Word).with_parent(Some(3));
    assert_eq!(e.get_parent(), Some(3));
    e.set_parent(None);
    assert_eq!(e.get_parent(), None);
}

#[test]
fn parse_start_tag() {
    let start = b"w xml:id=\"w.1\" class=\"WORD\" space=\"no\"";
    let e = FoliaElement::parse(start, 1).unwrap();
    assert_eq!(e.elementtype, ElementType::Word);
    assert_eq!(e.id(), Some("w.1".to_string()));
    assert_eq!(e.class(), Some("WORD".to_string()));
    assert!(matches!(e.attrib(AttribType::SPACE), Some(Attribute::Space(false))));
    assert_eq!(e.len(), 0);
    assert_eq!(e.get_parent(), None);
}

#[test]
fn parse_start_tag_with_prefix() {
    let e = FoliaElement::parse(b"folia:s xml:id=\"s.1\"", 7).unwrap();
    assert_eq!(e.elementtype, ElementType::Sentence);
}

#[test]
fn parse_start_tag_failures() {
    match FoliaElement::parse(b"bogus", 5) {
        Err(FoliaError::ParseError(m)) => assert!(m.contains("bogus")),
        _ => panic!("expected a parse error"),
    }
    match FoliaElement::parse(b"w confidence=\"abc\"", 1) {
        Err(FoliaError::ParseError(m)) => assert!(m.contains("abc")),
        _ => panic!("expected a parse error"),
    }
    assert!(FoliaElement::parse(b"w", 4).is_err());
    assert!(FoliaElement::parse(b"w class=WORD", 1).is_err());
}

#[test]
fn parse_attribute_list_fails_on_first_error() {
    let attribs = vec![
        (b"class".to_vec(), b"WORD".to_vec()),
        (b"space".to_vec(), b"maybe".to_vec()),
        (b"bogus".to_vec(), b"x".to_vec()),
    ];
    match FoliaElement::parse_attributes(&attribs) {
        Err(FoliaError::ParseError(m)) => assert!(m.contains("maybe")),
        _ => panic!("expected a parse error"),
    }
    let ok = FoliaElement::parse_attributes(&attribs[..1].to_vec()).unwrap();
    assert_eq!(ok.len(), 1);
}
