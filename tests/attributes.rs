use folia::{AttribType, Attribute, FoliaError};

fn parse_error(r: Result<Attribute, FoliaError>) -> String {
    match r {
        Err(FoliaError::ParseError(m)) => m,
        other => panic!("expected a parse error, got {:?}", other),
    }
}

#[test]
fn confidence_that_is_no_number_fails_naming_the_text() {
    let m = parse_error(Attribute::parse(b"confidence", b"abc"));
    assert!(m.contains("abc"));
    assert_eq!(m, "Invalid confidence value: 'abc'");
}

#[test]
fn confidence_numerals_are_accepted() {
    for text in ["0.5", "1", "0", ".5", "5.", "1e-3", "+0.25", "-1E+2", "inf", "-Infinity", "NaN"] {
        match Attribute::parse(b"confidence", text.as_bytes()) {
            Ok(Attribute::Confidence(v)) => assert_eq!(v, text),
            other => panic!("{} gave {:?}", text, other),
        }
    }
}

#[test]
fn confidence_malformed_numerals_are_refused() {
    for text in ["", ".", "1.2.3", "e5", "1e", "1e+", "--1", "0x10", "infinit", "1 "] {
        assert!(Attribute::parse(b"confidence", text.as_bytes()).is_err(), "{}", text);
    }
}

#[test]
fn space_reads_yes_true_no_false() {
    assert!(matches!(Attribute::parse(b"space", b"yes"), Ok(Attribute::Space(true))));
    assert!(matches!(Attribute::parse(b"space", b"true"), Ok(Attribute::Space(true))));
    assert!(matches!(Attribute::parse(b"space", b"no"), Ok(Attribute::Space(false))));
    assert!(matches!(Attribute::parse(b"space", b"false"), Ok(Attribute::Space(false))));
}

#[test]
fn space_other_value_fails_naming_it() {
    let m = parse_error(Attribute::parse(b"space", b"maybe"));
    assert!(m.contains("maybe"));
    assert_eq!(m, "Invalid space value: 'maybe'");
}

#[test]
fn unknown_attribute_fails_naming_it() {
    let m = parse_error(Attribute::parse(b"bogus", b"x"));
    assert_eq!(m, "Unknown attribute: 'bogus'");
}

#[test]
fn wire_names_map_to_their_types() {
    let cases: [(&[u8], AttribType); 20] = [
        (b"xml:id", AttribType::ID),
        (b"set", AttribType::SET),
        (b"class", AttribType::CLASS),
        (b"processor", AttribType::PROCESSOR),
        (b"annotator", AttribType::ANNOTATOR),
        (b"annotatortype", AttribType::ANNOTATORTYPE),
        (b"subset", AttribType::SUBSET),
        (b"xlink:format", AttribType::FORMAT),
        (b"xlink:href", AttribType::HREF),
        (b"speaker", AttribType::SPEAKER),
        (b"src", AttribType::SRC),
        (b"n", AttribType::N),
        (b"datetime", AttribType::DATETIME),
        (b"begintime", AttribType::BEGINTIME),
        (b"endtime", AttribType::ENDTIME),
        (b"textclass", AttribType::TEXTCLASS),
        (b"metadata", AttribType::METADATA),
        (b"idref", AttribType::IDREF),
        (b"confidence", AttribType::CONFIDENCE),
        (b"space", AttribType::SPACE),
    ];
    for (name, t) in cases.iter() {
        let value: &[u8] = if *t == AttribType::SPACE { b"yes" } else { b"1" };
        let a = Attribute::parse(name, value).unwrap();
        assert_eq!(a.attribtype(), *t);
    }
}

#[test]
fn values_are_unescaped() {
    let a = Attribute::parse(b"class", b"a&amp;b &lt;c&gt; &#65;").unwrap();
    assert_eq!(a.value(), "a&b <c> A");
    let b = Attribute::parse(b"xml:id", b"plain").unwrap();
    assert_eq!(b.value(), "plain");
}

#[test]
fn bad_escape_or_encoding_fails() {
    let m = parse_error(Attribute::parse(b"class", b"a&bogus;b"));
    assert_eq!(m, "Unable to parse attribute value (invalid utf-8?)");
    let m = parse_error(Attribute::parse(b"class", &[0xff, 0xfe]));
    assert_eq!(m, "Unable to parse attribute value (invalid utf-8?)");
}

#[test]
fn value_of_each_kind() {
    assert_eq!(Attribute::Id("s.1".to_string()).value(), "s.1");
    assert_eq!(Attribute::Space(true).value(), "yes");
    assert_eq!(Attribute::Space(false).value(), "no");
    assert_eq!(Attribute::Confidence("0.75".to_string()).value(), "0.75");
}

#[test]
fn type_classes_collapse_related_types() {
    assert_eq!(Attribute::AnnotationSet("x".to_string()).attribtypeclass(), AttribType::CLASS);
    assert_eq!(Attribute::Class("x".to_string()).attribtypeclass(), AttribType::CLASS);
    assert_eq!(Attribute::Processor("p".to_string()).attribtypeclass(), AttribType::ANNOTATOR);
    assert_eq!(Attribute::AnnotatorType("m".to_string()).attribtypeclass(), AttribType::ANNOTATOR);
    assert_eq!(Attribute::Annotator("a".to_string()).attribtypeclass(), AttribType::ANNOTATOR);
    assert_eq!(Attribute::N("1".to_string()).attribtypeclass(), AttribType::N);
}

#[test]
fn sametype_compares_types() {
    let a = Attribute::Class("a".to_string());
    let b = Attribute::Class("b".to_string());
    let c = Attribute::AnnotationSet("a".to_string());
    assert!(a.sametype(&b));
    assert!(!a.sametype(&c));
}

#[test]
fn attribute_type_names() {
    assert_eq!(AttribType::ID.as_str(), "xml:id");
    assert_eq!(AttribType::IDREF.as_str(), "id");
    assert_eq!(AttribType::HREF.as_str(), "href");
}
