use folia::{AnnotationType, ElementType, FoliaError};

const TAGS: [&str; 110] = [
    "actor",
    "alt",
    "altlayers",
    "begindatetime",
    "caption",
    "cell",
    "chunk",
    "chunking",
    "comment",
    "content",
    "coreferencechain",
    "coreferences",
    "coreferencelink",
    "correction",
    "current",
    "def",
    "dependencies",
    "dependency",
    "dep",
    "desc",
    "div",
    "domain",
    "enddatetime",
    "entities",
    "entity",
    "entry",
    "errordetection",
    "event",
    "ex",
    "external",
    "feat",
    "figure",
    "foreign-data",
    "function",
    "gap",
    "head",
    "headfeature",
    "hd",
    "hiddenw",
    "t-hbr",
    "label",
    "lang",
    "lemma",
    "level",
    "br",
    "xref",
    "list",
    "item",
    "metric",
    "modality",
    "morpheme",
    "morphology",
    "new",
    "note",
    "observation",
    "observations",
    "original",
    "p",
    "part",
    "ph",
    "phoneme",
    "phonology",
    "polarity",
    "pos",
    "predicate",
    "quote",
    "ref",
    "relation",
    "row",
    "semrole",
    "semroles",
    "sense",
    "s",
    "sentiment",
    "sentiments",
    "source",
    "spanrelation",
    "spanrelations",
    "speech",
    "statement",
    "statements",
    "rel",
    "strength",
    "str",
    "style",
    "subjectivity",
    "suggestion",
    "synset",
    "su",
    "syntax",
    "table",
    "tablehead",
    "target",
    "term",
    "text",
    "t",
    "t-correction",
    "t-error",
    "t-gap",
    "t-ref",
    "t-str",
    "t-style",
    "time",
    "timesegment",
    "timing",
    "utt",
    "value",
    "whitespace",
    "w",
    "wref",
];

#[test]
fn every_tag_reads_back_as_itself() {
    for tag in TAGS.iter() {
        let kind = ElementType::from_str(tag).unwrap();
        assert_eq!(kind.as_str(), *tag);
    }
}

#[test]
fn tags_are_distinct() {
    for (i, a) in TAGS.iter().enumerate() {
        for b in TAGS.iter().skip(i + 1) {
            assert_ne!(a, b);
        }
    }
}

#[test]
fn known_tags_give_their_kinds() {
    assert_eq!(ElementType::from_str("s").unwrap(), ElementType::Sentence);
    assert_eq!(ElementType::from_str("w").unwrap(), ElementType::Word);
    assert_eq!(ElementType::from_str("foreign-data").unwrap(), ElementType::ForeignData);
    assert_eq!(ElementType::from_str("t-hbr").unwrap(), ElementType::Hyphbreak);
    assert_eq!(ElementType::TextContent.as_str(), "t");
    assert_eq!(ElementType::String.as_str(), "str");
}

#[test]
fn unknown_tag_is_a_parse_error_naming_it() {
    match ElementType::from_str("bogus") {
        Err(FoliaError::ParseError(m)) => {
            assert!(m.contains("bogus"));
            assert_eq!(m, "Unknown tag has no associated element type: bogus");
        }
        other => panic!("unexpected {:?}", other),
    }
    assert!(ElementType::from_str("").is_err());
    assert!(ElementType::from_str("S").is_err());
}

#[test]
fn annotation_types_map_to_primary_elements() {
    assert_eq!(AnnotationType::TOKEN.element_type(), ElementType::Word);
    assert_eq!(AnnotationType::SENTENCE.element_type(), ElementType::Sentence);
    assert_eq!(AnnotationType::TEXT.element_type(), ElementType::TextContent);
    assert_eq!(AnnotationType::HIDDENTOKEN.element_type(), ElementType::Hiddenword);
    assert_eq!(AnnotationType::RAWCONTENT.as_str(), "content");
    assert_eq!(AnnotationType::STYLE.as_str(), "t-style");
}

#[test]
fn annotation_tags_agree_with_element_tags() {
    let all = [
        AnnotationType::TEXT,
        AnnotationType::TOKEN,
        AnnotationType::DIVISION,
        AnnotationType::PARAGRAPH,
        AnnotationType::HEAD,
        AnnotationType::LIST,
        AnnotationType::FIGURE,
        AnnotationType::WHITESPACE,
        AnnotationType::LINEBREAK,
        AnnotationType::SENTENCE,
        AnnotationType::POS,
        AnnotationType::LEMMA,
        AnnotationType::DOMAIN,
        AnnotationType::SENSE,
        AnnotationType::SYNTAX,
        AnnotationType::CHUNKING,
        AnnotationType::ENTITY,
        AnnotationType::CORRECTION,
        AnnotationType::ERRORDETECTION,
        AnnotationType::PHON,
        AnnotationType::SUBJECTIVITY,
        AnnotationType::MORPHOLOGICAL,
        AnnotationType::EVENT,
        AnnotationType::DEPENDENCY,
        AnnotationType::TIMESEGMENT,
        AnnotationType::GAP,
        AnnotationType::QUOTE,
        AnnotationType::NOTE,
        AnnotationType::REFERENCE,
        AnnotationType::RELATION,
        AnnotationType::SPANRELATION,
        AnnotationType::COREFERENCE,
        AnnotationType::SEMROLE,
        AnnotationType::METRIC,
        AnnotationType::LANG,
        AnnotationType::STRING,
        AnnotationType::TABLE,
        AnnotationType::STYLE,
        AnnotationType::PART,
        AnnotationType::UTTERANCE,
        AnnotationType::ENTRY,
        AnnotationType::TERM,
        AnnotationType::DEFINITION,
        AnnotationType::EXAMPLE,
        AnnotationType::PHONOLOGICAL,
        AnnotationType::PREDICATE,
        AnnotationType::OBSERVATION,
        AnnotationType::SENTIMENT,
        AnnotationType::STATEMENT,
        AnnotationType::ALTERNATIVE,
        AnnotationType::RAWCONTENT,
        AnnotationType::COMMENT,
        AnnotationType::DESCRIPTION,
        AnnotationType::HYPHENATION,
        AnnotationType::HIDDENTOKEN,
    ];
    for a in all.iter() {
        assert_eq!(a.as_str(), a.element_type().as_str());
        assert_eq!(ElementType::from_str(a.as_str()).unwrap(), a.element_type());
    }
}
