use vstd::prelude::*;
use vstd::string::StringExecFns;
use vstd::utf8::*;

use crate::attrib::{spec_parse, AttribType, Attribute};
use crate::error::FoliaError;
use crate::store::IntId;
use crate::text::{concat2, str_eq};
use crate::xml::{attributes_of, decode_utf8_bytes, pairs_view, start_tag_attributes};

verus! {

/// The kind of a node. Each kind has one wire tag, and no two kinds share a tag.
#[derive(Debug, Clone, Copy, PartialEq, Eq, Structural)]
pub enum ElementType {
    ActorFeature,
    Alternative,
    AlternativeLayers,
    BegindatetimeFeature,
    Caption,
    Cell,
    Chunk,
    ChunkingLayer,
    Comment,
    Content,
    CoreferenceChain,
    CoreferenceLayer,
    CoreferenceLink,
    Correction,
    Current,
    Definition,
    DependenciesLayer,
    Dependency,
    DependencyDependent,
    Description,
    Division,
    DomainAnnotation,
    EnddatetimeFeature,
    EntitiesLayer,
    Entity,
    Entry,
    ErrorDetection,
    Event,
    Example,
    External,
    Feature,
    Figure,
    ForeignData,
    FunctionFeature,
    Gap,
    Head,
    HeadFeature,
    Headspan,
    Hiddenword,
    Hyphbreak,
    Label,
    LangAnnotation,
    LemmaAnnotation,
    LevelFeature,
    Linebreak,
    LinkReference,
    List,
    ListItem,
    Metric,
    ModalityFeature,
    Morpheme,
    MorphologyLayer,
    New,
    Note,
    Observation,
    ObservationLayer,
    Original,
    Paragraph,
    Part,
    PhonContent,
    Phoneme,
    PhonologyLayer,
    PolarityFeature,
    PosAnnotation,
    Predicate,
    Quote,
    Reference,
    Relation,
    Row,
    SemanticRole,
    SemanticRolesLayer,
    SenseAnnotation,
    Sentence,
    Sentiment,
    SentimentLayer,
    Source,
    SpanRelation,
    SpanRelationLayer,
    Speech,
    Statement,
    StatementLayer,
    StatementRelation,
    StrengthFeature,
    String,
    StyleFeature,
    SubjectivityAnnotation,
    Suggestion,
    SynsetFeature,
    SyntacticUnit,
    SyntaxLayer,
    Table,
    TableHead,
    Target,
    Term,
    Text,
    TextContent,
    TextMarkupCorrection,
    TextMarkupError,
    TextMarkupGap,
    TextMarkupReference,
    TextMarkupString,
    TextMarkupStyle,
    TimeFeature,
    TimeSegment,
    TimingLayer,
    Utterance,
    ValueFeature,
    Whitespace,
    Word,
    WordReference,
}

/// The coarser semantic category of markup; each is realised by one primary
/// element type.
#[derive(Debug, Clone, Copy, PartialEq, Eq, Structural)]
pub enum AnnotationType {
    TEXT,
    TOKEN,
    DIVISION,
    PARAGRAPH,
    HEAD,
    LIST,
    FIGURE,
    WHITESPACE,
    LINEBREAK,
    SENTENCE,
    POS,
    LEMMA,
    DOMAIN,
    SENSE,
    SYNTAX,
    CHUNKING,
    ENTITY,
    CORRECTION,
    ERRORDETECTION,
    PHON,
    SUBJECTIVITY,
    MORPHOLOGICAL,
    EVENT,
    DEPENDENCY,
    TIMESEGMENT,
    GAP,
    QUOTE,
    NOTE,
    REFERENCE,
    RELATION,
    SPANRELATION,
    COREFERENCE,
    SEMROLE,
    METRIC,
    LANG,
    STRING,
    TABLE,
    STYLE,
    PART,
    UTTERANCE,
    ENTRY,
    TERM,
    DEFINITION,
    EXAMPLE,
    PHONOLOGICAL,
    PREDICATE,
    OBSERVATION,
    SENTIMENT,
    STATEMENT,
    ALTERNATIVE,
    RAWCONTENT,
    COMMENT,
    DESCRIPTION,
    HYPHENATION,
    HIDDENTOKEN,
}

impl ElementType {
    /// The wire tag of the element type.
    pub open spec fn spec_as_str(self) -> Seq<char> {
        match self {
            ElementType::ActorFeature => "actor"@,
            ElementType::Alternative => "alt"@,
            ElementType::AlternativeLayers => "altlayers"@,
            ElementType::BegindatetimeFeature => "begindatetime"@,
            ElementType::Caption => "caption"@,
            ElementType::Cell => "cell"@,
            ElementType::Chunk => "chunk"@,
            ElementType::ChunkingLayer => "chunking"@,
            ElementType::Comment => "comment"@,
            ElementType::Content => "content"@,
            ElementType::CoreferenceChain => "coreferencechain"@,
            ElementType::CoreferenceLayer => "coreferences"@,
            ElementType::CoreferenceLink => "coreferencelink"@,
            ElementType::Correction => "correction"@,
            ElementType::Current => "current"@,
            ElementType::Definition => "def"@,
            ElementType::DependenciesLayer => "dependencies"@,
            ElementType::Dependency => "dependency"@,
            ElementType::DependencyDependent => "dep"@,
            ElementType::Description => "desc"@,
            ElementType::Division => "div"@,
            ElementType::DomainAnnotation => "domain"@,
            ElementType::EnddatetimeFeature => "enddatetime"@,
            ElementType::EntitiesLayer => "entities"@,
            ElementType::Entity => "entity"@,
            ElementType::Entry => "entry"@,
            ElementType::ErrorDetection => "errordetection"@,
            ElementType::Event => "event"@,
            ElementType::Example => "ex"@,
            ElementType::External => "external"@,
            ElementType::Feature => "feat"@,
            ElementType::Figure => "figure"@,
            ElementType::ForeignData => "foreign-data"@,
            ElementType::FunctionFeature => "function"@,
            ElementType::Gap => "gap"@,
            ElementType::Head => "head"@,
            ElementType::HeadFeature => "headfeature"@,
            ElementType::Headspan => "hd"@,
            ElementType::Hiddenword => "hiddenw"@,
            ElementType::Hyphbreak => "t-hbr"@,
            ElementType::Label => "label"@,
            ElementType::LangAnnotation => "lang"@,
            ElementType::LemmaAnnotation => "lemma"@,
            ElementType::LevelFeature => "level"@,
            ElementType::Linebreak => "br"@,
            ElementType::LinkReference => "xref"@,
            ElementType::List => "list"@,
            ElementType::ListItem => "item"@,
            ElementType::Metric => "metric"@,
            ElementType::ModalityFeature => "modality"@,
            ElementType::Morpheme => "morpheme"@,
            ElementType::MorphologyLayer => "morphology"@,
            ElementType::New => "new"@,
            ElementType::Note => "note"@,
            ElementType::Observation => "observation"@,
            ElementType::ObservationLayer => "observations"@,
            ElementType::Original => "original"@,
            ElementType::Paragraph => "p"@,
            ElementType::Part => "part"@,
            ElementType::PhonContent => "ph"@,
            ElementType::Phoneme => "phoneme"@,
            ElementType::PhonologyLayer => "phonology"@,
            ElementType::PolarityFeature => "polarity"@,
            ElementType::PosAnnotation => "pos"@,
            ElementType::Predicate => "predicate"@,
            ElementType::Quote => "quote"@,
            ElementType::Reference => "ref"@,
            ElementType::Relation => "relation"@,
            ElementType::Row => "row"@,
            ElementType::SemanticRole => "semrole"@,
            ElementType::SemanticRolesLayer => "semroles"@,
            ElementType::SenseAnnotation => "sense"@,
            ElementType::Sentence => "s"@,
            ElementType::Sentiment => "sentiment"@,
            ElementType::SentimentLayer => "sentiments"@,
            ElementType::Source => "source"@,
            ElementType::SpanRelation => "spanrelation"@,
            ElementType::SpanRelationLayer => "spanrelations"@,
            ElementType::Speech => "speech"@,
            ElementType::Statement => "statement"@,
            ElementType::StatementLayer => "statements"@,
            ElementType::StatementRelation => "rel"@,
            ElementType::StrengthFeature => "strength"@,
            ElementType::String => "str"@,
            ElementType::StyleFeature => "style"@,
            ElementType::SubjectivityAnnotation => "subjectivity"@,
            ElementType::Suggestion => "suggestion"@,
            ElementType::SynsetFeature => "synset"@,
            ElementType::SyntacticUnit => "su"@,
            ElementType::SyntaxLayer => "syntax"@,
            ElementType::Table => "table"@,
            ElementType::TableHead => "tablehead"@,
            ElementType::Target => "target"@,
            ElementType::Term => "term"@,
            ElementType::Text => "text"@,
            ElementType::TextContent => "t"@,
            ElementType::TextMarkupCorrection => "t-correction"@,
            ElementType::TextMarkupError => "t-error"@,
            ElementType::TextMarkupGap => "t-gap"@,
            ElementType::TextMarkupReference => "t-ref"@,
            ElementType::TextMarkupString => "t-str"@,
            ElementType::TextMarkupStyle => "t-style"@,
            ElementType::TimeFeature => "time"@,
            ElementType::TimeSegment => "timesegment"@,
            ElementType::TimingLayer => "timing"@,
            ElementType::Utterance => "utt"@,
            ElementType::ValueFeature => "value"@,
            ElementType::Whitespace => "whitespace"@,
            ElementType::Word => "w"@,
            ElementType::WordReference => "wref"@,
        }
    }

    /// The wire tag of the element type.
    pub fn as_str(&self) -> (r: &'static str)
        ensures
            r@ == self.spec_as_str(),
    {
        match self {
            ElementType::ActorFeature => "actor",
            ElementType::Alternative => "alt",
            ElementType::AlternativeLayers => "altlayers",
            ElementType::BegindatetimeFeature => "begindatetime",
            ElementType::Caption => "caption",
            ElementType::Cell => "cell",
            ElementType::Chunk => "chunk",
            ElementType::ChunkingLayer => "chunking",
            ElementType::Comment => "comment",
            ElementType::Content => "content",
            ElementType::CoreferenceChain => "coreferencechain",
            ElementType::CoreferenceLayer => "coreferences",
            ElementType::CoreferenceLink => "coreferencelink",
            ElementType::Correction => "correction",
            ElementType::Current => "current",
            ElementType::Definition => "def",
            ElementType::DependenciesLayer => "dependencies",
            ElementType::Dependency => "dependency",
            ElementType::DependencyDependent => "dep",
            ElementType::Description => "desc",
            ElementType::Division => "div",
            ElementType::DomainAnnotation => "domain",
            ElementType::EnddatetimeFeature => "enddatetime",
            ElementType::EntitiesLayer => "entities",
            ElementType::Entity => "entity",
            ElementType::Entry => "entry",
            ElementType::ErrorDetection => "errordetection",
            ElementType::Event => "event",
            ElementType::Example => "ex",
            ElementType::External => "external",
            ElementType::Feature => "feat",
            ElementType::Figure => "figure",
            ElementType::ForeignData => "foreign-data",
            ElementType::FunctionFeature => "function",
            ElementType::Gap => "gap",
            ElementType::Head => "head",
            ElementType::HeadFeature => "headfeature",
            ElementType::Headspan => "hd",
            ElementType::Hiddenword => "hiddenw",
            ElementType::Hyphbreak => "t-hbr",
            ElementType::Label => "label",
            ElementType::LangAnnotation => "lang",
            ElementType::LemmaAnnotation => "lemma",
            ElementType::LevelFeature => "level",
            ElementType::Linebreak => "br",
            ElementType::LinkReference => "xref",
            ElementType::List => "list",
            ElementType::ListItem => "item",
            ElementType::Metric => "metric",
            ElementType::ModalityFeature => "modality",
            ElementType::Morpheme => "morpheme",
            ElementType::MorphologyLayer => "morphology",
            ElementType::New => "new",
            ElementType::Note => "note",
            ElementType::Observation => "observation",
            ElementType::ObservationLayer => "observations",
            ElementType::Original => "original",
            ElementType::Paragraph => "p",
            ElementType::Part => "part",
            ElementType::PhonContent => "ph",
            ElementType::Phoneme => "phoneme",
            ElementType::PhonologyLayer => "phonology",
            ElementType::PolarityFeature => "polarity",
            ElementType::PosAnnotation => "pos",
            ElementType::Predicate => "predicate",
            ElementType::Quote => "quote",
            ElementType::Reference => "ref",
            ElementType::Relation => "relation",
            ElementType::Row => "row",
            ElementType::SemanticRole => "semrole",
            ElementType::SemanticRolesLayer => "semroles",
            ElementType::SenseAnnotation => "sense",
            ElementType::Sentence => "s",
            ElementType::Sentiment => "sentiment",
            ElementType::SentimentLayer => "sentiments",
            ElementType::Source => "source",
            ElementType::SpanRelation => "spanrelation",
            ElementType::SpanRelationLayer => "spanrelations",
            ElementType::Speech => "speech",
            ElementType::Statement => "statement",
            ElementType::StatementLayer => "statements",
            ElementType::StatementRelation => "rel",
            ElementType::StrengthFeature => "strength",
            ElementType::String => "str",
            ElementType::StyleFeature => "style",
            ElementType::SubjectivityAnnotation => "subjectivity",
            ElementType::Suggestion => "suggestion",
            ElementType::SynsetFeature => "synset",
            ElementType::SyntacticUnit => "su",
            ElementType::SyntaxLayer => "syntax",
            ElementType::Table => "table",
            ElementType::TableHead => "tablehead",
            ElementType::Target => "target",
            ElementType::Term => "term",
            ElementType::Text => "text",
            ElementType::TextContent => "t",
            ElementType::TextMarkupCorrection => "t-correction",
            ElementType::TextMarkupError => "t-error",
            ElementType::TextMarkupGap => "t-gap",
            ElementType::TextMarkupReference => "t-ref",
            ElementType::TextMarkupString => "t-str",
            ElementType::TextMarkupStyle => "t-style",
            ElementType::TimeFeature => "time",
            ElementType::TimeSegment => "timesegment",
            ElementType::TimingLayer => "timing",
            ElementType::Utterance => "utt",
            ElementType::ValueFeature => "value",
            ElementType::Whitespace => "whitespace",
            ElementType::Word => "w",
            ElementType::WordReference => "wref",
        }
    }

    /// The element type of a wire tag; an unknown tag is a parse error that
    /// names it.
    pub fn from_str(tag: &str) -> (r: Result<ElementType, FoliaError>)
        ensures
            from_str_post(tag@, r),
    {
        match Self::lookup_tag(tag) {
            Some(k) => Ok(k),
            None => Err(
                FoliaError::ParseError(
                    concat2("Unknown tag has no associated element type: ", tag),
                ),
            ),
        }
    }

    /// The element type whose tag a text is, if any.
    #[verifier::rlimit(60)]
    fn lookup_tag(tag: &str) -> (r: Option<ElementType>)
        ensures
            r matches Some(k) ==> k.spec_as_str() == tag@,
            r is None ==> forall|k: ElementType| #[trigger] k.spec_as_str() != tag@,
    {
        if str_eq(tag, "actor") {
            Some(ElementType::ActorFeature)
        } else if str_eq(tag, "alt") {
            Some(ElementType::Alternative)
        } else if str_eq(tag, "altlayers") {
            Some(ElementType::AlternativeLayers)
        } else if str_eq(tag, "begindatetime") {
            Some(ElementType::BegindatetimeFeature)
        } else if str_eq(tag, "caption") {
            Some(ElementType::Caption)
        } else if str_eq(tag, "cell") {
            Some(ElementType::Cell)
        } else if str_eq(tag, "chunk") {
            Some(ElementType::Chunk)
        } else if str_eq(tag, "chunking") {
            Some(ElementType::ChunkingLayer)
        } else if str_eq(tag, "comment") {
            Some(ElementType::Comment)
        } else if str_eq(tag, "content") {
            Some(ElementType::Content)
        } else if str_eq(tag, "coreferencechain") {
            Some(ElementType::CoreferenceChain)
        } else if str_eq(tag, "coreferences") {
            Some(ElementType::CoreferenceLayer)
        } else if str_eq(tag, "coreferencelink") {
            Some(ElementType::CoreferenceLink)
        } else if str_eq(tag, "correction") {
            Some(ElementType::Correction)
        } else if str_eq(tag, "current") {
            Some(ElementType::Current)
        } else if str_eq(tag, "def") {
            Some(ElementType::Definition)
        } else if str_eq(tag, "dependencies") {
            Some(ElementType::DependenciesLayer)
        } else if str_eq(tag, "dependency") {
            Some(ElementType::Dependency)
        } else if str_eq(tag, "dep") {
            Some(ElementType::DependencyDependent)
        } else if str_eq(tag, "desc") {
            Some(ElementType::Description)
        } else if str_eq(tag, "div") {
            Some(ElementType::Division)
        } else if str_eq(tag, "domain") {
            Some(ElementType::DomainAnnotation)
        } else if str_eq(tag, "enddatetime") {
            Some(ElementType::EnddatetimeFeature)
        } else if str_eq(tag, "entities") {
            Some(ElementType::EntitiesLayer)
        } else if str_eq(tag, "entity") {
            Some(ElementType::Entity)
        } else if str_eq(tag, "entry") {
            Some(ElementType::Entry)
        } else if str_eq(tag, "errordetection") {
            Some(ElementType::ErrorDetection)
        } else if str_eq(tag, "event") {
            Some(ElementType::Event)
        } else if str_eq(tag, "ex") {
            Some(ElementType::Example)
        } else if str_eq(tag, "external") {
            Some(ElementType::External)
        } else if str_eq(tag, "feat") {
            Some(ElementType::Feature)
        } else if str_eq(tag, "figure") {
            Some(ElementType::Figure)
        } else if str_eq(tag, "foreign-data") {
            Some(ElementType::ForeignData)
        } else if str_eq(tag, "function") {
            Some(ElementType::FunctionFeature)
        } else if str_eq(tag, "gap") {
            Some(ElementType::Gap)
        } else if str_eq(tag, "head") {
            Some(ElementType::Head)
        } else if str_eq(tag, "headfeature") {
            Some(ElementType::HeadFeature)
        } else if str_eq(tag, "hd") {
            Some(ElementType::Headspan)
        } else if str_eq(tag, "hiddenw") {
            Some(ElementType::Hiddenword)
        } else if str_eq(tag, "t-hbr") {
            Some(ElementType::Hyphbreak)
        } else if str_eq(tag, "label") {
            Some(ElementType::Label)
        } else if str_eq(tag, "lang") {
            Some(ElementType::LangAnnotation)
        } else if str_eq(tag, "lemma") {
            Some(ElementType::LemmaAnnotation)
        } else if str_eq(tag, "level") {
            Some(ElementType::LevelFeature)
        } else if str_eq(tag, "br") {
            Some(ElementType::Linebreak)
        } else if str_eq(tag, "xref") {
            Some(ElementType::LinkReference)
        } else if str_eq(tag, "list") {
            Some(ElementType::List)
        } else if str_eq(tag, "item") {
            Some(ElementType::ListItem)
        } else if str_eq(tag, "metric") {
            Some(ElementType::Metric)
        } else if str_eq(tag, "modality") {
            Some(ElementType::ModalityFeature)
        } else if str_eq(tag, "morpheme") {
            Some(ElementType::Morpheme)
        } else if str_eq(tag, "morphology") {
            Some(ElementType::MorphologyLayer)
        } else if str_eq(tag, "new") {
            Some(ElementType::New)
        } else if str_eq(tag, "note") {
            Some(ElementType::Note)
        } else if str_eq(tag, "observation") {
            Some(ElementType::Observation)
        } else if str_eq(tag, "observations") {
            Some(ElementType::ObservationLayer)
        } else if str_eq(tag, "original") {
            Some(ElementType::Original)
        } else if str_eq(tag, "p") {
            Some(ElementType::Paragraph)
        } else if str_eq(tag, "part") {
            Some(ElementType::Part)
        } else if str_eq(tag, "ph") {
            Some(ElementType::PhonContent)
        } else if str_eq(tag, "phoneme") {
            Some(ElementType::Phoneme)
        } else if str_eq(tag, "phonology") {
            Some(ElementType::PhonologyLayer)
        } else if str_eq(tag, "polarity") {
            Some(ElementType::PolarityFeature)
        } else if str_eq(tag, "pos") {
            Some(ElementType::PosAnnotation)
        } else if str_eq(tag, "predicate") {
            Some(ElementType::Predicate)
        } else if str_eq(tag, "quote") {
            Some(ElementType::Quote)
        } else if str_eq(tag, "ref") {
            Some(ElementType::Reference)
        } else if str_eq(tag, "relation") {
            Some(ElementType::Relation)
        } else if str_eq(tag, "row") {
            Some(ElementType::Row)
        } else if str_eq(tag, "semrole") {
            Some(ElementType::SemanticRole)
        } else if str_eq(tag, "semroles") {
            Some(ElementType::SemanticRolesLayer)
        } else if str_eq(tag, "sense") {
            Some(ElementType::SenseAnnotation)
        } else if str_eq(tag, "s") {
            Some(ElementType::Sentence)
        } else if str_eq(tag, "sentiment") {
            Some(ElementType::Sentiment)
        } else if str_eq(tag, "sentiments") {
            Some(ElementType::SentimentLayer)
        } else if str_eq(tag, "source") {
            Some(ElementType::Source)
        } else if str_eq(tag, "spanrelation") {
            Some(ElementType::SpanRelation)
        } else if str_eq(tag, "spanrelations") {
            Some(ElementType::SpanRelationLayer)
        } else if str_eq(tag, "speech") {
            Some(ElementType::Speech)
        } else if str_eq(tag, "statement") {
            Some(ElementType::Statement)
        } else if str_eq(tag, "statements") {
            Some(ElementType::StatementLayer)
        } else if str_eq(tag, "rel") {
            Some(ElementType::StatementRelation)
        } else if str_eq(tag, "strength") {
            Some(ElementType::StrengthFeature)
        } else if str_eq(tag, "str") {
            Some(ElementType::String)
        } else if str_eq(tag, "style") {
            Some(ElementType::StyleFeature)
        } else if str_eq(tag, "subjectivity") {
            Some(ElementType::SubjectivityAnnotation)
        } else if str_eq(tag, "suggestion") {
            Some(ElementType::Suggestion)
        } else if str_eq(tag, "synset") {
            Some(ElementType::SynsetFeature)
        } else if str_eq(tag, "su") {
            Some(ElementType::SyntacticUnit)
        } else if str_eq(tag, "syntax") {
            Some(ElementType::SyntaxLayer)
        } else if str_eq(tag, "table") {
            Some(ElementType::Table)
        } else if str_eq(tag, "tablehead") {
            Some(ElementType::TableHead)
        } else if str_eq(tag, "target") {
            Some(ElementType::Target)
        } else if str_eq(tag, "term") {
            Some(ElementType::Term)
        } else if str_eq(tag, "text") {
            Some(ElementType::Text)
        } else if str_eq(tag, "t") {
            Some(ElementType::TextContent)
        } else if str_eq(tag, "t-correction") {
            Some(ElementType::TextMarkupCorrection)
        } else if str_eq(tag, "t-error") {
            Some(ElementType::TextMarkupError)
        } else if str_eq(tag, "t-gap") {
            Some(ElementType::TextMarkupGap)
        } else if str_eq(tag, "t-ref") {
            Some(ElementType::TextMarkupReference)
        } else if str_eq(tag, "t-str") {
            Some(ElementType::TextMarkupString)
        } else if str_eq(tag, "t-style") {
            Some(ElementType::TextMarkupStyle)
        } else if str_eq(tag, "time") {
            Some(ElementType::TimeFeature)
        } else if str_eq(tag, "timesegment") {
            Some(ElementType::TimeSegment)
        } else if str_eq(tag, "timing") {
            Some(ElementType::TimingLayer)
        } else if str_eq(tag, "utt") {
            Some(ElementType::Utterance)
        } else if str_eq(tag, "value") {
            Some(ElementType::ValueFeature)
        } else if str_eq(tag, "whitespace") {
            Some(ElementType::Whitespace)
        } else if str_eq(tag, "w") {
            Some(ElementType::Word)
        } else if str_eq(tag, "wref") {
            Some(ElementType::WordReference)
        } else {
            proof {
                assert forall|k: ElementType| #[trigger] k.spec_as_str() != tag@ by {
                    match k {
                        ElementType::ActorFeature => {},
                        ElementType::Alternative => {},
                        ElementType::AlternativeLayers => {},
                        ElementType::BegindatetimeFeature => {},
                        ElementType::Caption => {},
                        ElementType::Cell => {},
                        ElementType::Chunk => {},
                        ElementType::ChunkingLayer => {},
                        ElementType::Comment => {},
                        ElementType::Content => {},
                        ElementType::CoreferenceChain => {},
                        ElementType::CoreferenceLayer => {},
                        ElementType::CoreferenceLink => {},
                        ElementType::Correction => {},
                        ElementType::Current => {},
                        ElementType::Definition => {},
                        ElementType::DependenciesLayer => {},
                        ElementType::Dependency => {},
                        ElementType::DependencyDependent => {},
                        ElementType::Description => {},
                        ElementType::Division => {},
                        ElementType::DomainAnnotation => {},
                        ElementType::EnddatetimeFeature => {},
                        ElementType::EntitiesLayer => {},
                        ElementType::Entity => {},
                        ElementType::Entry => {},
                        ElementType::ErrorDetection => {},
                        ElementType::Event => {},
                        ElementType::Example => {},
                        ElementType::External => {},
                        ElementType::Feature => {},
                        ElementType::Figure => {},
                        ElementType::ForeignData => {},
                        ElementType::FunctionFeature => {},
                        ElementType::Gap => {},
                        ElementType::Head => {},
                        ElementType::HeadFeature => {},
                        ElementType::Headspan => {},
                        ElementType::Hiddenword => {},
                        ElementType::Hyphbreak => {},
                        ElementType::Label => {},
                        ElementType::LangAnnotation => {},
                        ElementType::LemmaAnnotation => {},
                        ElementType::LevelFeature => {},
                        ElementType::Linebreak => {},
                        ElementType::LinkReference => {},
                        ElementType::List => {},
                        ElementType::ListItem => {},
                        ElementType::Metric => {},
                        ElementType::ModalityFeature => {},
                        ElementType::Morpheme => {},
                        ElementType::MorphologyLayer => {},
                        ElementType::New => {},
                        ElementType::Note => {},
                        ElementType::Observation => {},
                        ElementType::ObservationLayer => {},
                        ElementType::Original => {},
                        ElementType::Paragraph => {},
                        ElementType::Part => {},
                        ElementType::PhonContent => {},
                        ElementType::Phoneme => {},
                        ElementType::PhonologyLayer => {},
                        ElementType::PolarityFeature => {},
                        ElementType::PosAnnotation => {},
                        ElementType::Predicate => {},
                        ElementType::Quote => {},
                        ElementType::Reference => {},
                        ElementType::Relation => {},
                        ElementType::Row => {},
                        ElementType::SemanticRole => {},
                        ElementType::SemanticRolesLayer => {},
                        ElementType::SenseAnnotation => {},
                        ElementType::Sentence => {},
                        ElementType::Sentiment => {},
                        ElementType::SentimentLayer => {},
                        ElementType::Source => {},
                        ElementType::SpanRelation => {},
                        ElementType::SpanRelationLayer => {},
                        ElementType::Speech => {},
                        ElementType::Statement => {},
                        ElementType::StatementLayer => {},
                        ElementType::StatementRelation => {},
                        ElementType::StrengthFeature => {},
                        ElementType::String => {},
                        ElementType::StyleFeature => {},
                        ElementType::SubjectivityAnnotation => {},
                        ElementType::Suggestion => {},
                        ElementType::SynsetFeature => {},
                        ElementType::SyntacticUnit => {},
                        ElementType::SyntaxLayer => {},
                        ElementType::Table => {},
                        ElementType::TableHead => {},
                        ElementType::Target => {},
                        ElementType::Term => {},
                        ElementType::Text => {},
                        ElementType::TextContent => {},
                        ElementType::TextMarkupCorrection => {},
                        ElementType::TextMarkupError => {},
                        ElementType::TextMarkupGap => {},
                        ElementType::TextMarkupReference => {},
                        ElementType::TextMarkupString => {},
                        ElementType::TextMarkupStyle => {},
                        ElementType::TimeFeature => {},
                        ElementType::TimeSegment => {},
                        ElementType::TimingLayer => {},
                        ElementType::Utterance => {},
                        ElementType::ValueFeature => {},
                        ElementType::Whitespace => {},
                        ElementType::Word => {},
                        ElementType::WordReference => {},
                    }
                }
            }
            None
        }
    }
}

/// What reading a wire tag gives: an element type with that tag, or, exactly
/// when no element type has it, a parse error naming the tag.
pub open spec fn from_str_post(tag: Seq<char>, r: Result<ElementType, FoliaError>) -> bool {
    &&& r matches Ok(k) ==> k.spec_as_str() == tag
    &&& r is Err <==> forall|k: ElementType| #[trigger] k.spec_as_str() != tag
    &&& r is Err ==> (r matches Err(FoliaError::ParseError(m)) && m@
        == "Unknown tag has no associated element type: "@ + tag)
}

/// Reading the tag of an element type gives back an element type with that
/// very tag: tag, element type, tag is the identity on every tag.
pub proof fn lemma_tag_round_trip(k: ElementType, r: Result<ElementType, FoliaError>)
    requires
        from_str_post(k.spec_as_str(), r),
    ensures
        r is Ok,
        r->Ok_0.spec_as_str() == k.spec_as_str(),
{
}

/// The signature of a tag: its length, its first and third characters (a
/// space where it is shorter), and its last character.
pub open spec fn tag_sig(t: Seq<char>) -> (int, char, char, char) {
    (t.len() as int, t[0], if t.len() > 2 {
        t[2]
    } else {
        ' '
    }, t[t.len() - 1])
}

/// The signature of the tag of each element type.
spec fn kind_sig(k: ElementType) -> (int, char, char, char) {
    match k {
        ElementType::ActorFeature => (5, 'a', 't', 'r'),
        ElementType::Alternative => (3, 'a', 't', 't'),
        ElementType::AlternativeLayers => (9, 'a', 't', 's'),
        ElementType::BegindatetimeFeature => (13, 'b', 'g', 'e'),
        ElementType::Caption => (7, 'c', 'p', 'n'),
        ElementType::Cell => (4, 'c', 'l', 'l'),
        ElementType::Chunk => (5, 'c', 'u', 'k'),
        ElementType::ChunkingLayer => (8, 'c', 'u', 'g'),
        ElementType::Comment => (7, 'c', 'm', 't'),
        ElementType::Content => (7, 'c', 'n', 't'),
        ElementType::CoreferenceChain => (16, 'c', 'r', 'n'),
        ElementType::CoreferenceLayer => (12, 'c', 'r', 's'),
        ElementType::CoreferenceLink => (15, 'c', 'r', 'k'),
        ElementType::Correction => (10, 'c', 'r', 'n'),
        ElementType::Current => (7, 'c', 'r', 't'),
        ElementType::Definition => (3, 'd', 'f', 'f'),
        ElementType::DependenciesLayer => (12, 'd', 'p', 's'),
        ElementType::Dependency => (10, 'd', 'p', 'y'),
        ElementType::DependencyDependent => (3, 'd', 'p', 'p'),
        ElementType::Description => (4, 'd', 's', 'c'),
        ElementType::Division => (3, 'd', 'v', 'v'),
        ElementType::DomainAnnotation => (6, 'd', 'm', 'n'),
        ElementType::EnddatetimeFeature => (11, 'e', 'd', 'e'),
        ElementType::EntitiesLayer => (8, 'e', 't', 's'),
        ElementType::Entity => (6, 'e', 't', 'y'),
        ElementType::Entry => (5, 'e', 't', 'y'),
        ElementType::ErrorDetection => (14, 'e', 'r', 'n'),
        ElementType::Event => (5, 'e', 'e', 't'),
        ElementType::Example => (2, 'e', ' ', 'x'),
        ElementType::External => (8, 'e', 't', 'l'),
        ElementType::Feature => (4, 'f', 'a', 't'),
        ElementType::Figure => (6, 'f', 'g', 'e'),
        ElementType::ForeignData => (12, 'f', 'r', 'a'),
        ElementType::FunctionFeature => (8, 'f', 'n', 'n'),
        ElementType::Gap => (3, 'g', 'p', 'p'),
        ElementType::Head => (4, 'h', 'a', 'd'),
        ElementType::HeadFeature => (11, 'h', 'a', 'e'),
        ElementType::Headspan => (2, 'h', ' ', 'd'),
        ElementType::Hiddenword => (7, 'h', 'd', 'w'),
        ElementType::Hyphbreak => (5, 't', 'h', 'r'),
        ElementType::Label => (5, 'l', 'b', 'l'),
        ElementType::LangAnnotation => (4, 'l', 'n', 'g'),
        ElementType::LemmaAnnotation => (5, 'l', 'm', 'a'),
        ElementType::LevelFeature => (5, 'l', 'v', 'l'),
        ElementType::Linebreak => (2, 'b', ' ', 'r'),
        ElementType::LinkReference => (4, 'x', 'e', 'f'),
        ElementType::List => (4, 'l', 's', 't'),
        ElementType::ListItem => (4, 'i', 'e', 'm'),
        ElementType::Metric => (6, 'm', 't', 'c'),
        ElementType::ModalityFeature => (8, 'm', 'd', 'y'),
        ElementType::Morpheme => (8, 'm', 'r', 'e'),
        ElementType::MorphologyLayer => (10, 'm', 'r', 'y'),
        ElementType::New => (3, 'n', 'w', 'w'),
        ElementType::Note => (4, 'n', 't', 'e'),
        ElementType::Observation => (11, 'o', 's', 'n'),
        ElementType::ObservationLayer => (12, 'o', 's', 's'),
        ElementType::Original => (8, 'o', 'i', 'l'),
        ElementType::Paragraph => (1, 'p', ' ', 'p'),
        ElementType::Part => (4, 'p', 'r', 't'),
        ElementType::PhonContent => (2, 'p', ' ', 'h'),
        ElementType::Phoneme => (7, 'p', 'o', 'e'),
        ElementType::PhonologyLayer => (9, 'p', 'o', 'y'),
        ElementType::PolarityFeature => (8, 'p', 'l', 'y'),
        ElementType::PosAnnotation => (3, 'p', 's', 's'),
        ElementType::Predicate => (9, 'p', 'e', 'e'),
        ElementType::Quote => (5, 'q', 'o', 'e'),
        ElementType::Reference => (3, 'r', 'f', 'f'),
        ElementType::Relation => (8, 'r', 'l', 'n'),
        ElementType::Row => (3, 'r', 'w', 'w'),
        ElementType::SemanticRole => (7, 's', 'm', 'e'),
        ElementType::SemanticRolesLayer => (8, 's', 'm', 's'),
        ElementType::SenseAnnotation => (5, 's', 'n', 'e'),
        ElementType::Sentence => (1, 's', ' ', 's'),
        ElementType::Sentiment => (9, 's', 'n', 't'),
        ElementType::SentimentLayer => (10, 's', 'n', 's'),
        ElementType::Source => (6, 's', 'u', 'e'),
        ElementType::SpanRelation => (12, 's', 'a', 'n'),
        ElementType::SpanRelationLayer => (13, 's', 'a', 's'),
        ElementType::Speech => (6, 's', 'e', 'h'),
        ElementType::Statement => (9, 's', 'a', 't'),
        ElementType::StatementLayer => (10, 's', 'a', 's'),
        ElementType::StatementRelation => (3, 'r', 'l', 'l'),
        ElementType::StrengthFeature => (8, 's', 'r', 'h'),
        ElementType::String => (3, 's', 'r', 'r'),
        ElementType::StyleFeature => (5, 's', 'y', 'e'),
        ElementType::SubjectivityAnnotation => (12, 's', 'b', 'y'),
        ElementType::Suggestion => (10, 's', 'g', 'n'),
        ElementType::SynsetFeature => (6, 's', 'n', 't'),
        ElementType::SyntacticUnit => (2, 's', ' ', 'u'),
        ElementType::SyntaxLayer => (6, 's', 'n', 'x'),
        ElementType::Table => (5, 't', 'b', 'e'),
        ElementType::TableHead => (9, 't', 'b', 'd'),
        ElementType::Target => (6, 't', 'r', 't'),
        ElementType::Term => (4, 't', 'r', 'm'),
        ElementType::Text => (4, 't', 'x', 't'),
        ElementType::TextContent => (1, 't', ' ', 't'),
        ElementType::TextMarkupCorrection => (12, 't', 'c', 'n'),
        ElementType::TextMarkupError => (7, 't', 'e', 'r'),
        ElementType::TextMarkupGap => (5, 't', 'g', 'p'),
        ElementType::TextMarkupReference => (5, 't', 'r', 'f'),
        ElementType::TextMarkupString => (5, 't', 's', 'r'),
        ElementType::TextMarkupStyle => (7, 't', 's', 'e'),
        ElementType::TimeFeature => (4, 't', 'm', 'e'),
        ElementType::TimeSegment => (11, 't', 'm', 't'),
        ElementType::TimingLayer => (6, 't', 'm', 'g'),
        ElementType::Utterance => (3, 'u', 't', 't'),
        ElementType::ValueFeature => (5, 'v', 'l', 'e'),
        ElementType::Whitespace => (10, 'w', 'i', 'e'),
        ElementType::Word => (1, 'w', ' ', 'w'),
        ElementType::WordReference => (4, 'w', 'e', 'f'),
    }
}

/// The element type of a signature; no two element types share one.
spec fn kind_of_sig(g: (int, char, char, char)) -> Option<ElementType> {
    if g == (5int, 'a', 't', 'r') {
        Some(ElementType::ActorFeature)
    } else if g == (3int, 'a', 't', 't') {
        Some(ElementType::Alternative)
    } else if g == (9int, 'a', 't', 's') {
        Some(ElementType::AlternativeLayers)
    } else if g == (13int, 'b', 'g', 'e') {
        Some(ElementType::BegindatetimeFeature)
    } else if g == (7int, 'c', 'p', 'n') {
        Some(ElementType::Caption)
    } else if g == (4int, 'c', 'l', 'l') {
        Some(ElementType::Cell)
    } else if g == (5int, 'c', 'u', 'k') {
        Some(ElementType::Chunk)
    } else if g == (8int, 'c', 'u', 'g') {
        Some(ElementType::ChunkingLayer)
    } else if g == (7int, 'c', 'm', 't') {
        Some(ElementType::Comment)
    } else if g == (7int, 'c', 'n', 't') {
        Some(ElementType::Content)
    } else if g == (16int, 'c', 'r', 'n') {
        Some(ElementType::CoreferenceChain)
    } else if g == (12int, 'c', 'r', 's') {
        Some(ElementType::CoreferenceLayer)
    } else if g == (15int, 'c', 'r', 'k') {
        Some(ElementType::CoreferenceLink)
    } else if g == (10int, 'c', 'r', 'n') {
        Some(ElementType::Correction)
    } else if g == (7int, 'c', 'r', 't') {
        Some(ElementType::Current)
    } else if g == (3int, 'd', 'f', 'f') {
        Some(ElementType::Definition)
    } else if g == (12int, 'd', 'p', 's') {
        Some(ElementType::DependenciesLayer)
    } else if g == (10int, 'd', 'p', 'y') {
        Some(ElementType::Dependency)
    } else if g == (3int, 'd', 'p', 'p') {
        Some(ElementType::DependencyDependent)
    } else if g == (4int, 'd', 's', 'c') {
        Some(ElementType::Description)
    } else if g == (3int, 'd', 'v', 'v') {
        Some(ElementType::Division)
    } else if g == (6int, 'd', 'm', 'n') {
        Some(ElementType::DomainAnnotation)
    } else if g == (11int, 'e', 'd', 'e') {
        Some(ElementType::EnddatetimeFeature)
    } else if g == (8int, 'e', 't', 's') {
        Some(ElementType::EntitiesLayer)
    } else if g == (6int, 'e', 't', 'y') {
        Some(ElementType::Entity)
    } else if g == (5int, 'e', 't', 'y') {
        Some(ElementType::Entry)
    } else if g == (14int, 'e', 'r', 'n') {
        Some(ElementType::ErrorDetection)
    } else if g == (5int, 'e', 'e', 't') {
        Some(ElementType::Event)
    } else if g == (2int, 'e', ' ', 'x') {
        Some(ElementType::Example)
    } else if g == (8int, 'e', 't', 'l') {
        Some(ElementType::External)
    } else if g == (4int, 'f', 'a', 't') {
        Some(ElementType::Feature)
    } else if g == (6int, 'f', 'g', 'e') {
        Some(ElementType::Figure)
    } else if g == (12int, 'f', 'r', 'a') {
        Some(ElementType::ForeignData)
    } else if g == (8int, 'f', 'n', 'n') {
        Some(ElementType::FunctionFeature)
    } else if g == (3int, 'g', 'p', 'p') {
        Some(ElementType::Gap)
    } else if g == (4int, 'h', 'a', 'd') {
        Some(ElementType::Head)
    } else if g == (11int, 'h', 'a', 'e') {
        Some(ElementType::HeadFeature)
    } else if g == (2int, 'h', ' ', 'd') {
        Some(ElementType::Headspan)
    } else if g == (7int, 'h', 'd', 'w') {
        Some(ElementType::Hiddenword)
    } else if g == (5int, 't', 'h', 'r') {
        Some(ElementType::Hyphbreak)
    } else if g == (5int, 'l', 'b', 'l') {
        Some(ElementType::Label)
    } else if g == (4int, 'l', 'n', 'g') {
        Some(ElementType::LangAnnotation)
    } else if g == (5int, 'l', 'm', 'a') {
        Some(ElementType::LemmaAnnotation)
    } else if g == (5int, 'l', 'v', 'l') {
        Some(ElementType::LevelFeature)
    } else if g == (2int, 'b', ' ', 'r') {
        Some(ElementType::Linebreak)
    } else if g == (4int, 'x', 'e', 'f') {
        Some(ElementType::LinkReference)
    } else if g == (4int, 'l', 's', 't') {
        Some(ElementType::List)
    } else if g == (4int, 'i', 'e', 'm') {
        Some(ElementType::ListItem)
    } else if g == (6int, 'm', 't', 'c') {
        Some(ElementType::Metric)
    } else if g == (8int, 'm', 'd', 'y') {
        Some(ElementType::ModalityFeature)
    } else if g == (8int, 'm', 'r', 'e') {
        Some(ElementType::Morpheme)
    } else if g == (10int, 'm', 'r', 'y') {
        Some(ElementType::MorphologyLayer)
    } else if g == (3int, 'n', 'w', 'w') {
        Some(ElementType::New)
    } else if g == (4int, 'n', 't', 'e') {
        Some(ElementType::Note)
    } else if g == (11int, 'o', 's', 'n') {
        Some(ElementType::Observation)
    } else if g == (12int, 'o', 's', 's') {
        Some(ElementType::ObservationLayer)
    } else if g == (8int, 'o', 'i', 'l') {
        Some(ElementType::Original)
    } else if g == (1int, 'p', ' ', 'p') {
        Some(ElementType::Paragraph)
    } else if g == (4int, 'p', 'r', 't') {
        Some(ElementType::Part)
    } else if g == (2int, 'p', ' ', 'h') {
        Some(ElementType::PhonContent)
    } else if g == (7int, 'p', 'o', 'e') {
        Some(ElementType::Phoneme)
    } else if g == (9int, 'p', 'o', 'y') {
        Some(ElementType::PhonologyLayer)
    } else if g == (8int, 'p', 'l', 'y') {
        Some(ElementType::PolarityFeature)
    } else if g == (3int, 'p', 's', 's') {
        Some(ElementType::PosAnnotation)
    } else if g == (9int, 'p', 'e', 'e') {
        Some(ElementType::Predicate)
    } else if g == (5int, 'q', 'o', 'e') {
        Some(ElementType::Quote)
    } else if g == (3int, 'r', 'f', 'f') {
        Some(ElementType::Reference)
    } else if g == (8int, 'r', 'l', 'n') {
        Some(ElementType::Relation)
    } else if g == (3int, 'r', 'w', 'w') {
        Some(ElementType::Row)
    } else if g == (7int, 's', 'm', 'e') {
        Some(ElementType::SemanticRole)
    } else if g == (8int, 's', 'm', 's') {
        Some(ElementType::SemanticRolesLayer)
    } else if g == (5int, 's', 'n', 'e') {
        Some(ElementType::SenseAnnotation)
    } else if g == (1int, 's', ' ', 's') {
        Some(ElementType::Sentence)
    } else if g == (9int, 's', 'n', 't') {
        Some(ElementType::Sentiment)
    } else if g == (10int, 's', 'n', 's') {
        Some(ElementType::SentimentLayer)
    } else if g == (6int, 's', 'u', 'e') {
        Some(ElementType::Source)
    } else if g == (12int, 's', 'a', 'n') {
        Some(ElementType::SpanRelation)
    } else if g == (13int, 's', 'a', 's') {
        Some(ElementType::SpanRelationLayer)
    } else if g == (6int, 's', 'e', 'h') {
        Some(ElementType::Speech)
    } else if g == (9int, 's', 'a', 't') {
        Some(ElementType::Statement)
    } else if g == (10int, 's', 'a', 's') {
        Some(ElementType::StatementLayer)
    } else if g == (3int, 'r', 'l', 'l') {
        Some(ElementType::StatementRelation)
    } else if g == (8int, 's', 'r', 'h') {
        Some(ElementType::StrengthFeature)
    } else if g == (3int, 's', 'r', 'r') {
        Some(ElementType::String)
    } else if g == (5int, 's', 'y', 'e') {
        Some(ElementType::StyleFeature)
    } else if g == (12int, 's', 'b', 'y') {
        Some(ElementType::SubjectivityAnnotation)
    } else if g == (10int, 's', 'g', 'n') {
        Some(ElementType::Suggestion)
    } else if g == (6int, 's', 'n', 't') {
        Some(ElementType::SynsetFeature)
    } else if g == (2int, 's', ' ', 'u') {
        Some(ElementType::SyntacticUnit)
    } else if g == (6int, 's', 'n', 'x') {
        Some(ElementType::SyntaxLayer)
    } else if g == (5int, 't', 'b', 'e') {
        Some(ElementType::Table)
    } else if g == (9int, 't', 'b', 'd') {
        Some(ElementType::TableHead)
    } else if g == (6int, 't', 'r', 't') {
        Some(ElementType::Target)
    } else if g == (4int, 't', 'r', 'm') {
        Some(ElementType::Term)
    } else if g == (4int, 't', 'x', 't') {
        Some(ElementType::Text)
    } else if g == (1int, 't', ' ', 't') {
        Some(ElementType::TextContent)
    } else if g == (12int, 't', 'c', 'n') {
        Some(ElementType::TextMarkupCorrection)
    } else if g == (7int, 't', 'e', 'r') {
        Some(ElementType::TextMarkupError)
    } else if g == (5int, 't', 'g', 'p') {
        Some(ElementType::TextMarkupGap)
    } else if g == (5int, 't', 'r', 'f') {
        Some(ElementType::TextMarkupReference)
    } else if g == (5int, 't', 's', 'r') {
        Some(ElementType::TextMarkupString)
    } else if g == (7int, 't', 's', 'e') {
        Some(ElementType::TextMarkupStyle)
    } else if g == (4int, 't', 'm', 'e') {
        Some(ElementType::TimeFeature)
    } else if g == (11int, 't', 'm', 't') {
        Some(ElementType::TimeSegment)
    } else if g == (6int, 't', 'm', 'g') {
        Some(ElementType::TimingLayer)
    } else if g == (3int, 'u', 't', 't') {
        Some(ElementType::Utterance)
    } else if g == (5int, 'v', 'l', 'e') {
        Some(ElementType::ValueFeature)
    } else if g == (10int, 'w', 'i', 'e') {
        Some(ElementType::Whitespace)
    } else if g == (1int, 'w', ' ', 'w') {
        Some(ElementType::Word)
    } else if g == (4int, 'w', 'e', 'f') {
        Some(ElementType::WordReference)
    } else {
        None
    }
}

proof fn lemma_tag_sig(k: ElementType)
    ensures
        tag_sig(k.spec_as_str()) == kind_sig(k),
{
    match k {
        ElementType::ActorFeature => {
            reveal_strlit("actor");
        },
        ElementType::Alternative => {
            reveal_strlit("alt");
        },
        ElementType::AlternativeLayers => {
            reveal_strlit("altlayers");
        },
        ElementType::BegindatetimeFeature => {
            reveal_strlit("begindatetime");
        },
        ElementType::Caption => {
            reveal_strlit("caption");
        },
        ElementType::Cell => {
            reveal_strlit("cell");
        },
        ElementType::Chunk => {
            reveal_strlit("chunk");
        },
        ElementType::ChunkingLayer => {
            reveal_strlit("chunking");
        },
        ElementType::Comment => {
            reveal_strlit("comment");
        },
        ElementType::Content => {
            reveal_strlit("content");
        },
        ElementType::CoreferenceChain => {
            reveal_strlit("coreferencechain");
        },
        ElementType::CoreferenceLayer => {
            reveal_strlit("coreferences");
        },
        ElementType::CoreferenceLink => {
            reveal_strlit("coreferencelink");
        },
        ElementType::Correction => {
            reveal_strlit("correction");
        },
        ElementType::Current => {
            reveal_strlit("current");
        },
        ElementType::Definition => {
            reveal_strlit("def");
        },
        ElementType::DependenciesLayer => {
            reveal_strlit("dependencies");
        },
        ElementType::Dependency => {
            reveal_strlit("dependency");
        },
        ElementType::DependencyDependent => {
            reveal_strlit("dep");
        },
        ElementType::Description => {
            reveal_strlit("desc");
        },
        ElementType::Division => {
            reveal_strlit("div");
        },
        ElementType::DomainAnnotation => {
            reveal_strlit("domain");
        },
        ElementType::EnddatetimeFeature => {
            reveal_strlit("enddatetime");
        },
        ElementType::EntitiesLayer => {
            reveal_strlit("entities");
        },
        ElementType::Entity => {
            reveal_strlit("entity");
        },
        ElementType::Entry => {
            reveal_strlit("entry");
        },
        ElementType::ErrorDetection => {
            reveal_strlit("errordetection");
        },
        ElementType::Event => {
            reveal_strlit("event");
        },
        ElementType::Example => {
            reveal_strlit("ex");
        },
        ElementType::External => {
            reveal_strlit("external");
        },
        ElementType::Feature => {
            reveal_strlit("feat");
        },
        ElementType::Figure => {
            reveal_strlit("figure");
        },
        ElementType::ForeignData => {
            reveal_strlit("foreign-data");
        },
        ElementType::FunctionFeature => {
            reveal_strlit("function");
        },
        ElementType::Gap => {
            reveal_strlit("gap");
        },
        ElementType::Head => {
            reveal_strlit("head");
        },
        ElementType::HeadFeature => {
            reveal_strlit("headfeature");
        },
        ElementType::Headspan => {
            reveal_strlit("hd");
        },
        ElementType::Hiddenword => {
            reveal_strlit("hiddenw");
        },
        ElementType::Hyphbreak => {
            reveal_strlit("t-hbr");
        },
        ElementType::Label => {
            reveal_strlit("label");
        },
        ElementType::LangAnnotation => {
            reveal_strlit("lang");
        },
        ElementType::LemmaAnnotation => {
            reveal_strlit("lemma");
        },
        ElementType::LevelFeature => {
            reveal_strlit("level");
        },
        ElementType::Linebreak => {
            reveal_strlit("br");
        },
        ElementType::LinkReference => {
            reveal_strlit("xref");
        },
        ElementType::List => {
            reveal_strlit("list");
        },
        ElementType::ListItem => {
            reveal_strlit("item");
        },
        ElementType::Metric => {
            reveal_strlit("metric");
        },
        ElementType::ModalityFeature => {
            reveal_strlit("modality");
        },
        ElementType::Morpheme => {
            reveal_strlit("morpheme");
        },
        ElementType::MorphologyLayer => {
            reveal_strlit("morphology");
        },
        ElementType::New => {
            reveal_strlit("new");
        },
        ElementType::Note => {
            reveal_strlit("note");
        },
        ElementType::Observation => {
            reveal_strlit("observation");
        },
        ElementType::ObservationLayer => {
            reveal_strlit("observations");
        },
        ElementType::Original => {
            reveal_strlit("original");
        },
        ElementType::Paragraph => {
            reveal_strlit("p");
        },
        ElementType::Part => {
            reveal_strlit("part");
        },
        ElementType::PhonContent => {
            reveal_strlit("ph");
        },
        ElementType::Phoneme => {
            reveal_strlit("phoneme");
        },
        ElementType::PhonologyLayer => {
            reveal_strlit("phonology");
        },
        ElementType::PolarityFeature => {
            reveal_strlit("polarity");
        },
        ElementType::PosAnnotation => {
            reveal_strlit("pos");
        },
        ElementType::Predicate => {
            reveal_strlit("predicate");
        },
        ElementType::Quote => {
            reveal_strlit("quote");
        },
        ElementType::Reference => {
            reveal_strlit("ref");
        },
        ElementType::Relation => {
            reveal_strlit("relation");
        },
        ElementType::Row => {
            reveal_strlit("row");
        },
        ElementType::SemanticRole => {
            reveal_strlit("semrole");
        },
        ElementType::SemanticRolesLayer => {
            reveal_strlit("semroles");
        },
        ElementType::SenseAnnotation => {
            reveal_strlit("sense");
        },
        ElementType::Sentence => {
            reveal_strlit("s");
        },
        ElementType::Sentiment => {
            reveal_strlit("sentiment");
        },
        ElementType::SentimentLayer => {
            reveal_strlit("sentiments");
        },
        ElementType::Source => {
            reveal_strlit("source");
        },
        ElementType::SpanRelation => {
            reveal_strlit("spanrelation");
        },
        ElementType::SpanRelationLayer => {
            reveal_strlit("spanrelations");
        },
        ElementType::Speech => {
            reveal_strlit("speech");
        },
        ElementType::Statement => {
            reveal_strlit("statement");
        },
        ElementType::StatementLayer => {
            reveal_strlit("statements");
        },
        ElementType::StatementRelation => {
            reveal_strlit("rel");
        },
        ElementType::StrengthFeature => {
            reveal_strlit("strength");
        },
        ElementType::String => {
            reveal_strlit("str");
        },
        ElementType::StyleFeature => {
            reveal_strlit("style");
        },
        ElementType::SubjectivityAnnotation => {
            reveal_strlit("subjectivity");
        },
        ElementType::Suggestion => {
            reveal_strlit("suggestion");
        },
        ElementType::SynsetFeature => {
            reveal_strlit("synset");
        },
        ElementType::SyntacticUnit => {
            reveal_strlit("su");
        },
        ElementType::SyntaxLayer => {
            reveal_strlit("syntax");
        },
        ElementType::Table => {
            reveal_strlit("table");
        },
        ElementType::TableHead => {
            reveal_strlit("tablehead");
        },
        ElementType::Target => {
            reveal_strlit("target");
        },
        ElementType::Term => {
            reveal_strlit("term");
        },
        ElementType::Text => {
            reveal_strlit("text");
        },
        ElementType::TextContent => {
            reveal_strlit("t");
        },
        ElementType::TextMarkupCorrection => {
            reveal_strlit("t-correction");
        },
        ElementType::TextMarkupError => {
            reveal_strlit("t-error");
        },
        ElementType::TextMarkupGap => {
            reveal_strlit("t-gap");
        },
        ElementType::TextMarkupReference => {
            reveal_strlit("t-ref");
        },
        ElementType::TextMarkupString => {
            reveal_strlit("t-str");
        },
        ElementType::TextMarkupStyle => {
            reveal_strlit("t-style");
        },
        ElementType::TimeFeature => {
            reveal_strlit("time");
        },
        ElementType::TimeSegment => {
            reveal_strlit("timesegment");
        },
        ElementType::TimingLayer => {
            reveal_strlit("timing");
        },
        ElementType::Utterance => {
            reveal_strlit("utt");
        },
        ElementType::ValueFeature => {
            reveal_strlit("value");
        },
        ElementType::Whitespace => {
            reveal_strlit("whitespace");
        },
        ElementType::Word => {
            reveal_strlit("w");
        },
        ElementType::WordReference => {
            reveal_strlit("wref");
        },
    }
}

#[verifier::rlimit(80)]
proof fn lemma_kind_of_sig(k: ElementType)
    ensures
        kind_of_sig(kind_sig(k)) == Some(k),
{
}

/// No two element types share a wire tag.
pub proof fn lemma_tags_distinct(k1: ElementType, k2: ElementType)
    ensures
        k1.spec_as_str() == k2.spec_as_str() ==> k1 == k2,
{
    lemma_tag_sig(k1);
    lemma_tag_sig(k2);
    lemma_kind_of_sig(k1);
    lemma_kind_of_sig(k2);
}

/// Reading the tag of an element type gives back that element type: element
/// type, tag, element type is the identity.
pub proof fn lemma_kind_round_trip(k: ElementType, r: Result<ElementType, FoliaError>)
    requires
        from_str_post(k.spec_as_str(), r),
    ensures
        r == Ok::<ElementType, FoliaError>(k),
{
    lemma_tags_distinct(k, r->Ok_0);
}

impl AnnotationType {
    /// The primary element type that realises the annotation type.
    pub open spec fn spec_element_type(self) -> ElementType {
        match self {
            AnnotationType::TEXT => ElementType::TextContent,
            AnnotationType::TOKEN => ElementType::Word,
            AnnotationType::DIVISION => ElementType::Division,
            AnnotationType::PARAGRAPH => ElementType::Paragraph,
            AnnotationType::HEAD => ElementType::Head,
            AnnotationType::LIST => ElementType::List,
            AnnotationType::FIGURE => ElementType::Figure,
            AnnotationType::WHITESPACE => ElementType::Whitespace,
            AnnotationType::LINEBREAK => ElementType::Linebreak,
            AnnotationType::SENTENCE => ElementType::Sentence,
            AnnotationType::POS => ElementType::PosAnnotation,
            AnnotationType::LEMMA => ElementType::LemmaAnnotation,
            AnnotationType::DOMAIN => ElementType::DomainAnnotation,
            AnnotationType::SENSE => ElementType::SenseAnnotation,
            AnnotationType::SYNTAX => ElementType::SyntacticUnit,
            AnnotationType::CHUNKING => ElementType::Chunk,
            AnnotationType::ENTITY => ElementType::Entity,
            AnnotationType::CORRECTION => ElementType::Correction,
            AnnotationType::ERRORDETECTION => ElementType::ErrorDetection,
            AnnotationType::PHON => ElementType::PhonContent,
            AnnotationType::SUBJECTIVITY => ElementType::SubjectivityAnnotation,
            AnnotationType::MORPHOLOGICAL => ElementType::Morpheme,
            AnnotationType::EVENT => ElementType::Event,
            AnnotationType::DEPENDENCY => ElementType::Dependency,
            AnnotationType::TIMESEGMENT => ElementType::TimeSegment,
            AnnotationType::GAP => ElementType::Gap,
            AnnotationType::QUOTE => ElementType::Quote,
            AnnotationType::NOTE => ElementType::Note,
            AnnotationType::REFERENCE => ElementType::Reference,
            AnnotationType::RELATION => ElementType::Relation,
            AnnotationType::SPANRELATION => ElementType::SpanRelation,
            AnnotationType::COREFERENCE => ElementType::CoreferenceChain,
            AnnotationType::SEMROLE => ElementType::SemanticRole,
            AnnotationType::METRIC => ElementType::Metric,
            AnnotationType::LANG => ElementType::LangAnnotation,
            AnnotationType::STRING => ElementType::String,
            AnnotationType::TABLE => ElementType::Table,
            AnnotationType::STYLE => ElementType::TextMarkupStyle,
            AnnotationType::PART => ElementType::Part,
            AnnotationType::UTTERANCE => ElementType::Utterance,
            AnnotationType::ENTRY => ElementType::Entry,
            AnnotationType::TERM => ElementType::Term,
            AnnotationType::DEFINITION => ElementType::Definition,
            AnnotationType::EXAMPLE => ElementType::Example,
            AnnotationType::PHONOLOGICAL => ElementType::Phoneme,
            AnnotationType::PREDICATE => ElementType::Predicate,
            AnnotationType::OBSERVATION => ElementType::Observation,
            AnnotationType::SENTIMENT => ElementType::Sentiment,
            AnnotationType::STATEMENT => ElementType::Statement,
            AnnotationType::ALTERNATIVE => ElementType::Alternative,
            AnnotationType::RAWCONTENT => ElementType::Content,
            AnnotationType::COMMENT => ElementType::Comment,
            AnnotationType::DESCRIPTION => ElementType::Description,
            AnnotationType::HYPHENATION => ElementType::Hyphbreak,
            AnnotationType::HIDDENTOKEN => ElementType::Hiddenword,
        }
    }

    /// The wire tag of the annotation type.
    pub open spec fn spec_as_str(self) -> Seq<char> {
        match self {
            AnnotationType::TEXT => "t"@,
            AnnotationType::TOKEN => "w"@,
            AnnotationType::DIVISION => "div"@,
            AnnotationType::PARAGRAPH => "p"@,
            AnnotationType::HEAD => "head"@,
            AnnotationType::LIST => "list"@,
            AnnotationType::FIGURE => "figure"@,
            AnnotationType::WHITESPACE => "whitespace"@,
            AnnotationType::LINEBREAK => "br"@,
            AnnotationType::SENTENCE => "s"@,
            AnnotationType::POS => "pos"@,
            AnnotationType::LEMMA => "lemma"@,
            AnnotationType::DOMAIN => "domain"@,
            AnnotationType::SENSE => "sense"@,
            AnnotationType::SYNTAX => "su"@,
            AnnotationType::CHUNKING => "chunk"@,
            AnnotationType::ENTITY => "entity"@,
            AnnotationType::CORRECTION => "correction"@,
            AnnotationType::ERRORDETECTION => "errordetection"@,
            AnnotationType::PHON => "ph"@,
            AnnotationType::SUBJECTIVITY => "subjectivity"@,
            AnnotationType::MORPHOLOGICAL => "morpheme"@,
            AnnotationType::EVENT => "event"@,
            AnnotationType::DEPENDENCY => "dependency"@,
            AnnotationType::TIMESEGMENT => "timesegment"@,
            AnnotationType::GAP => "gap"@,
            AnnotationType::QUOTE => "quote"@,
            AnnotationType::NOTE => "note"@,
            AnnotationType::REFERENCE => "ref"@,
            AnnotationType::RELATION => "relation"@,
            AnnotationType::SPANRELATION => "spanrelation"@,
            AnnotationType::COREFERENCE => "coreferencechain"@,
            AnnotationType::SEMROLE => "semrole"@,
            AnnotationType::METRIC => "metric"@,
            AnnotationType::LANG => "lang"@,
            AnnotationType::STRING => "str"@,
            AnnotationType::TABLE => "table"@,
            AnnotationType::STYLE => "t-style"@,
            AnnotationType::PART => "part"@,
            AnnotationType::UTTERANCE => "utt"@,
            AnnotationType::ENTRY => "entry"@,
            AnnotationType::TERM => "term"@,
            AnnotationType::DEFINITION => "def"@,
            AnnotationType::EXAMPLE => "ex"@,
            AnnotationType::PHONOLOGICAL => "phoneme"@,
            AnnotationType::PREDICATE => "predicate"@,
            AnnotationType::OBSERVATION => "observation"@,
            AnnotationType::SENTIMENT => "sentiment"@,
            AnnotationType::STATEMENT => "statement"@,
            AnnotationType::ALTERNATIVE => "alt"@,
            AnnotationType::RAWCONTENT => "content"@,
            AnnotationType::COMMENT => "comment"@,
            AnnotationType::DESCRIPTION => "desc"@,
            AnnotationType::HYPHENATION => "t-hbr"@,
            AnnotationType::HIDDENTOKEN => "hiddenw"@,
        }
    }

    /// The primary element type that realises the annotation type.
    pub fn element_type(&self) -> (r: ElementType)
        ensures
            r == self.spec_element_type(),
    {
        match self {
            AnnotationType::TEXT => ElementType::TextContent,
            AnnotationType::TOKEN => ElementType::Word,
            AnnotationType::DIVISION => ElementType::Division,
            AnnotationType::PARAGRAPH => ElementType::Paragraph,
            AnnotationType::HEAD => ElementType::Head,
            AnnotationType::LIST => ElementType::List,
            AnnotationType::FIGURE => ElementType::Figure,
            AnnotationType::WHITESPACE => ElementType::Whitespace,
            AnnotationType::LINEBREAK => ElementType::Linebreak,
            AnnotationType::SENTENCE => ElementType::Sentence,
            AnnotationType::POS => ElementType::PosAnnotation,
            AnnotationType::LEMMA => ElementType::LemmaAnnotation,
            AnnotationType::DOMAIN => ElementType::DomainAnnotation,
            AnnotationType::SENSE => ElementType::SenseAnnotation,
            AnnotationType::SYNTAX => ElementType::SyntacticUnit,
            AnnotationType::CHUNKING => ElementType::Chunk,
            AnnotationType::ENTITY => ElementType::Entity,
            AnnotationType::CORRECTION => ElementType::Correction,
            AnnotationType::ERRORDETECTION => ElementType::ErrorDetection,
            AnnotationType::PHON => ElementType::PhonContent,
            AnnotationType::SUBJECTIVITY => ElementType::SubjectivityAnnotation,
            AnnotationType::MORPHOLOGICAL => ElementType::Morpheme,
            AnnotationType::EVENT => ElementType::Event,
            AnnotationType::DEPENDENCY => ElementType::Dependency,
            AnnotationType::TIMESEGMENT => ElementType::TimeSegment,
            AnnotationType::GAP => ElementType::Gap,
            AnnotationType::QUOTE => ElementType::Quote,
            AnnotationType::NOTE => ElementType::Note,
            AnnotationType::REFERENCE => ElementType::Reference,
            AnnotationType::RELATION => ElementType::Relation,
            AnnotationType::SPANRELATION => ElementType::SpanRelation,
            AnnotationType::COREFERENCE => ElementType::CoreferenceChain,
            AnnotationType::SEMROLE => ElementType::SemanticRole,
            AnnotationType::METRIC => ElementType::Metric,
            AnnotationType::LANG => ElementType::LangAnnotation,
            AnnotationType::STRING => ElementType::String,
            AnnotationType::TABLE => ElementType::Table,
            AnnotationType::STYLE => ElementType::TextMarkupStyle,
            AnnotationType::PART => ElementType::Part,
            AnnotationType::UTTERANCE => ElementType::Utterance,
            AnnotationType::ENTRY => ElementType::Entry,
            AnnotationType::TERM => ElementType::Term,
            AnnotationType::DEFINITION => ElementType::Definition,
            AnnotationType::EXAMPLE => ElementType::Example,
            AnnotationType::PHONOLOGICAL => ElementType::Phoneme,
            AnnotationType::PREDICATE => ElementType::Predicate,
            AnnotationType::OBSERVATION => ElementType::Observation,
            AnnotationType::SENTIMENT => ElementType::Sentiment,
            AnnotationType::STATEMENT => ElementType::Statement,
            AnnotationType::ALTERNATIVE => ElementType::Alternative,
            AnnotationType::RAWCONTENT => ElementType::Content,
            AnnotationType::COMMENT => ElementType::Comment,
            AnnotationType::DESCRIPTION => ElementType::Description,
            AnnotationType::HYPHENATION => ElementType::Hyphbreak,
            AnnotationType::HIDDENTOKEN => ElementType::Hiddenword,
        }
    }

    /// The wire tag of the annotation type.
    pub fn as_str(&self) -> (r: &'static str)
        ensures
            r@ == self.spec_as_str(),
    {
        match self {
            AnnotationType::TEXT => "t",
            AnnotationType::TOKEN => "w",
            AnnotationType::DIVISION => "div",
            AnnotationType::PARAGRAPH => "p",
            AnnotationType::HEAD => "head",
            AnnotationType::LIST => "list",
            AnnotationType::FIGURE => "figure",
            AnnotationType::WHITESPACE => "whitespace",
            AnnotationType::LINEBREAK => "br",
            AnnotationType::SENTENCE => "s",
            AnnotationType::POS => "pos",
            AnnotationType::LEMMA => "lemma",
            AnnotationType::DOMAIN => "domain",
            AnnotationType::SENSE => "sense",
            AnnotationType::SYNTAX => "su",
            AnnotationType::CHUNKING => "chunk",
            AnnotationType::ENTITY => "entity",
            AnnotationType::CORRECTION => "correction",
            AnnotationType::ERRORDETECTION => "errordetection",
            AnnotationType::PHON => "ph",
            AnnotationType::SUBJECTIVITY => "subjectivity",
            AnnotationType::MORPHOLOGICAL => "morpheme",
            AnnotationType::EVENT => "event",
            AnnotationType::DEPENDENCY => "dependency",
            AnnotationType::TIMESEGMENT => "timesegment",
            AnnotationType::GAP => "gap",
            AnnotationType::QUOTE => "quote",
            AnnotationType::NOTE => "note",
            AnnotationType::REFERENCE => "ref",
            AnnotationType::RELATION => "relation",
            AnnotationType::SPANRELATION => "spanrelation",
            AnnotationType::COREFERENCE => "coreferencechain",
            AnnotationType::SEMROLE => "semrole",
            AnnotationType::METRIC => "metric",
            AnnotationType::LANG => "lang",
            AnnotationType::STRING => "str",
            AnnotationType::TABLE => "table",
            AnnotationType::STYLE => "t-style",
            AnnotationType::PART => "part",
            AnnotationType::UTTERANCE => "utt",
            AnnotationType::ENTRY => "entry",
            AnnotationType::TERM => "term",
            AnnotationType::DEFINITION => "def",
            AnnotationType::EXAMPLE => "ex",
            AnnotationType::PHONOLOGICAL => "phoneme",
            AnnotationType::PREDICATE => "predicate",
            AnnotationType::OBSERVATION => "observation",
            AnnotationType::SENTIMENT => "sentiment",
            AnnotationType::STATEMENT => "statement",
            AnnotationType::ALTERNATIVE => "alt",
            AnnotationType::RAWCONTENT => "content",
            AnnotationType::COMMENT => "comment",
            AnnotationType::DESCRIPTION => "desc",
            AnnotationType::HYPHENATION => "t-hbr",
            AnnotationType::HIDDENTOKEN => "hiddenw",
        }
    }
}

/// Every annotation type has a primary element type, and its wire tag is the
/// tag of that element type: the tables agree.
pub proof fn lemma_annotation_tables_agree(a: AnnotationType)
    ensures
        a.spec_as_str() == a.spec_element_type().spec_as_str(),
{
}

/// One item of the content of a node: text, a reference to a child node, or a comment.
#[derive(Debug, Clone)]
pub enum DataType {
    Text(String),
    /// A reference to a child node, by its key in the store that owns both.
    Element(IntId),
    Comment(String),
}

impl DataType {
    /// Two content items are equal: of one variant, with the same text or key.
    pub open spec fn same_as(self, other: DataType) -> bool {
        match (self, other) {
            (DataType::Text(a), DataType::Text(b)) => a@ == b@,
            (DataType::Element(a), DataType::Element(b)) => a == b,
            (DataType::Comment(a), DataType::Comment(b)) => a@ == b@,
            _ => false,
        }
    }

    pub fn text(text: &str) -> (r: DataType)
        ensures
            r matches DataType::Text(s) && s@ == text@,
    {
        DataType::Text(String::from_str(text))
    }

    pub fn comment(text: &str) -> (r: DataType)
        ensures
            r matches DataType::Comment(s) && s@ == text@,
    {
        DataType::Comment(String::from_str(text))
    }
}

impl PartialEq for DataType {
    fn eq(&self, other: &DataType) -> (r: bool) {
        match (self, other) {
            (DataType::Text(a), DataType::Text(b)) => str_eq(a.as_str(), b.as_str()),
            (DataType::Element(a), DataType::Element(b)) => *a == *b,
            (DataType::Comment(a), DataType::Comment(b)) => str_eq(a.as_str(), b.as_str()),
            _ => false,
        }
    }
}

impl vstd::std_specs::cmp::PartialEqSpecImpl for DataType {
    open spec fn obeys_eq_spec() -> bool {
        true
    }

    open spec fn eq_spec(&self, other: &DataType) -> bool {
        self.same_as(*other)
    }
}

/// The kind of body a document has.
pub enum BodyType {
    Text,
    Speech,
}

/// How deeply a document is checked against the schema.
pub enum ValidationStrategy {
    NoValidation,
    ShallowValidation,
    DeepValidation,
}

/// Schema metadata of an element type.
pub struct Properties {
    xmltag: String,
    annotationtype: AnnotationType,
    /// The element types accepted as children.
    accepted_data: Vec<ElementType>,
    required_attribs: Vec<AttribType>,
    optional_attribs: Vec<AttribType>,
    /// How often the element may occur under one parent (0 is unlimited).
    occurrences: u32,
    /// How often an element and set combination may occur under one parent (0 is unlimited).
    occurrences_per_set: u32,
    /// The delimiter used when text is gathered.
    textdelimiter: Option<String>,
    printable: bool,
    speakable: bool,
    hidden: bool,
    xlink: bool,
    /// Whether the element directly holds text.
    textcontainer: bool,
    /// Whether the element directly holds phonetic content.
    phoncontainer: bool,
    subset: Option<String>,
    /// The default authoritative state.
    auth: bool,
    /// Whether this is the primary element of its annotation type.
    primaryelement: bool,
    /// Whether an identity is generated where none is given.
    auto_generate_id: bool,
    /// Whether the element takes a set but no class.
    setonly: bool,
    /// Whether the element may be referred to as a word.
    wrefable: bool,
}

/// Position `i` holds the first attribute of type `t` in `s`.
pub open spec fn is_first_of_type(s: Seq<Attribute>, t: AttribType, i: int) -> bool {
    0 <= i < s.len() && s[i].spec_attribtype() == t && forall|j: int|
        0 <= j < i ==> (#[trigger] s[j]).spec_attribtype() != t
}

/// Whether `s` holds an attribute of type `t`.
pub open spec fn has_type(s: Seq<Attribute>, t: AttribType) -> bool {
    exists|i: int| 0 <= i < s.len() && (#[trigger] s[i]).spec_attribtype() == t
}

/// `s` without its attributes of type `t`, the others in order.
pub open spec fn without_type(s: Seq<Attribute>, t: AttribType) -> Seq<Attribute>
    decreases s.len(),
{
    if s.len() == 0 {
        s
    } else {
        let rest = without_type(s.drop_last(), t);
        if s.last().spec_attribtype() == t {
            rest
        } else {
            rest.push(s.last())
        }
    }
}

/// The attributes after `a` is set on `s`: every attribute of its type goes, then `a` is added.
pub open spec fn spec_set_attrib(s: Seq<Attribute>, a: Attribute) -> Seq<Attribute> {
    without_type(s, a.spec_attribtype()).push(a)
}

/// Removing the attributes of a type leaves none of that type.
pub proof fn lemma_without_type(s: Seq<Attribute>, t: AttribType)
    ensures
        forall|i: int|
            0 <= i < without_type(s, t).len() ==> (#[trigger] without_type(s, t)[i]).spec_attribtype()
                != t,
    decreases s.len(),
{
    if s.len() > 0 {
        lemma_without_type(s.drop_last(), t);
    }
}

/// Setting two attributes of one type, one after the other, leaves exactly
/// one attribute of that type: the second.
pub proof fn lemma_set_attrib_twice(s: Seq<Attribute>, a1: Attribute, a2: Attribute)
    requires
        a1.spec_attribtype() == a2.spec_attribtype(),
    ensures
        ({
            let r = spec_set_attrib(spec_set_attrib(s, a1), a2);
            &&& r.last() == a2
            &&& forall|i: int|
                0 <= i < r.len() && (#[trigger] r[i]).spec_attribtype() == a2.spec_attribtype()
                    ==> i == r.len() - 1
        }),
{
    lemma_without_type(spec_set_attrib(s, a1), a2.spec_attribtype());
}

/// Position `i` holds the first content item equal to `x` in `s`.
pub open spec fn is_first_same(s: Seq<DataType>, x: DataType, i: int) -> bool {
    0 <= i < s.len() && s[i].same_as(x) && forall|j: int| 0 <= j < i ==> !(#[trigger] s[j]).same_as(x)
}

/// A node as the contracts see it.
pub struct ElementView {
    pub elementtype: ElementType,
    pub attribs: Seq<Attribute>,
    pub data: Seq<DataType>,
    pub parent: Option<IntId>,
}

/// The position of the first attribute of a type, if there is one.
pub open spec fn first_of_type(s: Seq<Attribute>, t: AttribType) -> Option<int> {
    if exists|i: int| is_first_of_type(s, t, i) {
        Some(choose|i: int| is_first_of_type(s, t, i))
    } else {
        None
    }
}

/// The position of the first content item equal to `x`, if there is one.
pub open spec fn first_same(s: Seq<DataType>, x: DataType) -> Option<int> {
    if exists|i: int| is_first_same(s, x, i) {
        Some(choose|i: int| is_first_same(s, x, i))
    } else {
        None
    }
}

/// The string identity of a node: the value of its first `ID` attribute.
pub open spec fn id_of(s: Seq<Attribute>) -> Option<Seq<char>> {
    match first_of_type(s, AttribType::ID) {
        Some(i) => Some(s[i].spec_value()),
        None => None,
    }
}

pub proof fn lemma_first_of_type(s: Seq<Attribute>, t: AttribType, i: int)
    requires
        is_first_of_type(s, t, i),
    ensures
        first_of_type(s, t) == Some(i),
{
    let j = choose|j: int| is_first_of_type(s, t, j);
    assert(is_first_of_type(s, t, j));
}

pub proof fn lemma_first_same(s: Seq<DataType>, x: DataType, i: int)
    requires
        is_first_same(s, x, i),
    ensures
        first_same(s, x) == Some(i),
{
    let j = choose|j: int| is_first_same(s, x, j);
    assert(is_first_same(s, x, j));
}

/// A node of the document tree: its kind, its attributes, its ordered
/// content, and the key of its parent, if it has one.
pub struct FoliaElement {
    pub elementtype: ElementType,
    pub attribs: Vec<Attribute>,
    data: Vec<DataType>,
    parent: Option<IntId>,
}

impl View for FoliaElement {
    type V = ElementView;

    closed spec fn view(&self) -> ElementView {
        ElementView {
            elementtype: self.elementtype,
            attribs: self.attribs@,
            data: self.data@,
            parent: self.parent,
        }
    }
}

impl FoliaElement {
    /// An empty node of a kind: no attributes, no content, no parent.
    pub fn new(elementtype: ElementType) -> (r: FoliaElement)
        ensures
            r@ == (ElementView {
                elementtype: elementtype,
                attribs: Seq::empty(),
                data: Seq::empty(),
                parent: None,
            }),
    {
        FoliaElement { elementtype: elementtype, attribs: Vec::new(), data: Vec::new(), parent: None }
    }

    /// The position of the first attribute of a type.
    fn attrib_position(&self, atype: AttribType) -> (r: Option<usize>)
        ensures
            match r {
                Some(i) => is_first_of_type(self@.attribs, atype, i as int),
                None => !has_type(self@.attribs, atype),
            },
    {
        let mut i: usize = 0;
        while i < self.attribs.len()
            invariant
                i <= self.attribs@.len(),
                forall|j: int| 0 <= j < i ==> (#[trigger] self.attribs@[j]).spec_attribtype() != atype,
            decreases self.attribs@.len() - i,
        {
            if self.attribs[i].attribtype() == atype {
                return Some(i);
            }
            i = i + 1;
        }
        None
    }

    /// The first attribute of a type, if there is one.
    pub fn attrib(&self, atype: AttribType) -> (r: Option<&Attribute>)
        ensures
            match r {
                Some(a) => first_of_type(self@.attribs, atype) matches Some(i) && *a
                    == self@.attribs[i],
                None => first_of_type(self@.attribs, atype) is None,
            },
    {
        match self.attrib_position(atype) {
            Some(i) => {
                proof {
                    lemma_first_of_type(self@.attribs, atype, i as int);
                }
                Some(&self.attribs[i])
            },
            None => None,
        }
    }

    /// The value of the first attribute of a type as text; `None` where there
    /// is none, or where it is a confidence.
    pub fn attrib_string(&self, atype: AttribType) -> (r: Option<String>)
        ensures
            match first_of_type(self@.attribs, atype) {
                Some(i) => if self@.attribs[i] is Confidence {
                    r is None
                } else {
                    r matches Some(s) && s@ == self@.attribs[i].spec_value()
                },
                None => r is None,
            },
    {
        match self.attrib(atype) {
            Some(a) => match a {
                Attribute::Confidence(_) => None,
                _ => Some(a.value()),
            },
            None => None,
        }
    }

    /// Whether the node has an attribute of a type.
    pub fn has_attrib(&self, atype: AttribType) -> (r: bool)
        ensures
            r == has_type(self@.attribs, atype),
    {
        self.attrib_position(atype).is_some()
    }

    /// Remove and return the first attribute of a type.
    pub fn del_attrib(&mut self, atype: AttribType) -> (r: Option<Attribute>)
        ensures
            match first_of_type(old(self)@.attribs, atype) {
                Some(i) => r == Some(old(self)@.attribs[i]) && final(self)@ == (ElementView {
                    attribs: old(self)@.attribs.remove(i),
                    ..old(self)@
                }),
                None => r is None && final(self)@ == old(self)@,
            },
    {
        match self.attrib_position(atype) {
            Some(i) => {
                proof {
                    lemma_first_of_type(self@.attribs, atype, i as int);
                }
                Some(self.attribs.remove(i))
            },
            None => None,
        }
    }

    /// Set an attribute: every attribute of its type is removed first, so
    /// that the node holds exactly one of that type afterwards.
    pub fn set_attrib(&mut self, attrib: Attribute)
        ensures
            final(self)@ == (ElementView {
                attribs: spec_set_attrib(old(self)@.attribs, attrib),
                ..old(self)@
            }),
    {
        let t = attrib.attribtype();
        let mut kept: Vec<Attribute> = Vec::new();
        let mut rest: Vec<Attribute> = Vec::new();
        std::mem::swap(&mut self.attribs, &mut rest);
        let ghost all = rest@;
        let ghost n = rest.len();
        let mut i: usize = 0;
        while rest.len() > 0
            invariant
                rest@ == all.skip(i as int),
                i <= all.len(),
                all.len() == n,
                n <= usize::MAX,
                kept@ == without_type(all.take(i as int), t),
            decreases rest@.len(),
        {
            let a = rest.remove(0);
            proof {
                assert(all.take(i as int + 1).drop_last() =~= all.take(i as int));
                assert(all.take(i as int + 1).last() == a);
            }
            if a.attribtype() != t {
                kept.push(a);
            }
            i = i + 1;
            proof {
                assert(rest@ =~= all.skip(i as int));
            }
        }
        proof {
            assert(all.take(i as int) =~= all);
        }
        kept.push(attrib);
        self.attribs = kept;
    }

    /// Set an attribute, builder style.
    pub fn with_attrib(self, attrib: Attribute) -> (r: Self)
        ensures
            r@ == (ElementView { attribs: spec_set_attrib(self@.attribs, attrib), ..self@ }),
    {
        let mut s = self;
        s.set_attrib(attrib);
        s
    }

    /// Replace all attributes at once.
    pub fn set_attribs(&mut self, attribs: Vec<Attribute>)
        ensures
            final(self)@ == (ElementView { attribs: attribs@, ..old(self)@ }),
    {
        self.attribs = attribs;
    }

    /// Replace all attributes at once, builder style.
    pub fn with_attribs(self, attribs: Vec<Attribute>) -> (r: Self)
        ensures
            r@ == (ElementView { attribs: attribs@, ..self@ }),
    {
        let mut s = self;
        s.set_attribs(attribs);
        s
    }

    /// The identity of the node, as text.
    pub fn id(&self) -> (r: Option<String>)
        ensures
            match first_of_type(self@.attribs, AttribType::ID) {
                Some(i) => r matches Some(s) && s@ == self@.attribs[i].spec_value(),
                None => r is None,
            },
    {
        self.attrib_string(AttribType::ID)
    }

    pub fn class(&self) -> (r: Option<String>)
        ensures
            match first_of_type(self@.attribs, AttribType::CLASS) {
                Some(i) => r matches Some(s) && s@ == self@.attribs[i].spec_value(),
                None => r is None,
            },
    {
        self.attrib_string(AttribType::CLASS)
    }

    pub fn set(&self) -> (r: Option<String>)
        ensures
            match first_of_type(self@.attribs, AttribType::SET) {
                Some(i) => r matches Some(s) && s@ == self@.attribs[i].spec_value(),
                None => r is None,
            },
    {
        self.attrib_string(AttribType::SET)
    }

    pub fn processor(&self) -> (r: Option<String>)
        ensures
            match first_of_type(self@.attribs, AttribType::PROCESSOR) {
                Some(i) => r matches Some(s) && s@ == self@.attribs[i].spec_value(),
                None => r is None,
            },
    {
        self.attrib_string(AttribType::PROCESSOR)
    }

    /// Append a content item.
    pub fn push(&mut self, datatype: DataType)
        ensures
            final(self)@ == (ElementView { data: old(self)@.data.push(datatype), ..old(self)@ }),
    {
        self.data.push(datatype);
    }

    /// Append a content item, builder style.
    pub fn with(self, data: DataType) -> (r: Self)
        ensures
            r@ == (ElementView { data: self@.data.push(data), ..self@ }),
    {
        let mut s = self;
        s.push(data);
        s
    }

    /// Append content items in order, builder style.
    pub fn with_data(self, data: Vec<DataType>) -> (r: Self)
        ensures
            r@ == (ElementView { data: self@.data + data@, ..self@ }),
    {
        let mut s = self;
        let ghost start = s@;
        let mut data = data;
        let ghost all = data@;
        let ghost n = data.len();
        let mut i: usize = 0;
        while data.len() > 0
            invariant
                data@ == all.skip(i as int),
                i <= all.len(),
                all.len() == n,
                n <= usize::MAX,
                s@ == (ElementView { data: start.data + all.take(i as int), ..start }),
            decreases data@.len(),
        {
            let d = data.remove(0);
            s.push(d);
            i = i + 1;
            proof {
                assert(data@ =~= all.skip(i as int));
                assert(start.data + all.take(i as int) =~= (start.data + all.take(i - 1)).push(d));
            }
        }
        proof {
            assert(all.take(i as int) =~= all);
        }
        s
    }

    pub fn get_parent(&self) -> (r: Option<IntId>)
        ensures
            r == self@.parent,
    {
        self.parent
    }

    pub fn set_parent(&mut self, parent: Option<IntId>)
        ensures
            final(self)@ == (ElementView { parent: parent, ..old(self)@ }),
    {
        self.parent = parent;
    }

    /// Set the parent, builder style.
    pub fn with_parent(self, parent: Option<IntId>) -> (r: Self)
        ensures
            r@ == (ElementView { parent: parent, ..self@ }),
    {
        let mut s = self;
        s.set_parent(parent);
        s
    }

    /// The content item at a position; `None` past the end.
    pub fn get(&self, index: usize) -> (r: Option<&DataType>)
        ensures
            match r {
                Some(d) => index < self@.data.len() && *d == self@.data[index as int],
                None => index >= self@.data.len(),
            },
    {
        if index < self.data.len() {
            Some(&self.data[index])
        } else {
            None
        }
    }

    /// The number of content items.
    pub fn len(&self) -> (r: usize)
        ensures
            r == self@.data.len(),
    {
        self.data.len()
    }

    /// The position of the first content item equal to `refchild`.
    pub fn index(&self, refchild: &DataType) -> (r: Option<usize>)
        ensures
            match r {
                Some(i) => first_same(self@.data, *refchild) == Some(i as int),
                None => first_same(self@.data, *refchild) is None,
            },
    {
        let mut i: usize = 0;
        while i < self.data.len()
            invariant
                i <= self.data@.len(),
                forall|j: int| 0 <= j < i ==> !(#[trigger] self.data@[j]).same_as(*refchild),
            decreases self.data@.len() - i,
        {
            if self.data[i] == *refchild {
                proof {
                    lemma_first_same(self@.data, *refchild, i as int);
                }
                return Some(i);
            }
            i = i + 1;
        }
        None
    }

    /// Remove and return the content item at a position; `None` past the end.
    pub fn remove(&mut self, index: usize) -> (r: Option<DataType>)
        ensures
            index < old(self)@.data.len() ==> r == Some(old(self)@.data[index as int])
                && final(self)@ == (ElementView {
                data: old(self)@.data.remove(index as int),
                ..old(self)@
            }),
            index >= old(self)@.data.len() ==> r is None && final(self)@ == old(self)@,
    {
        if index >= self.data.len() {
            None
        } else {
            Some(self.data.remove(index))
        }
    }

    /// Parse wire attributes, given as name and raw value pairs, in order;
    /// the first that fails to parse gives the error.
    pub fn parse_attributes(attribs: &Vec<(Vec<u8>, Vec<u8>)>) -> (r: Result<Vec<Attribute>, FoliaError>)
        ensures
            parse_all_post(pairs_view(attribs@), r),
    {
        let ghost p = pairs_view(attribs@);
        let mut attributes: Vec<Attribute> = Vec::new();
        let mut i: usize = 0;
        while i < attribs.len()
            invariant
                p == pairs_view(attribs@),
                i <= attribs@.len(),
                attributes@.len() == i,
                forall|j: int| 0 <= j < i ==> spec_parse(p[j].0, p[j].1) is Ok,
                forall|j: int| 0 <= j < i ==> attrib_is(#[trigger] attributes@[j], spec_parse(p[j].0, p[j].1)),
            decreases attribs@.len() - i,
        {
            match Attribute::parse(attribs[i].0.as_slice(), attribs[i].1.as_slice()) {
                Ok(a) => {
                    attributes.push(a);
                },
                Err(e) => {
                    proof {
                        assert(is_first_failure(p, i as int));
                    }
                    return Err(e);
                },
            }
            i = i + 1;
        }
        Ok(attributes)
    }

    /// Parse a node from the contents of a start tag (its name, then its
    /// attributes), where the name takes the first `name_len` bytes. The node
    /// has the attributes of the tag, no content and no parent; its kind is
    /// that of the tag name without namespace prefix.
    pub fn parse(start: &[u8], name_len: usize) -> (r: Result<FoliaElement, FoliaError>)
        ensures
            parse_post(start@, name_len as nat, r),
    {
        if name_len > start.len() {
            return Err(FoliaError::ParseError(String::from_str("Start tag is shorter than its name")));
        }
        let pairs = match start_tag_attributes(start, name_len) {
            Some(pairs) => pairs,
            None => {
                return Err(FoliaError::ParseError(String::from_str("Malformed attribute in start tag")));
            },
        };
        let attributes = match FoliaElement::parse_attributes(&pairs) {
            Ok(a) => a,
            Err(e) => {
                return Err(e);
            },
        };
        proof {
            let p = pairs_view(pairs@);
            assert forall|i: int| !is_first_failure(p, i) by {
                if 0 <= i < p.len() {
                    assert(attrib_is(attributes@[i], spec_parse(p[i].0, p[i].1)));
                }
            }
        }
        let local = local_name(start, name_len);
        let tag = match decode_utf8_bytes(local.as_slice()) {
            Some(t) => t,
            None => {
                return Err(FoliaError::ParseError(String::from_str("Unable to parse tag name (invalid utf-8?)")));
            },
        };
        let elementtype = match ElementType::from_str(tag.as_str()) {
            Ok(k) => k,
            Err(e) => {
                return Err(e);
            },
        };
        Ok(FoliaElement::new(elementtype).with_attribs(attributes))
    }
}

/// An attribute is what a parse outcome says: of its type, with its value.
pub open spec fn attrib_is(a: Attribute, o: Result<(AttribType, Seq<char>), Seq<char>>) -> bool {
    o matches Ok((t, v)) && a.spec_attribtype() == t && a.spec_value() == v
}

/// Position `i` holds the first wire attribute that fails to parse.
pub open spec fn is_first_failure(p: Seq<(Seq<u8>, Seq<u8>)>, i: int) -> bool {
    0 <= i < p.len() && spec_parse(p[i].0, p[i].1) is Err && forall|j: int|
        0 <= j < i ==> (#[trigger] spec_parse(p[j].0, p[j].1)) is Ok
}

/// What parsing a list of wire attributes gives: every attribute, in order,
/// where each parses; else the error of the first that fails.
pub open spec fn parse_all_post(p: Seq<(Seq<u8>, Seq<u8>)>, r: Result<Vec<Attribute>, FoliaError>) -> bool {
    match r {
        Ok(v) => v@.len() == p.len() && forall|j: int|
            0 <= j < p.len() ==> attrib_is(#[trigger] v@[j], spec_parse(p[j].0, p[j].1)),
        Err(e) => exists|i: int|
            is_first_failure(p, i) && (e matches FoliaError::ParseError(m) && m@ == spec_parse(
                p[i].0,
                p[i].1,
            )->Err_0),
    }
}

/// The tag name without namespace prefix: what follows the first `:`, if any.
pub open spec fn local_name_of(name: Seq<u8>) -> Seq<u8> {
    if exists|i: int| 0 <= i < name.len() && name[i] == 58u8 {
        name.skip((choose|i: int| is_first_colon(name, i)) + 1)
    } else {
        name
    }
}

/// Position `i` holds the first `:` of a name.
pub open spec fn is_first_colon(name: Seq<u8>, i: int) -> bool {
    0 <= i < name.len() && name[i] == 58u8 && forall|j: int| 0 <= j < i ==> name[j] != 58u8
}

/// What parsing a start tag gives.
pub open spec fn parse_post(start: Seq<u8>, name_len: nat, r: Result<FoliaElement, FoliaError>) -> bool {
    if name_len > start.len() {
        r matches Err(FoliaError::ParseError(m)) && m@ == "Start tag is shorter than its name"@
    } else {
        match attributes_of(start, name_len) {
            None => r matches Err(FoliaError::ParseError(m)) && m@ == "Malformed attribute in start tag"@,
            Some(p) => if exists|i: int| is_first_failure(p, i) {
                exists|i: int|
                    is_first_failure(p, i) && (r matches Err(FoliaError::ParseError(m)) && m@
                        == spec_parse(p[i].0, p[i].1)->Err_0)
            } else {
                let name = local_name_of(start.take(name_len as int));
                if !valid_utf8(name) {
                    r matches Err(FoliaError::ParseError(m)) && m@ == "Unable to parse tag name (invalid utf-8?)"@
                } else if forall|k: ElementType| #[trigger] k.spec_as_str() != decode_utf8(name) {
                    r matches Err(FoliaError::ParseError(m)) && m@
                        == "Unknown tag has no associated element type: "@ + decode_utf8(name)
                } else {
                    r matches Ok(e) && e@.elementtype.spec_as_str() == decode_utf8(name)
                        && e@.data.len() == 0 && e@.parent is None && e@.attribs.len() == p.len()
                        && forall|j: int|
                        0 <= j < p.len() ==> attrib_is(#[trigger] e@.attribs[j], spec_parse(p[j].0, p[j].1))
                }
            },
        }
    }
}

/// The tag name, from the contents of a start tag, without namespace prefix.
fn local_name(start: &[u8], name_len: usize) -> (r: Vec<u8>)
    requires
        name_len <= start@.len(),
    ensures
        r@ == local_name_of(start@.take(name_len as int)),
{
    let ghost name = start@.take(name_len as int);
    let mut i: usize = 0;
    while i < name_len && start[i] != 58u8
        invariant
            name_len <= start@.len(),
            name == start@.take(name_len as int),
            i <= name_len,
            forall|j: int| 0 <= j < i ==> name[j] != 58u8,
        decreases name_len - i,
    {
        i = i + 1;
    }
    let from = if i < name_len {
        proof {
            assert(is_first_colon(name, i as int));
            let c = choose|c: int| is_first_colon(name, c);
            assert(c == i);
        }
        i + 1
    } else {
        0
    };
    let mut r: Vec<u8> = Vec::new();
    let mut j: usize = from;
    while j < name_len
        invariant
            name_len <= start@.len(),
            name == start@.take(name_len as int),
            from <= j <= name_len,
            r@ == name.subrange(from as int, j as int),
        decreases name_len - j,
    {
        r.push(start[j]);
        j = j + 1;
        proof {
            assert(r@ =~= name.subrange(from as int, j as int));
        }
    }
    proof {
        assert(r@ =~= name.skip(from as int));
        if i >= name_len {
            assert(name.skip(0) =~= name);
        }
    }
    r
}

} // verus!
