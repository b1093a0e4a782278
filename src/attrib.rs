use vstd::prelude::*;
use vstd::string::StringExecFns;
use vstd::utf8::*;

use crate::error::FoliaError;
use crate::text::{check_float_text, concat3, is_float_text, str_eq};
use crate::xml::{decode_utf8_bytes, unescape, unescape_of};

verus! {

/// The kind of an attribute: one tag for each variant of [`Attribute`].
#[derive(Debug, Clone, Copy, PartialEq, Eq, Structural)]
pub enum AttribType {
    ID, SET, CLASS, ANNOTATOR, ANNOTATORTYPE, CONFIDENCE, N, DATETIME, BEGINTIME, ENDTIME, SRC, SPEAKER, TEXTCLASS, METADATA, IDREF, SPACE, PROCESSOR, HREF, FORMAT, SUBSET
}

impl AttribType {
    /// The name of the attribute type.
    pub open spec fn spec_as_str(self) -> Seq<char> {
        match self {
            AttribType::ID => "xml:id"@,
            AttribType::SET => "set"@,
            AttribType::CLASS => "class"@,
            AttribType::ANNOTATOR => "annotator"@,
            AttribType::ANNOTATORTYPE => "annotatortype"@,
            AttribType::CONFIDENCE => "confidence"@,
            AttribType::N => "n"@,
            AttribType::DATETIME => "datetime"@,
            AttribType::BEGINTIME => "begintime"@,
            AttribType::ENDTIME => "endtime"@,
            AttribType::SRC => "src"@,
            AttribType::SPEAKER => "speaker"@,
            AttribType::TEXTCLASS => "textclass"@,
            AttribType::METADATA => "metadata"@,
            AttribType::IDREF => "id"@,
            AttribType::SPACE => "space"@,
            AttribType::PROCESSOR => "processor"@,
            AttribType::HREF => "href"@,
            AttribType::FORMAT => "format"@,
            AttribType::SUBSET => "subset"@,
        }
    }

    /// The name of the attribute type.
    pub fn as_str(&self) -> (r: &'static str)
        ensures
            r@ == self.spec_as_str(),
    {
        match self {
            AttribType::ID => "xml:id",
            AttribType::SET => "set",
            AttribType::CLASS => "class",
            AttribType::ANNOTATOR => "annotator",
            AttribType::ANNOTATORTYPE => "annotatortype",
            AttribType::CONFIDENCE => "confidence",
            AttribType::N => "n",
            AttribType::DATETIME => "datetime",
            AttribType::BEGINTIME => "begintime",
            AttribType::ENDTIME => "endtime",
            AttribType::SRC => "src",
            AttribType::SPEAKER => "speaker",
            AttribType::TEXTCLASS => "textclass",
            AttribType::METADATA => "metadata",
            AttribType::IDREF => "id",
            AttribType::SPACE => "space",
            AttribType::PROCESSOR => "processor",
            AttribType::HREF => "href",
            AttribType::FORMAT => "format",
            AttribType::SUBSET => "subset",
        }
    }
}
/// A typed attribute of a node. Each value is text, but for `Space`, a flag.
#[derive(Debug, Clone)]
pub enum Attribute {
    Id(String),
    /// The set definition that a class belongs to.
    AnnotationSet(String),
    Class(String),
    Annotator(String),
    AnnotatorType(String),
    /// A confidence, as the numeral text it was given in.
    Confidence(String),
    N(String),
    DateTime(String),
    BeginTime(String),
    EndTime(String),
    Src(String),
    Speaker(String),
    Textclass(String),
    Metadata(String),
    Idref(String),
    Space(bool),
    Processor(String),
    Href(String),
    Format(String),
    Subset(String),
}

/// The wire name of each attribute that [`Attribute::parse`] accepts, and its type.
pub open spec fn attrib_type_of_name(n: Seq<char>) -> Option<AttribType> {
    if n == "xml:id"@ {
        Some(AttribType::ID)
    } else if n == "set"@ {
        Some(AttribType::SET)
    } else if n == "class"@ {
        Some(AttribType::CLASS)
    } else if n == "processor"@ {
        Some(AttribType::PROCESSOR)
    } else if n == "annotator"@ {
        Some(AttribType::ANNOTATOR)
    } else if n == "annotatortype"@ {
        Some(AttribType::ANNOTATORTYPE)
    } else if n == "subset"@ {
        Some(AttribType::SUBSET)
    } else if n == "xlink:format"@ {
        Some(AttribType::FORMAT)
    } else if n == "xlink:href"@ {
        Some(AttribType::HREF)
    } else if n == "speaker"@ {
        Some(AttribType::SPEAKER)
    } else if n == "src"@ {
        Some(AttribType::SRC)
    } else if n == "n"@ {
        Some(AttribType::N)
    } else if n == "datetime"@ {
        Some(AttribType::DATETIME)
    } else if n == "begintime"@ {
        Some(AttribType::BEGINTIME)
    } else if n == "endtime"@ {
        Some(AttribType::ENDTIME)
    } else if n == "textclass"@ {
        Some(AttribType::TEXTCLASS)
    } else if n == "metadata"@ {
        Some(AttribType::METADATA)
    } else if n == "idref"@ {
        Some(AttribType::IDREF)
    } else if n == "confidence"@ {
        Some(AttribType::CONFIDENCE)
    } else if n == "space"@ {
        Some(AttribType::SPACE)
    } else {
        None
    }
}

/// The value of a raw wire attribute value: valid UTF-8, unescaped, and valid UTF-8 again.
pub open spec fn attrib_value_of(raw: Seq<u8>) -> Option<Seq<char>> {
    if valid_utf8(raw) {
        match unescape_of(raw) {
            Some(u) => if valid_utf8(u) {
                Some(decode_utf8(u))
            } else {
                None
            },
            None => None,
        }
    } else {
        None
    }
}

/// What parsing a wire attribute gives: its type and the text of its value,
/// or the message of a parse error.
pub open spec fn spec_parse(key: Seq<u8>, raw: Seq<u8>) -> Result<(AttribType, Seq<char>), Seq<char>> {
    match attrib_value_of(raw) {
        None => Err("Unable to parse attribute value (invalid utf-8?)"@),
        Some(v) => if !valid_utf8(key) {
            Err("Unable to parse attribute name (invalid utf-8?)"@)
        } else {
            match attrib_type_of_name(decode_utf8(key)) {
                None => Err("Unknown attribute: '"@ + decode_utf8(key) + "'"@),
                Some(t) => if t == AttribType::CONFIDENCE && !is_float_text(v) {
                    Err("Invalid confidence value: '"@ + v + "'"@)
                } else if t == AttribType::SPACE {
                    if v == "yes"@ || v == "true"@ {
                        Ok((t, "yes"@))
                    } else if v == "no"@ || v == "false"@ {
                        Ok((t, "no"@))
                    } else {
                        Err("Invalid space value: '"@ + v + "'"@)
                    }
                } else {
                    Ok((t, v))
                },
            }
        },
    }
}
impl Attribute {
    /// The type of the attribute.
    pub open spec fn spec_attribtype(&self) -> AttribType {
        match self {
            Attribute::Id(_) => AttribType::ID,
            Attribute::AnnotationSet(_) => AttribType::SET,
            Attribute::Class(_) => AttribType::CLASS,
            Attribute::Annotator(_) => AttribType::ANNOTATOR,
            Attribute::AnnotatorType(_) => AttribType::ANNOTATORTYPE,
            Attribute::Confidence(_) => AttribType::CONFIDENCE,
            Attribute::N(_) => AttribType::N,
            Attribute::DateTime(_) => AttribType::DATETIME,
            Attribute::BeginTime(_) => AttribType::BEGINTIME,
            Attribute::EndTime(_) => AttribType::ENDTIME,
            Attribute::Src(_) => AttribType::SRC,
            Attribute::Speaker(_) => AttribType::SPEAKER,
            Attribute::Textclass(_) => AttribType::TEXTCLASS,
            Attribute::Metadata(_) => AttribType::METADATA,
            Attribute::Idref(_) => AttribType::IDREF,
            Attribute::Space(_) => AttribType::SPACE,
            Attribute::Processor(_) => AttribType::PROCESSOR,
            Attribute::Href(_) => AttribType::HREF,
            Attribute::Format(_) => AttribType::FORMAT,
            Attribute::Subset(_) => AttribType::SUBSET,
        }
    }

    /// The value of the attribute as text: a flag reads `yes` or `no`.
    pub open spec fn spec_value(&self) -> Seq<char> {
        match self {
            Attribute::Id(s) => s@,
            Attribute::AnnotationSet(s) => s@,
            Attribute::Class(s) => s@,
            Attribute::Annotator(s) => s@,
            Attribute::AnnotatorType(s) => s@,
            Attribute::Confidence(s) => s@,
            Attribute::N(s) => s@,
            Attribute::DateTime(s) => s@,
            Attribute::BeginTime(s) => s@,
            Attribute::EndTime(s) => s@,
            Attribute::Src(s) => s@,
            Attribute::Speaker(s) => s@,
            Attribute::Textclass(s) => s@,
            Attribute::Metadata(s) => s@,
            Attribute::Idref(s) => s@,
            Attribute::Processor(s) => s@,
            Attribute::Href(s) => s@,
            Attribute::Format(s) => s@,
            Attribute::Subset(s) => s@,
            Attribute::Space(b) => if *b {
                "yes"@
            } else {
                "no"@
            },
        }
    }

    /// The class of the type: `SET` falls in the class of `CLASS`, and
    /// `PROCESSOR` and `ANNOTATORTYPE` in that of `ANNOTATOR`.
    pub open spec fn spec_attribtypeclass(&self) -> AttribType {
        match self.spec_attribtype() {
            AttribType::SET => AttribType::CLASS,
            AttribType::PROCESSOR => AttribType::ANNOTATOR,
            AttribType::ANNOTATORTYPE => AttribType::ANNOTATOR,
            t => t,
        }
    }

    /// The value of the attribute as text.
    pub fn value(&self) -> (r: String)
        ensures
            r@ == self.spec_value(),
    {
        match self {
            Attribute::Id(s) => s.clone(),
            Attribute::AnnotationSet(s) => s.clone(),
            Attribute::Class(s) => s.clone(),
            Attribute::Annotator(s) => s.clone(),
            Attribute::AnnotatorType(s) => s.clone(),
            Attribute::Confidence(s) => s.clone(),
            Attribute::N(s) => s.clone(),
            Attribute::DateTime(s) => s.clone(),
            Attribute::BeginTime(s) => s.clone(),
            Attribute::EndTime(s) => s.clone(),
            Attribute::Src(s) => s.clone(),
            Attribute::Speaker(s) => s.clone(),
            Attribute::Textclass(s) => s.clone(),
            Attribute::Metadata(s) => s.clone(),
            Attribute::Idref(s) => s.clone(),
            Attribute::Processor(s) => s.clone(),
            Attribute::Href(s) => s.clone(),
            Attribute::Format(s) => s.clone(),
            Attribute::Subset(s) => s.clone(),
            Attribute::Space(b) => if *b {
                String::from_str("yes")
            } else {
                String::from_str("no")
            },
        }
    }

    /// Whether two attributes are of one type.
    pub fn sametype(&self, other: &Attribute) -> (r: bool)
        ensures
            r == (self.spec_attribtype() == other.spec_attribtype()),
    {
        self.attribtype() == other.attribtype()
    }

    pub fn attribtype(&self) -> (r: AttribType)
        ensures
            r == self.spec_attribtype(),
    {
        match self {
            Attribute::Id(_) => AttribType::ID,
            Attribute::AnnotationSet(_) => AttribType::SET,
            Attribute::Class(_) => AttribType::CLASS,
            Attribute::Annotator(_) => AttribType::ANNOTATOR,
            Attribute::AnnotatorType(_) => AttribType::ANNOTATORTYPE,
            Attribute::Confidence(_) => AttribType::CONFIDENCE,
            Attribute::N(_) => AttribType::N,
            Attribute::DateTime(_) => AttribType::DATETIME,
            Attribute::BeginTime(_) => AttribType::BEGINTIME,
            Attribute::EndTime(_) => AttribType::ENDTIME,
            Attribute::Src(_) => AttribType::SRC,
            Attribute::Speaker(_) => AttribType::SPEAKER,
            Attribute::Textclass(_) => AttribType::TEXTCLASS,
            Attribute::Metadata(_) => AttribType::METADATA,
            Attribute::Idref(_) => AttribType::IDREF,
            Attribute::Space(_) => AttribType::SPACE,
            Attribute::Processor(_) => AttribType::PROCESSOR,
            Attribute::Href(_) => AttribType::HREF,
            Attribute::Format(_) => AttribType::FORMAT,
            Attribute::Subset(_) => AttribType::SUBSET,
        }
    }

    /// The attribute type class: related types share one class, which is one
    /// of the types.
    pub fn attribtypeclass(&self) -> (r: AttribType)
        ensures
            r == self.spec_attribtypeclass(),
    {
        let attribtype = self.attribtype();
        match attribtype {
            AttribType::SET => AttribType::CLASS,
            AttribType::PROCESSOR => AttribType::ANNOTATOR,
            AttribType::ANNOTATORTYPE => AttribType::ANNOTATOR,
            _ => attribtype,
        }
    }

    /// Parse a wire attribute, given its name and its raw value, into an
    /// attribute. The value is decoded and unescaped; the name must be one of
    /// the known vocabulary; a confidence must be a float numeral, and a space
    /// one of `yes`, `true`, `no`, `false`.
    pub fn parse(key: &[u8], raw: &[u8]) -> (r: Result<Attribute, FoliaError>)
        ensures
            match spec_parse(key@, raw@) {
                Ok((t, v)) => r matches Ok(a) && a.spec_attribtype() == t && a.spec_value() == v,
                Err(m) => r matches Err(FoliaError::ParseError(e)) && e@ == m,
            },
    {
        let value = match decode_utf8_bytes(raw) {
            Some(_) => match unescape(raw) {
                Some(u) => decode_utf8_bytes(u.as_slice()),
                None => None,
            },
            None => None,
        };
        let value = match value {
            Some(v) => v,
            None => {
                return Err(
                    FoliaError::ParseError(
                        String::from_str("Unable to parse attribute value (invalid utf-8?)"),
                    ),
                );
            },
        };
        let name = match decode_utf8_bytes(key) {
            Some(n) => n,
            None => {
                return Err(
                    FoliaError::ParseError(
                        String::from_str("Unable to parse attribute name (invalid utf-8?)"),
                    ),
                );
            },
        };
        if str_eq(name.as_str(), "xml:id") {
        Ok(Attribute::Id(value))
        } else if str_eq(name.as_str(), "set") {
        Ok(Attribute::AnnotationSet(value))
        } else if str_eq(name.as_str(), "class") {
        Ok(Attribute::Class(value))
        } else if str_eq(name.as_str(), "processor") {
        Ok(Attribute::Processor(value))
        } else if str_eq(name.as_str(), "annotator") {
        Ok(Attribute::Annotator(value))
        } else if str_eq(name.as_str(), "annotatortype") {
        Ok(Attribute::AnnotatorType(value))
        } else if str_eq(name.as_str(), "subset") {
        Ok(Attribute::Subset(value))
        } else if str_eq(name.as_str(), "xlink:format") {
        Ok(Attribute::Format(value))
        } else if str_eq(name.as_str(), "xlink:href") {
        Ok(Attribute::Href(value))
        } else if str_eq(name.as_str(), "speaker") {
        Ok(Attribute::Speaker(value))
        } else if str_eq(name.as_str(), "src") {
        Ok(Attribute::Src(value))
        } else if str_eq(name.as_str(), "n") {
        Ok(Attribute::N(value))
        } else if str_eq(name.as_str(), "datetime") {
        Ok(Attribute::DateTime(value))
        } else if str_eq(name.as_str(), "begintime") {
        Ok(Attribute::BeginTime(value))
        } else if str_eq(name.as_str(), "endtime") {
        Ok(Attribute::EndTime(value))
        } else if str_eq(name.as_str(), "textclass") {
        Ok(Attribute::Textclass(value))
        } else if str_eq(name.as_str(), "metadata") {
        Ok(Attribute::Metadata(value))
        } else if str_eq(name.as_str(), "idref") {
        Ok(Attribute::Idref(value))
        } else if str_eq(name.as_str(), "confidence") {
        if check_float_text(value.as_str()) {
            Ok(Attribute::Confidence(value))
        } else {
            Err(FoliaError::ParseError(concat3("Invalid confidence value: '", value.as_str(), "'")))
        }
        } else if str_eq(name.as_str(), "space") {
        if str_eq(value.as_str(), "yes") || str_eq(value.as_str(), "true") {
            Ok(Attribute::Space(true))
        } else if str_eq(value.as_str(), "no") || str_eq(value.as_str(), "false") {
            Ok(Attribute::Space(false))
        } else {
            Err(FoliaError::ParseError(concat3("Invalid space value: '", value.as_str(), "'")))
        }
        } else {
            Err(FoliaError::ParseError(concat3("Unknown attribute: '", name.as_str(), "'")))
        }
    }
}

} // verus!
