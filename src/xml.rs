use vstd::prelude::*;
use vstd::utf8::*;

verus! {

/// What XML unescaping makes of raw bytes: `None` where a reference is
/// unknown, unterminated or malformed.
pub uninterp spec fn unescape_of(raw: Seq<u8>) -> Option<Seq<u8>>;

/// The bytes of an optional owned byte vector, as the contracts see them.
pub open spec fn opt_bytes(o: Option<Vec<u8>>) -> Option<Seq<u8>> {
    match o {
        Some(v) => Some(v@),
        None => None,
    }
}

/// Relies on `quick_xml::escape::unescape`: replaces the predefined entities and
/// character references of raw bytes, and fails on a reference it cannot
/// resolve. The result depends on the bytes alone.
#[verifier::external_body]
pub(crate) fn unescape(raw: &[u8]) -> (r: Option<Vec<u8>>)
    ensures
        opt_bytes(r) == unescape_of(raw@),
{
    match quick_xml::escape::unescape(raw) {
        Ok(v) => Some(v.into_owned()),
        Err(_) => None,
    }
}

/// Relies on `std::str::from_utf8`: succeeds exactly on valid UTF-8, with the
/// characters that the bytes encode.
#[verifier::external_body]
pub(crate) fn decode_utf8_bytes(b: &[u8]) -> (r: Option<String>)
    ensures
        r is Some <==> valid_utf8(b@),
        r matches Some(s) ==> s@ == decode_utf8(b@),
{
    match std::str::from_utf8(b) {
        Ok(s) => Some(s.to_string()),
        Err(_) => None,
    }
}

/// The attributes of a start tag, each as its name and raw value, in order:
/// `None` where one of them is malformed.
pub uninterp spec fn attributes_of(start: Seq<u8>, name_len: nat) -> Option<Seq<(Seq<u8>, Seq<u8>)>>;

/// The bytes of a list of name and value pairs, as the contracts see them.
pub open spec fn pairs_view(v: Seq<(Vec<u8>, Vec<u8>)>) -> Seq<(Seq<u8>, Seq<u8>)> {
    v.map_values(|p: (Vec<u8>, Vec<u8>)| (p.0@, p.1@))
}

/// Relies on `quick_xml::events::BytesStart::attributes`: reads the
/// attributes that follow the name in the contents of a start tag, and stops
/// with an error at the first malformed one. The result depends on the bytes
/// alone.
#[verifier::external_body]
pub(crate) fn start_tag_attributes(start: &[u8], name_len: usize) -> (r: Option<Vec<(Vec<u8>, Vec<u8>)>>)
    ensures
        match r {
            Some(v) => attributes_of(start@, name_len as nat) == Some(pairs_view(v@)),
            None => attributes_of(start@, name_len as nat) is None,
        },
{
    let tag = quick_xml::events::BytesStart::borrowed(start, name_len);
    let mut out = Vec::new();
    for a in tag.attributes() {
        match a {
            Ok(a) => out.push((a.key.to_vec(), a.value.into_owned())),
            Err(_) => return None,
        }
    }
    Some(out)
}
} // verus!
