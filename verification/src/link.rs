//! Share links: their parts, and the encodings in them.

use crate::fields::Fields;
use crate::text::text_from_utf8;
use crate::yaml::Yaml;
use base64::Engine;
use vstd::prelude::*;

verus! {

/// The parts of a share link.
#[derive(Debug, PartialEq, Eq)]
pub struct ShareLink {
    pub scheme: String,
    pub username: String,
    pub host: Option<String>,
    pub port: Option<u16>,
    /// The keys and values of the query, decoded, in their order.
    pub query: Vec<(String, String)>,
    /// What follows the `#`, still encoded.
    pub fragment: Option<String>,
}

/// What the parts of a share link hold.
pub struct LinkParts {
    pub scheme: Seq<char>,
    pub username: Seq<char>,
    pub host: Option<Seq<char>>,
    pub port: Option<u16>,
    pub query: Seq<(Seq<char>, Seq<char>)>,
    pub fragment: Option<Seq<char>>,
}

impl View for ShareLink {
    type V = LinkParts;

    open spec fn view(&self) -> LinkParts {
        LinkParts {
            scheme: self.scheme@,
            username: self.username@,
            host: crate::profiles::text_of(self.host),
            port: self.port,
            query: self.query@.map_values(|pair: (String, String)| (pair.0@, pair.1@)),
            fragment: crate::profiles::text_of(self.fragment),
        }
    }
}

/// What `url::Url::parse` makes of a text: the parts that the accessors of the
/// `Url` give, or the message of the error.
pub uninterp spec fn link_parts(link: Seq<char>) -> Result<LinkParts, Seq<char>>;

/// What `percent_encoding::percent_decode_str` followed by `decode_utf8_lossy`
/// gives for a text.
pub uninterp spec fn percent_decoded(text: Seq<char>) -> Seq<char>;

/// The bytes that `decode` of `base64::engine::general_purpose::STANDARD` gives
/// for a text, if it accepts it.
pub uninterp spec fn base64_decoded(text: Seq<char>) -> Option<Seq<u8>>;

/// The members that `serde_json::from_str` reads from a text into a `BTreeMap`
/// from text to `serde_yaml::Value`, in the order of that map, if it accepts it.
pub uninterp spec fn json_members(text: Seq<char>) -> Option<Seq<(Seq<char>, Yaml)>>;

/// Wraps `url::Url::parse`, the accessors `scheme`, `username`, `host_str`,
/// `port`, `query_pairs` and `fragment` of the `Url`, and the message of the
/// error: what they give depends on the text alone.
#[verifier::external_body]
pub(crate) fn parse_link(link: &str) -> (parsed: Result<ShareLink, String>)
    ensures
        match parsed {
            Ok(parts) => link_parts(link@) == Ok::<LinkParts, Seq<char>>(parts@),
            Err(message) => link_parts(link@) == Err::<LinkParts, Seq<char>>(message@),
        },
{
    let url = url::Url::parse(link).map_err(|error| error.to_string())?;
    Ok(ShareLink {
        scheme: url.scheme().to_string(),
        username: url.username().to_string(),
        host: url.host_str().map(|host| host.to_string()),
        port: url.port(),
        query: url.query_pairs().map(|(key, value)| (key.into_owned(), value.into_owned())).collect(),
        fragment: url.fragment().map(|fragment| fragment.to_string()),
    })
}

/// Wraps `percent_encoding::percent_decode_str` and `decode_utf8_lossy` on its
/// result: what they give depends on the text alone, and a text without a percent
/// sign stays as it is.
#[verifier::external_body]
pub(crate) fn percent_decode(text: &str) -> (decoded: String)
    ensures
        decoded@ == percent_decoded(text@),
        !text@.contains('%') ==> decoded@ == text@,
{
    percent_encoding::percent_decode_str(text).decode_utf8_lossy().to_string()
}

/// Wraps `decode` of `base64::engine::general_purpose::STANDARD`: whether it
/// accepts a text, and the bytes it gives, depend on the text alone.
#[verifier::external_body]
pub(crate) fn base64_decode(text: &str) -> (bytes: Option<Vec<u8>>)
    ensures
        match bytes {
            Some(bytes) => base64_decoded(text@) == Some(bytes@),
            None => base64_decoded(text@) is None,
        },
{
    base64::engine::general_purpose::STANDARD.decode(text).ok()
}

/// Wraps `serde_json::from_str` to a `BTreeMap` from text to `serde_yaml::Value`:
/// whether it accepts a text, and the members it gives, depend on the text alone.
/// The members come in ascending order of their keys, and JSON has no tags.
#[verifier::external_body]
pub(crate) fn parse_json_members(text: &str) -> (members: Option<Vec<(String, serde_yaml::Value)>>)
    ensures
        match members {
            Some(entries) => {
                &&& json_members(text@) == Some(crate::fields::pairs_of(entries@))
                &&& crate::fields::ascending(crate::fields::pairs_of(entries@))
                &&& crate::fields::values_tag_free(crate::fields::pairs_of(entries@))
            },
            None => json_members(text@) is None,
        },
{
    serde_json::from_str::<std::collections::BTreeMap<String, serde_yaml::Value>>(text)
        .ok()
        .map(|members| members.into_iter().collect())
}

/// The text whose UTF-8 encoding is given in Base64.
pub open spec fn decoded_text(encoded: Seq<char>) -> Option<Seq<char>> {
    match base64_decoded(encoded) {
        Some(bytes) => if vstd::utf8::valid_utf8(bytes) {
            Some(vstd::utf8::decode_utf8(bytes))
        } else {
            None
        },
        None => None,
    }
}

/// The fields of the JSON object whose text is given in Base64.
pub open spec fn decoded_object(encoded: Seq<char>) -> Option<Map<Seq<char>, Yaml>> {
    match decoded_text(encoded) {
        Some(text) => match json_members(text) {
            Some(members) => Some(crate::fields::by_key(members)),
            None => None,
        },
        None => None,
    }
}

/// Decodes a text given in Base64.
pub fn decode_text(encoded: &str) -> (text: Option<String>)
    ensures
        crate::profiles::text_of(text) == decoded_text(encoded@),
{
    match base64_decode(encoded) {
        Some(bytes) => text_from_utf8(bytes),
        None => None,
    }
}

/// What optional fields hold.
pub open spec fn fields_of(fields: Option<Fields>) -> Option<Map<Seq<char>, Yaml>> {
    match fields {
        Some(fields) => Some(fields@),
        None => None,
    }
}

/// Decodes a JSON object whose text is given in Base64.
pub fn decode_object(encoded: &str) -> (object: Option<Fields>)
    ensures
        fields_of(object) == decoded_object(encoded@),
        object matches Some(fields) ==> fields.well_formed(),
{
    match decode_text(encoded) {
        Some(text) => match parse_json_members(text.as_str()) {
            Some(members) => Some(Fields::from_entries(members)),
            None => None,
        },
        None => None,
    }
}

} // verus!
