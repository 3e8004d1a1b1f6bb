//! Media types, as far as the content-type check reads them.
//!
//! The grammar of media types is left to the `mime` crate: what it makes of
//! a text is believed, not proved.

use crate::text::same_text;
use vstd::prelude::*;

verus! {

/// The parts of a media type that tell whether a body is JSON, in lower
/// case: `application`, `vnd.api` and `json` for `application/vnd.api+json`.
#[derive(Debug, PartialEq, Eq)]
pub struct MediaType {
    /// The top-level type, before the slash.
    pub kind: String,
    /// The subtype, after the slash and before any `+suffix` or parameter.
    pub subtype: String,
    /// The structured-syntax suffix, after the last `+` of the subtype.
    pub suffix: Option<String>,
}

/// What a [`MediaType`] holds.
pub struct MediaTypeView {
    pub kind: Seq<char>,
    pub subtype: Seq<char>,
    pub suffix: Option<Seq<char>>,
}

impl View for MediaType {
    type V = MediaTypeView;

    open spec fn view(&self) -> MediaTypeView {
        MediaTypeView {
            kind: self.kind@,
            subtype: self.subtype@,
            suffix: match self.suffix {
                Some(suffix) => Some(suffix@),
                None => None,
            },
        }
    }
}

impl MediaTypeView {
    /// Whether the media type says that the body is JSON: the top-level
    /// type is `application`, and the subtype or the suffix is `json`.
    pub open spec fn is_json(self) -> bool {
        self.kind == "application"@ && (self.subtype == "json"@ || self.suffix == Some("json"@))
    }
}

/// What `mime` reads from a text: the parts of the media type, or nothing
/// where the text is no media type.
pub uninterp spec fn media_type_of(text: Seq<char>) -> Option<MediaTypeView>;

/// Whether a `Content-Type` header says that the body is JSON. A request
/// without the header, or with one that is no media type, does not.
pub open spec fn is_json_content_type(content_type: Option<Seq<char>>) -> bool {
    match content_type {
        Some(text) => match media_type_of(text) {
            Some(media_type) => media_type.is_json(),
            None => false,
        },
        None => false,
    }
}

/// `FromStr` of `mime::Mime`, with `Mime::type_`, `Mime::subtype` and
/// `Mime::suffix` of what was read: the three parts of the media type that
/// the text spells, or nothing where `mime` refuses the text.
#[verifier::external_body]
fn parse_media_type(text: &str) -> (parsed: Option<MediaType>)
    ensures
        match parsed {
            Some(media_type) => media_type_of(text@) == Some(media_type@),
            None => media_type_of(text@) is None,
        },
{
    match text.parse::<mime::Mime>() {
        Ok(parsed) => Some(
            MediaType {
                kind: parsed.type_().as_str().to_owned(),
                subtype: parsed.subtype().as_str().to_owned(),
                suffix: parsed.suffix().map(|suffix| suffix.as_str().to_owned()),
            },
        ),
        Err(_) => None,
    }
}

impl MediaType {
    /// Whether the media type says that the body is JSON.
    pub fn is_json(&self) -> (json: bool)
        ensures
            json == self@.is_json(),
    {
        if !same_text(self.kind.as_str(), "application") {
            return false;
        }
        if same_text(self.subtype.as_str(), "json") {
            return true;
        }
        match &self.suffix {
            Some(suffix) => same_text(suffix.as_str(), "json"),
            None => false,
        }
    }
}

/// Whether the `Content-Type` header of a request says that its body is
/// JSON. `None` stands for a request without the header, or with one that
/// is not text.
pub fn json_content_type(content_type: Option<&str>) -> (json: bool)
    ensures
        json == is_json_content_type(
            match content_type {
                Some(text) => Some(text@),
                None => None,
            },
        ),
{
    let text = match content_type {
        Some(text) => text,
        None => return false,
    };
    match parse_media_type(text) {
        Some(media_type) => media_type.is_json(),
        None => false,
    }
}

} // verus!
