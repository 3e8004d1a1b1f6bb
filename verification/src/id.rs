//! The identifier that pairs a response with its request.

use crate::json::from_i64;
use crate::json::from_string;
use crate::json::json_of;
use crate::json::null;
use crate::json::Json;
use crate::json::JsonNumber;
use vstd::prelude::*;
use vstd::std_specs::convert::FromSpecImpl;

verus! {

/// An identifier established by the client: a number, a string, or nothing.
/// A request without one is a notification.
#[derive(Debug, PartialEq, Eq, Hash)]
pub enum Id {
    Num(i64),
    Str(String),
    Null(()),
}

/// What an [`Id`] holds.
pub enum IdView {
    Num(i64),
    Str(Seq<char>),
    Null,
}

impl View for Id {
    type V = IdView;

    open spec fn view(&self) -> IdView {
        match self {
            Id::Num(n) => IdView::Num(*n),
            Id::Str(text) => IdView::Str(text@),
            Id::Null(_) => IdView::Null,
        }
    }
}

impl IdView {
    /// The document that stands for the identifier: a bare number, a bare
    /// string, or `null`.
    pub open spec fn encode(self) -> Json {
        match self {
            IdView::Num(n) => Json::Number(JsonNumber::Integer(n as int)),
            IdView::Str(text) => Json::String(text),
            IdView::Null => Json::Null,
        }
    }

    /// The identifier that a document stands for: an integer that fits 64
    /// signed bits, else a string, else `null`; nothing for any other
    /// document.
    pub open spec fn decode(document: Json) -> Option<IdView> {
        match document {
            Json::Number(_) => match document.integer_within(i64::MIN as int, i64::MAX as int) {
                Some(n) => Some(IdView::Num(n as i64)),
                None => None,
            },
            Json::String(text) => Some(IdView::Str(text)),
            Json::Null => Some(IdView::Null),
            _ => None,
        }
    }
}

impl Clone for Id {
    fn clone(&self) -> (copy: Id)
        ensures
            copy == *self,
    {
        match self {
            Id::Num(n) => Id::Num(*n),
            Id::Str(text) => Id::Str(text.clone()),
            Id::Null(_) => Id::Null(()),
        }
    }
}

impl From<()> for Id {
    fn from(val: ()) -> (id: Id) {
        Id::Null(val)
    }
}

impl FromSpecImpl<()> for Id {
    open spec fn obeys_from_spec() -> bool {
        true
    }

    open spec fn from_spec(val: ()) -> Id {
        Id::Null(val)
    }
}

impl From<i64> for Id {
    fn from(val: i64) -> (id: Id) {
        Id::Num(val)
    }
}

impl FromSpecImpl<i64> for Id {
    open spec fn obeys_from_spec() -> bool {
        true
    }

    open spec fn from_spec(val: i64) -> Id {
        Id::Num(val)
    }
}

impl From<String> for Id {
    fn from(val: String) -> (id: Id) {
        Id::Str(val)
    }
}

impl FromSpecImpl<String> for Id {
    open spec fn obeys_from_spec() -> bool {
        true
    }

    open spec fn from_spec(val: String) -> Id {
        Id::Str(val)
    }
}

impl Id {
    /// Writes the identifier as a JSON value: a bare number, a bare string,
    /// or `null`.
    pub fn serialize(&self) -> (value: serde_json::Value)
        ensures
            json_of(value) == self@.encode(),
    {
        match self {
            Id::Num(n) => from_i64(*n),
            Id::Str(text) => from_string(text.clone()),
            Id::Null(_) => null(),
        }
    }

    /// Reads an identifier from a JSON value, trying an integer, then a
    /// string, then `null`. Any other value is no identifier.
    pub fn deserialize(value: &serde_json::Value) -> (id: Option<Id>)
        ensures
            match id {
                Some(id) => IdView::decode(json_of(*value)) == Some(id@),
                None => IdView::decode(json_of(*value)) is None,
            },
    {
        if let Some(n) = value.as_i64() {
            Some(Id::Num(n))
        } else if let Some(text) = value.as_str() {
            Some(Id::Str(text.to_owned()))
        } else if value.is_null() {
            Some(Id::Null(()))
        } else {
            None
        }
    }
}

/// Writing an identifier and reading it back gives the same identifier.
pub proof fn lemma_id_round_trip(id: IdView)
    ensures
        IdView::decode(id.encode()) == Some(id),
{
}

} // verus!
