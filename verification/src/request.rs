//! The request envelope and its wire shape.

use crate::decode::lemma_names_differ;
use crate::decode::DecodeError;
use crate::decode::DecodeErrorView;
use crate::decode::EnvelopeError;
use crate::decode::Field;
use crate::id::lemma_id_round_trip;
use crate::id::Id;
use crate::id::IdView;
use crate::json::entry;
use crate::json::from_string;
use crate::json::get;
use crate::json::json_of;
use crate::json::json_parse;
use crate::json::json_text;
use crate::json::lemma_member_at;
use crate::json::lemma_member_index;
use crate::json::member;
use crate::json::member_count;
use crate::json::members_of;
use crate::json::object;
use crate::json::parse;
use crate::json::print;
use crate::json::Json;
use crate::text::same_text;
use vstd::prelude::*;

verus! {

/// A JSON-RPC request: who asks, for which method, with what parameters.
/// The version tag is no part of it: a request that was read had the right
/// one, and one that is written gets it.
#[derive(Debug, PartialEq)]
pub struct JsonRpcRequest {
    pub id: Id,
    pub method: String,
    pub params: serde_json::Value,
}

/// What a [`JsonRpcRequest`] holds.
pub struct JsonRpcRequestView {
    pub id: IdView,
    pub method: Seq<char>,
    pub params: Json,
}

impl View for JsonRpcRequest {
    type V = JsonRpcRequestView;

    open spec fn view(&self) -> JsonRpcRequestView {
        JsonRpcRequestView { id: self.id@, method: self.method@, params: json_of(self.params) }
    }
}

impl JsonRpcRequestView {
    /// The object that stands for the request: the members `jsonrpc` with
    /// the text `2.0`, `id`, `method` and `params`, in this order.
    pub open spec fn encode(self) -> Json {
        Json::Object(
            seq![
                ("jsonrpc"@, Json::String("2.0"@)),
                ("id"@, self.id.encode()),
                ("method"@, Json::String(self.method)),
                ("params"@, self.params),
            ],
        )
    }

    /// The request that a document stands for, or why it stands for none.
    /// The document has to be an object with exactly the members `jsonrpc`,
    /// `id`, `method` and `params`, of which `jsonrpc` is the text `2.0`,
    /// `id` an identifier and `method` a string.
    pub open spec fn decode(document: Json) -> Result<JsonRpcRequestView, EnvelopeError> {
        match document {
            Json::Object(members) => {
                let version = member(members, "jsonrpc"@);
                let id = member(members, "id"@);
                let method = member(members, "method"@);
                let params = member(members, "params"@);
                if version is None {
                    Err(EnvelopeError::MissingField(Field::Jsonrpc))
                } else if id is None {
                    Err(EnvelopeError::MissingField(Field::Id))
                } else if method is None {
                    Err(EnvelopeError::MissingField(Field::Method))
                } else if params is None {
                    Err(EnvelopeError::MissingField(Field::Params))
                } else if members.len() != 4 {
                    Err(EnvelopeError::UnknownField)
                } else if version.unwrap().text() is None {
                    Err(EnvelopeError::InvalidField(Field::Jsonrpc))
                } else if IdView::decode(id.unwrap()) is None {
                    Err(EnvelopeError::InvalidField(Field::Id))
                } else if method.unwrap().text() is None {
                    Err(EnvelopeError::InvalidField(Field::Method))
                } else if version.unwrap().text().unwrap() != "2.0"@ {
                    Err(EnvelopeError::UnknownVersion)
                } else {
                    Ok(
                        JsonRpcRequestView {
                            id: IdView::decode(id.unwrap()).unwrap(),
                            method: method.unwrap().text().unwrap(),
                            params: params.unwrap(),
                        },
                    )
                }
            },
            _ => Err(EnvelopeError::NotAnObject),
        }
    }

    /// The request that a text stands for, or why it stands for none: the
    /// parser's message where the text is not JSON, else what `decode`
    /// makes of the document.
    pub open spec fn decode_text(text: Seq<u8>) -> Result<JsonRpcRequestView, DecodeErrorView> {
        match json_parse(text) {
            Ok(document) => match Self::decode(document) {
                Ok(request) => Ok(request),
                Err(error) => Err(DecodeErrorView::Envelope(error)),
            },
            Err(said) => Err(DecodeErrorView::Syntax(said)),
        }
    }
}

impl JsonRpcRequest {
    /// Writes the request as a JSON object with exactly four members:
    /// `jsonrpc` with the text `2.0`, `id`, `method` and `params`.
    pub fn serialize(&self) -> (value: serde_json::Value)
        ensures
            json_of(value) == self@.encode(),
    {
        let mut members: Vec<(String, serde_json::Value)> = Vec::new();
        members.push(entry("jsonrpc", from_string("2.0".to_owned())));
        members.push(entry("id", self.id.serialize()));
        members.push(entry("method", from_string(self.method.clone())));
        members.push(entry("params", self.params.clone()));
        proof {
            lemma_names_differ();
            assert(members_of(members@) =~= self@.encode()->Object_0);
        }
        object(members)
    }

    /// Reads a request from a JSON value. The value has to be an object
    /// with exactly the members `jsonrpc`, `id`, `method` and `params`; the
    /// version tag has to be the text `2.0`.
    pub fn deserialize(value: &serde_json::Value) -> (read: Result<JsonRpcRequest, EnvelopeError>)
        ensures
            match read {
                Ok(request) => JsonRpcRequestView::decode(json_of(*value)) == Ok::<
                    JsonRpcRequestView,
                    EnvelopeError,
                >(request@),
                Err(error) => JsonRpcRequestView::decode(json_of(*value)) == Err::<
                    JsonRpcRequestView,
                    EnvelopeError,
                >(error),
            },
    {
        let count = match member_count(value) {
            Some(count) => count,
            None => return Err(EnvelopeError::NotAnObject),
        };
        let version = match get(value, "jsonrpc") {
            Some(version) => version,
            None => return Err(EnvelopeError::MissingField(Field::Jsonrpc)),
        };
        let id = match get(value, "id") {
            Some(id) => id,
            None => return Err(EnvelopeError::MissingField(Field::Id)),
        };
        let method = match get(value, "method") {
            Some(method) => method,
            None => return Err(EnvelopeError::MissingField(Field::Method)),
        };
        let params = match get(value, "params") {
            Some(params) => params,
            None => return Err(EnvelopeError::MissingField(Field::Params)),
        };
        if count != 4 {
            return Err(EnvelopeError::UnknownField);
        }
        let version = match version.as_str() {
            Some(version) => version,
            None => return Err(EnvelopeError::InvalidField(Field::Jsonrpc)),
        };
        let id = match Id::deserialize(id) {
            Some(id) => id,
            None => return Err(EnvelopeError::InvalidField(Field::Id)),
        };
        let method = match method.as_str() {
            Some(method) => method.to_owned(),
            None => return Err(EnvelopeError::InvalidField(Field::Method)),
        };
        if !same_text(version, "2.0") {
            return Err(EnvelopeError::UnknownVersion);
        }
        Ok(JsonRpcRequest { id, method, params: params.clone() })
    }

    /// Writes the request as compact JSON text.
    pub fn to_json(&self) -> (text: String)
        ensures
            text@ == json_text(self@.encode()),
    {
        print(&self.serialize())
    }

    /// Reads a request from JSON text. A text that is not JSON is a syntax
    /// error with the parser's message; a document that is no request is
    /// the envelope error that says why.
    pub fn from_slice(text: &[u8]) -> (read: Result<JsonRpcRequest, DecodeError>)
        ensures
            match read {
                Ok(request) => JsonRpcRequestView::decode_text(text@) == Ok::<
                    JsonRpcRequestView,
                    DecodeErrorView,
                >(request@),
                Err(error) => JsonRpcRequestView::decode_text(text@) == Err::<
                    JsonRpcRequestView,
                    DecodeErrorView,
                >(error@),
            },
    {
        match parse(text) {
            Ok(value) => match JsonRpcRequest::deserialize(&value) {
                Ok(request) => Ok(request),
                Err(error) => Err(DecodeError::Envelope(error)),
            },
            Err(said) => Err(DecodeError::Syntax(said)),
        }
    }
}

/// Writing a request and reading it back gives the same request.
pub proof fn lemma_request_round_trip(request: JsonRpcRequestView)
    ensures
        JsonRpcRequestView::decode(request.encode()) == Ok::<JsonRpcRequestView, EnvelopeError>(
            request,
        ),
{
    lemma_names_differ();
    lemma_id_round_trip(request.id);
    let members = request.encode()->Object_0;
    lemma_member_at(members, 0);
    lemma_member_at(members, 1);
    lemma_member_at(members, 2);
    lemma_member_at(members, 3);
}

/// A document whose version tag is anything but the text `2.0` is read as
/// no request.
pub proof fn lemma_other_version_is_refused(document: Json)
    requires
        !(document matches Json::Object(members) && member(members, "jsonrpc"@) == Some(
            Json::String("2.0"@),
        )),
    ensures
        JsonRpcRequestView::decode(document) is Err,
{
}

/// A request that was read comes from an object whose members are the four
/// of a request and no others.
pub proof fn lemma_request_has_four_members(document: Json, i: int)
    requires
        JsonRpcRequestView::decode(document) is Ok,
        0 <= i < document->Object_0.len(),
    ensures
        document is Object,
        ({
            let name = document->Object_0[i].0;
            name == "jsonrpc"@ || name == "id"@ || name == "method"@ || name == "params"@
        }),
{
    lemma_names_differ();
    let members = document->Object_0;
    lemma_member_index(members, "jsonrpc"@);
    lemma_member_index(members, "id"@);
    lemma_member_index(members, "method"@);
    lemma_member_index(members, "params"@);
}

} // verus!
