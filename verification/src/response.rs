//! The response envelope, its wire shape, and how responses are built.

use crate::decode::lemma_names_differ;
use crate::decode::DecodeError;
use crate::decode::DecodeErrorView;
use crate::decode::EnvelopeError;
use crate::decode::Field;
use crate::error::lemma_error_round_trip;
use crate::error::JsonRpcError;
use crate::error::JsonRpcErrorReason;
use crate::error::JsonRpcErrorView;
use crate::id::lemma_id_round_trip;
use crate::id::Id;
use crate::id::IdView;
use crate::json::entry;
use crate::json::from_string;
use crate::json::get;
use crate::json::json_of;
use crate::json::json_parse;
use crate::json::json_text;
use crate::json::lemma_member_at;
use crate::json::member;
use crate::json::member_count;
use crate::json::members_of;
use crate::json::object;
use crate::json::parse;
use crate::json::print;
use crate::json::Json;
use crate::text::displays;
use crate::text::same_text;
use vstd::prelude::*;
use vstd::std_specs::convert::FromSpec;

verus! {

/// What a response answers with: the result of the call, or the error that
/// stopped it. On the wire the two are told apart by the member's name.
#[derive(Debug, PartialEq)]
pub enum JsonRpcAnswer {
    Result(serde_json::Value),
    Error(JsonRpcError),
}

/// What a [`JsonRpcAnswer`] holds.
pub enum JsonRpcAnswerView {
    Result(Json),
    Error(JsonRpcErrorView),
}

impl View for JsonRpcAnswer {
    type V = JsonRpcAnswerView;

    open spec fn view(&self) -> JsonRpcAnswerView {
        match self {
            JsonRpcAnswer::Result(value) => JsonRpcAnswerView::Result(json_of(*value)),
            JsonRpcAnswer::Error(error) => JsonRpcAnswerView::Error(error@),
        }
    }
}

impl JsonRpcAnswerView {
    /// The member that stands for the answer: `result` with the value, or
    /// `error` with the error object.
    pub open spec fn encode(self) -> (Seq<char>, Json) {
        match self {
            JsonRpcAnswerView::Result(value) => ("result"@, value),
            JsonRpcAnswerView::Error(error) => ("error"@, error.encode()),
        }
    }
}

impl Clone for JsonRpcAnswer {
    fn clone(&self) -> (copy: JsonRpcAnswer)
        ensures
            copy@ == self@,
    {
        match self {
            JsonRpcAnswer::Result(value) => JsonRpcAnswer::Result(value.clone()),
            JsonRpcAnswer::Error(error) => JsonRpcAnswer::Error(error.clone()),
        }
    }
}

/// A JSON-RPC response.
#[derive(Debug, PartialEq)]
pub struct JsonRpcResponse {
    /// What the call gave.
    pub result: JsonRpcAnswer,
    /// The identifier of the request that is answered.
    pub id: Id,
}

/// What a [`JsonRpcResponse`] holds.
pub struct JsonRpcResponseView {
    pub result: JsonRpcAnswerView,
    pub id: IdView,
}

impl View for JsonRpcResponse {
    type V = JsonRpcResponseView;

    open spec fn view(&self) -> JsonRpcResponseView {
        JsonRpcResponseView { result: self.result@, id: self.id@ }
    }
}

/// A pair of responses: the one a handler returns, and the one that ends
/// the call early.
pub type JrpcResult = Result<JsonRpcResponse, JsonRpcResponse>;

impl JsonRpcResponseView {
    /// The object that stands for the response: the members `jsonrpc` with
    /// the text `2.0`, then `result` or `error`, then `id`.
    pub open spec fn encode(self) -> Json {
        Json::Object(
            seq![("jsonrpc"@, Json::String("2.0"@)), self.result.encode(), ("id"@, self.id.encode())],
        )
    }

    /// The response that a document stands for, or why it stands for none.
    /// The document has to be an object with the member `jsonrpc` of the
    /// text `2.0`, exactly one of `result` and `error`, and an identifier
    /// `id`. Further members are ignored.
    pub open spec fn decode(document: Json) -> Result<JsonRpcResponseView, EnvelopeError> {
        match document {
            Json::Object(members) => {
                let version = member(members, "jsonrpc"@);
                let result = member(members, "result"@);
                let error = member(members, "error"@);
                let id = member(members, "id"@);
                if version is None {
                    Err(EnvelopeError::MissingField(Field::Jsonrpc))
                } else if result is None && error is None {
                    Err(EnvelopeError::MissingAnswer)
                } else if result is Some && error is Some {
                    Err(EnvelopeError::AmbiguousAnswer)
                } else if id is None {
                    Err(EnvelopeError::MissingField(Field::Id))
                } else if version.unwrap().text() is None {
                    Err(EnvelopeError::InvalidField(Field::Jsonrpc))
                } else if error is Some && JsonRpcErrorView::decode(error.unwrap()) is Err {
                    Err(JsonRpcErrorView::decode(error.unwrap())->Err_0)
                } else if IdView::decode(id.unwrap()) is None {
                    Err(EnvelopeError::InvalidField(Field::Id))
                } else if version.unwrap().text().unwrap() != "2.0"@ {
                    Err(EnvelopeError::UnknownVersion)
                } else {
                    Ok(
                        JsonRpcResponseView {
                            result: if error is Some {
                                JsonRpcAnswerView::Error(
                                    JsonRpcErrorView::decode(error.unwrap())->Ok_0,
                                )
                            } else {
                                JsonRpcAnswerView::Result(result.unwrap())
                            },
                            id: IdView::decode(id.unwrap()).unwrap(),
                        },
                    )
                }
            },
            _ => Err(EnvelopeError::NotAnObject),
        }
    }

    /// The response that a text stands for, or why it stands for none: the
    /// parser's message where the text is not JSON, else what `decode`
    /// makes of the document.
    pub open spec fn decode_text(text: Seq<u8>) -> Result<JsonRpcResponseView, DecodeErrorView> {
        match json_parse(text) {
            Ok(document) => match Self::decode(document) {
                Ok(response) => Ok(response),
                Err(error) => Err(DecodeErrorView::Envelope(error)),
            },
            Err(said) => Err(DecodeErrorView::Syntax(said)),
        }
    }

    /// The response to `id` that reports an error of the given reason and
    /// message, without data.
    pub open spec fn failure(id: IdView, reason: JsonRpcErrorReason, message: Seq<char>)
        -> JsonRpcResponseView {
        JsonRpcResponseView {
            result: JsonRpcAnswerView::Error(JsonRpcErrorView::plain(reason, message)),
            id,
        }
    }
}

impl Clone for JsonRpcResponse {
    fn clone(&self) -> (copy: JsonRpcResponse)
        ensures
            copy@ == self@,
    {
        JsonRpcResponse { result: self.result.clone(), id: self.id.clone() }
    }
}

impl JsonRpcResponse {
    fn new<ID>(id: ID, result: JsonRpcAnswer) -> (response: JsonRpcResponse) where Id: From<ID>
        ensures
            response.result == result,
            <Id as FromSpec<ID>>::obeys_from_spec() ==> response.id == <Id as FromSpec<
                ID,
            >>::from_spec(id),
    {
        JsonRpcResponse { result, id: Id::from(id) }
    }

    /// The response to `id` that reports an error of the given reason and
    /// message, without data.
    pub fn failure(id: Id, reason: JsonRpcErrorReason, message: String) -> (response:
        JsonRpcResponse)
        ensures
            response.id == id,
            response@ == JsonRpcResponseView::failure(id@, reason, message@),
    {
        JsonRpcResponse { result: JsonRpcAnswer::Error(JsonRpcError::plain(reason, message)), id }
    }

    /// The response that answers `id` with what `encode` makes of `result`.
    /// Where `encode` cannot turn the result into JSON, the response is an
    /// internal error instead, with the text of the failure for a message.
    pub fn success<T, ID, F>(id: ID, result: T, encode: F) -> (response: JsonRpcResponse) where
        Id: From<ID>,
        F: FnOnce(T) -> Result<serde_json::Value, serde_json::Error>,

        requires
            encode.requires((result,)),
        ensures
            <Id as FromSpec<ID>>::obeys_from_spec() ==> response.id == <Id as FromSpec<
                ID,
            >>::from_spec(id),
            match response.result {
                JsonRpcAnswer::Result(value) => encode.ensures((result,), Ok(value)),
                JsonRpcAnswer::Error(error) => exists|failure: serde_json::Error|
                    {
                        &&& #[trigger] encode.ensures((result,), Err(failure))
                        &&& displays(&failure, error@.message)
                        &&& error@.code == crate::error::INTERNAL_ERROR
                        &&& error@.data == Json::Null
                    },
            },
    {
        match encode(result) {
            Ok(value) => JsonRpcResponse::new(id, JsonRpcAnswer::Result(value)),
            Err(failure) => {
                let error = JsonRpcError::plain(
                    JsonRpcErrorReason::InternalError,
                    failure.to_string(),
                );
                JsonRpcResponse::error(id, error)
            },
        }
    }

    /// The response that answers `id` with the given error, as it is.
    pub fn error<ID>(id: ID, error: JsonRpcError) -> (response: JsonRpcResponse) where
        Id: From<ID>,

        ensures
            response.result == JsonRpcAnswer::Error(error),
            <Id as FromSpec<ID>>::obeys_from_spec() ==> response.id == <Id as FromSpec<
                ID,
            >>::from_spec(id),
    {
        let id = Id::from(id);
        JsonRpcResponse { result: JsonRpcAnswer::Error(error), id }
    }

    /// Writes the response as a JSON object with exactly three members:
    /// `jsonrpc` with the text `2.0`, then `result` or `error`, then `id`.
    pub fn serialize(&self) -> (value: serde_json::Value)
        ensures
            json_of(value) == self@.encode(),
    {
        let mut members: Vec<(String, serde_json::Value)> = Vec::new();
        members.push(entry("jsonrpc", from_string("2.0".to_owned())));
        match &self.result {
            JsonRpcAnswer::Result(value) => members.push(entry("result", value.clone())),
            JsonRpcAnswer::Error(error) => members.push(entry("error", error.serialize())),
        }
        members.push(entry("id", self.id.serialize()));
        proof {
            lemma_names_differ();
            assert(members_of(members@) =~= self@.encode()->Object_0);
        }
        object(members)
    }

    /// Reads a response from a JSON value. The value has to be an object
    /// with the version tag `2.0`, exactly one of `result` and `error`, and
    /// an identifier.
    pub fn deserialize(value: &serde_json::Value) -> (read: Result<JsonRpcResponse, EnvelopeError>)
        ensures
            match read {
                Ok(response) => JsonRpcResponseView::decode(json_of(*value)) == Ok::<
                    JsonRpcResponseView,
                    EnvelopeError,
                >(response@),
                Err(error) => JsonRpcResponseView::decode(json_of(*value)) == Err::<
                    JsonRpcResponseView,
                    EnvelopeError,
                >(error),
            },
    {
        if member_count(value).is_none() {
            return Err(EnvelopeError::NotAnObject);
        }
        let version = match get(value, "jsonrpc") {
            Some(version) => version,
            None => return Err(EnvelopeError::MissingField(Field::Jsonrpc)),
        };
        let result = get(value, "result");
        let error = get(value, "error");
        if result.is_none() && error.is_none() {
            return Err(EnvelopeError::MissingAnswer);
        }
        if result.is_some() && error.is_some() {
            return Err(EnvelopeError::AmbiguousAnswer);
        }
        let id = match get(value, "id") {
            Some(id) => id,
            None => return Err(EnvelopeError::MissingField(Field::Id)),
        };
        let version = match version.as_str() {
            Some(version) => version,
            None => return Err(EnvelopeError::InvalidField(Field::Jsonrpc)),
        };
        let answer = match error {
            Some(error) => match JsonRpcError::deserialize(error) {
                Ok(error) => JsonRpcAnswer::Error(error),
                Err(why) => return Err(why),
            },
            None => match result {
                Some(result) => JsonRpcAnswer::Result(result.clone()),
                None => return Err(EnvelopeError::MissingAnswer),
            },
        };
        let id = match Id::deserialize(id) {
            Some(id) => id,
            None => return Err(EnvelopeError::InvalidField(Field::Id)),
        };
        if !same_text(version, "2.0") {
            return Err(EnvelopeError::UnknownVersion);
        }
        Ok(JsonRpcResponse { result: answer, id })
    }

    /// Writes the response as compact JSON text.
    pub fn to_json(&self) -> (text: String)
        ensures
            text@ == json_text(self@.encode()),
    {
        print(&self.serialize())
    }

    /// Reads a response from JSON text. A text that is not JSON is a syntax
    /// error with the parser's message; a document that is no response is
    /// the envelope error that says why.
    pub fn from_slice(text: &[u8]) -> (read: Result<JsonRpcResponse, DecodeError>)
        ensures
            match read {
                Ok(response) => JsonRpcResponseView::decode_text(text@) == Ok::<
                    JsonRpcResponseView,
                    DecodeErrorView,
                >(response@),
                Err(error) => JsonRpcResponseView::decode_text(text@) == Err::<
                    JsonRpcResponseView,
                    DecodeErrorView,
                >(error@),
            },
    {
        match parse(text) {
            Ok(value) => match JsonRpcResponse::deserialize(&value) {
                Ok(response) => Ok(response),
                Err(error) => Err(DecodeError::Envelope(error)),
            },
            Err(said) => Err(DecodeError::Syntax(said)),
        }
    }
}

/// Writing a response and reading it back gives the same response: the
/// identifier is kept, and of `result` and `error` the one that was written
/// comes back, with what it held.
pub proof fn lemma_response_round_trip(response: JsonRpcResponseView)
    ensures
        JsonRpcResponseView::decode(response.encode()) == Ok::<JsonRpcResponseView, EnvelopeError>(
            response,
        ),
{
    lemma_names_differ();
    lemma_id_round_trip(response.id);
    let members = response.encode()->Object_0;
    lemma_member_at(members, 0);
    lemma_member_at(members, 1);
    lemma_member_at(members, 2);
    match response.result {
        JsonRpcAnswerView::Result(value) => {
            crate::json::lemma_member_index(members, "error"@);
        },
        JsonRpcAnswerView::Error(error) => {
            lemma_error_round_trip(error);
            crate::json::lemma_member_index(members, "result"@);
        },
    }
}

/// The object written for a response has exactly three members: the
/// version tag first, the identifier last, and between them either `result`
/// or `error`.
pub proof fn lemma_response_has_one_answer(response: JsonRpcResponseView)
    ensures
        response.encode() matches Json::Object(members) && {
            &&& members.len() == 3
            &&& members[0] == ("jsonrpc"@, Json::String("2.0"@))
            &&& members[1].0 == "result"@ <==> response.result is Result
            &&& members[1].0 == "error"@ <==> response.result is Error
            &&& members[2] == ("id"@, response.id.encode())
        },
{
    lemma_names_differ();
}

/// Two responses that hold the same are written as the same text: a
/// response that is written twice gives the same text twice.
pub proof fn lemma_response_text_is_stable(first: JsonRpcResponse, second: JsonRpcResponse)
    requires
        first@ == second@,
    ensures
        json_text(first@.encode()) == json_text(second@.encode()),
{
}

} // verus!
