//! The error taxonomy of JSON-RPC 2.0: reserved codes, reasons, and the
//! structured error value that a response carries.

use crate::decode::lemma_names_differ;
use crate::decode::EnvelopeError;
use crate::decode::Field;
use crate::json::entry;
use crate::json::from_i64;
use crate::json::from_string;
use crate::json::get;
use crate::json::json_of;
use crate::json::lemma_member_at;
use crate::json::member;
use crate::json::member_count;
use crate::json::members_of;
use crate::json::null;
use crate::json::object;
use crate::json::Json;
use crate::json::JsonNumber;
use crate::text::decimal;
use crate::text::displays;
use crate::text::push_decimal;
use vstd::prelude::*;
use vstd::std_specs::convert::FromSpecImpl;
use vstd::string::StringExecFns;

verus! {

/// The JSON sent is not a valid request object.
pub const INVALID_REQUEST: i32 = -32600;

/// The method does not exist or is not available.
pub const METHOD_NOT_FOUND: i32 = -32601;

/// Invalid method parameters.
pub const INVALID_PARAMS: i32 = -32602;

/// Internal JSON-RPC error.
pub const INTERNAL_ERROR: i32 = -32603;

/// Invalid JSON was received by the server.
pub const PARSE_ERROR: i32 = -32700;

/// Why a request failed.
#[derive(Debug, Clone, Copy, PartialEq, Eq, Structural)]
pub enum JsonRpcErrorReason {
    ParseError,
    InvalidRequest,
    MethodNotFound,
    InvalidParams,
    InternalError,
    /// Implementation-defined server errors, by convention -32000 to -32099.
    ServerError(i32),
}

/// Whether `code` is one of the five codes that have a reason of their own.
pub open spec fn is_named_code(code: int) -> bool {
    ||| code == PARSE_ERROR
    ||| code == INVALID_REQUEST
    ||| code == METHOD_NOT_FOUND
    ||| code == INVALID_PARAMS
    ||| code == INTERNAL_ERROR
}

impl JsonRpcErrorReason {
    /// The integer that stands for this reason on the wire.
    pub open spec fn spec_code(self) -> i32 {
        match self {
            JsonRpcErrorReason::ParseError => PARSE_ERROR,
            JsonRpcErrorReason::InvalidRequest => INVALID_REQUEST,
            JsonRpcErrorReason::MethodNotFound => METHOD_NOT_FOUND,
            JsonRpcErrorReason::InvalidParams => INVALID_PARAMS,
            JsonRpcErrorReason::InternalError => INTERNAL_ERROR,
            JsonRpcErrorReason::ServerError(code) => code,
        }
    }

    /// The reason that a wire code stands for.
    pub open spec fn spec_new(code: i32) -> JsonRpcErrorReason {
        if code == PARSE_ERROR {
            JsonRpcErrorReason::ParseError
        } else if code == INVALID_REQUEST {
            JsonRpcErrorReason::InvalidRequest
        } else if code == METHOD_NOT_FOUND {
            JsonRpcErrorReason::MethodNotFound
        } else if code == INVALID_PARAMS {
            JsonRpcErrorReason::InvalidParams
        } else if code == INTERNAL_ERROR {
            JsonRpcErrorReason::InternalError
        } else {
            JsonRpcErrorReason::ServerError(code)
        }
    }

    /// Reads a wire code back into a reason: the five reserved codes give
    /// their named reason, every other integer a `ServerError` holding it.
    pub fn new(code: i32) -> (reason: JsonRpcErrorReason)
        ensures
            reason == Self::spec_new(code),
            is_named_code(code as int) <==> !(reason is ServerError),
            reason.spec_code() == code,
    {
        match code {
            PARSE_ERROR => Self::ParseError,
            INVALID_REQUEST => Self::InvalidRequest,
            METHOD_NOT_FOUND => Self::MethodNotFound,
            INVALID_PARAMS => Self::InvalidParams,
            INTERNAL_ERROR => Self::InternalError,
            other => Self::ServerError(other),
        }
    }

    /// The fixed human text of this reason.
    pub open spec fn spec_text(self) -> Seq<char> {
        match self {
            JsonRpcErrorReason::ParseError => "Parse error"@,
            JsonRpcErrorReason::InvalidRequest => "Invalid Request"@,
            JsonRpcErrorReason::MethodNotFound => "Method not found"@,
            JsonRpcErrorReason::InvalidParams => "Invalid params"@,
            JsonRpcErrorReason::InternalError => "Internal error"@,
            JsonRpcErrorReason::ServerError(code) => "Server error: "@ + decimal(code as int),
        }
    }

    /// Renders the reason as its fixed human text; a server error is
    /// followed by its code in decimal.
    pub fn to_string(&self) -> (text: String)
        ensures
            text@ == self.spec_text(),
    {
        match self {
            JsonRpcErrorReason::ParseError => String::from_str("Parse error"),
            JsonRpcErrorReason::InvalidRequest => String::from_str("Invalid Request"),
            JsonRpcErrorReason::MethodNotFound => String::from_str("Method not found"),
            JsonRpcErrorReason::InvalidParams => String::from_str("Invalid params"),
            JsonRpcErrorReason::InternalError => String::from_str("Internal error"),
            JsonRpcErrorReason::ServerError(code) => {
                let mut text = String::from_str("Server error: ");
                push_decimal(&mut text, *code);
                text
            },
        }
    }
}

impl From<JsonRpcErrorReason> for i32 {
    fn from(reason: JsonRpcErrorReason) -> (code: i32) {
        match reason {
            JsonRpcErrorReason::ParseError => PARSE_ERROR,
            JsonRpcErrorReason::InvalidRequest => INVALID_REQUEST,
            JsonRpcErrorReason::MethodNotFound => METHOD_NOT_FOUND,
            JsonRpcErrorReason::InvalidParams => INVALID_PARAMS,
            JsonRpcErrorReason::InternalError => INTERNAL_ERROR,
            JsonRpcErrorReason::ServerError(code) => code,
        }
    }
}

impl FromSpecImpl<JsonRpcErrorReason> for i32 {
    open spec fn obeys_from_spec() -> bool {
        true
    }

    open spec fn from_spec(reason: JsonRpcErrorReason) -> i32 {
        reason.spec_code()
    }
}

/// `anyhow::Error`, as a type whose inside only `anyhow` reads.
#[verifier::external_type_specification]
#[verifier::external_body]
pub struct ExAnyhowError(anyhow::Error);

/// A failure as a response carries it: the wire code of its reason, a
/// message, and auxiliary data.
#[derive(Debug, PartialEq)]
pub struct JsonRpcError {
    code: i32,
    message: String,
    data: serde_json::Value,
}

/// What a [`JsonRpcError`] holds.
pub struct JsonRpcErrorView {
    pub code: i32,
    pub message: Seq<char>,
    pub data: Json,
}

impl View for JsonRpcError {
    type V = JsonRpcErrorView;

    closed spec fn view(&self) -> JsonRpcErrorView {
        JsonRpcErrorView { code: self.code, message: self.message@, data: json_of(self.data) }
    }
}

impl JsonRpcErrorView {
    /// The reason that the stored code stands for.
    pub open spec fn reason(self) -> JsonRpcErrorReason {
        JsonRpcErrorReason::spec_new(self.code)
    }

    /// The text that displays the error: the reason's text, a colon, and
    /// the message.
    pub open spec fn text(self) -> Seq<char> {
        self.reason().spec_text() + ": "@ + self.message
    }

    /// The object that stands for the error: its members `code`, `message`
    /// and `data`, in this order.
    pub open spec fn encode(self) -> Json {
        Json::Object(
            seq![
                ("code"@, Json::Number(JsonNumber::Integer(self.code as int))),
                ("message"@, Json::String(self.message)),
                ("data"@, self.data),
            ],
        )
    }

    /// The error that a document stands for. The document has to be an
    /// object with an integer `code` that fits 32 signed bits, a string
    /// `message` and a member `data`; further members are ignored.
    pub open spec fn decode(document: Json) -> Result<JsonRpcErrorView, EnvelopeError> {
        match document {
            Json::Object(members) => {
                let code = member(members, "code"@);
                let message = member(members, "message"@);
                let data = member(members, "data"@);
                if code is None {
                    Err(EnvelopeError::MissingField(Field::Code))
                } else if message is None {
                    Err(EnvelopeError::MissingField(Field::Message))
                } else if data is None {
                    Err(EnvelopeError::MissingField(Field::Data))
                } else if code.unwrap().integer_within(i32::MIN as int, i32::MAX as int) is None {
                    Err(EnvelopeError::InvalidField(Field::Code))
                } else if message.unwrap().text() is None {
                    Err(EnvelopeError::InvalidField(Field::Message))
                } else {
                    Ok(
                        JsonRpcErrorView {
                            code: code.unwrap().integer_within(
                                i32::MIN as int,
                                i32::MAX as int,
                            ).unwrap() as i32,
                            message: message.unwrap().text().unwrap(),
                            data: data.unwrap(),
                        },
                    )
                }
            },
            _ => Err(EnvelopeError::InvalidField(Field::Error)),
        }
    }

    /// The error with the code of `reason`, the given message and no data.
    pub open spec fn plain(reason: JsonRpcErrorReason, message: Seq<char>) -> JsonRpcErrorView {
        JsonRpcErrorView { code: reason.spec_code(), message, data: Json::Null }
    }
}

impl Clone for JsonRpcError {
    fn clone(&self) -> (copy: JsonRpcError)
        ensures
            copy@ == self@,
    {
        JsonRpcError { code: self.code, message: self.message.clone(), data: self.data.clone() }
    }
}

impl JsonRpcError {
    /// Builds an error from a reason, a message and auxiliary data. The
    /// reason is stored as its wire code.
    pub fn new(code: JsonRpcErrorReason, message: String, data: serde_json::Value) -> (error:
        JsonRpcError)
        ensures
            error@ == (JsonRpcErrorView {
                code: code.spec_code(),
                message: message@,
                data: json_of(data),
            }),
    {
        JsonRpcError { code: i32::from(code), message, data }
    }

    /// Builds an error from a reason and a message, with `null` for data.
    pub(crate) fn plain(reason: JsonRpcErrorReason, message: String) -> (error: JsonRpcError)
        ensures
            error@ == JsonRpcErrorView::plain(reason, message@),
    {
        JsonRpcError::new(reason, message, null())
    }

    /// The reason that the stored code stands for.
    pub fn error_reason(&self) -> (reason: JsonRpcErrorReason)
        ensures
            reason == self@.reason(),
    {
        JsonRpcErrorReason::new(self.code)
    }

    /// The wire code.
    pub fn code(&self) -> (code: i32)
        ensures
            code == self@.code,
    {
        self.code
    }

    /// The message.
    pub fn message(&self) -> (message: &str)
        ensures
            message@ == self@.message,
    {
        self.message.as_str()
    }

    /// The auxiliary data.
    pub fn data(&self) -> (data: &serde_json::Value)
        ensures
            json_of(*data) == self@.data,
    {
        &self.data
    }

    /// Writes the error as a JSON object with the members `code`, `message`
    /// and `data`, in this order.
    pub fn serialize(&self) -> (value: serde_json::Value)
        ensures
            json_of(value) == self@.encode(),
    {
        let mut members: Vec<(String, serde_json::Value)> = Vec::new();
        members.push(entry("code", from_i64(self.code as i64)));
        members.push(entry("message", from_string(self.message.clone())));
        members.push(entry("data", self.data.clone()));
        proof {
            lemma_names_differ();
            assert(members_of(members@) =~= self@.encode()->Object_0);
        }
        object(members)
    }

    /// Reads an error from a JSON value: an object with an integer `code`
    /// that fits 32 signed bits, a string `message` and a member `data`.
    /// Further members are ignored.
    pub fn deserialize(value: &serde_json::Value) -> (read: Result<JsonRpcError, EnvelopeError>)
        ensures
            match read {
                Ok(error) => JsonRpcErrorView::decode(json_of(*value)) == Ok::<
                    JsonRpcErrorView,
                    EnvelopeError,
                >(error@),
                Err(error) => JsonRpcErrorView::decode(json_of(*value)) == Err::<
                    JsonRpcErrorView,
                    EnvelopeError,
                >(error),
            },
    {
        if member_count(value).is_none() {
            return Err(EnvelopeError::InvalidField(Field::Error));
        }
        let code = match get(value, "code") {
            Some(code) => code,
            None => return Err(EnvelopeError::MissingField(Field::Code)),
        };
        let message = match get(value, "message") {
            Some(message) => message,
            None => return Err(EnvelopeError::MissingField(Field::Message)),
        };
        let data = match get(value, "data") {
            Some(data) => data,
            None => return Err(EnvelopeError::MissingField(Field::Data)),
        };
        let code: i32 = match code.as_i64() {
            Some(n) => if -2147483648 <= n && n <= 2147483647 {
                n as i32
            } else {
                return Err(EnvelopeError::InvalidField(Field::Code));
            },
            None => return Err(EnvelopeError::InvalidField(Field::Code)),
        };
        let message = match message.as_str() {
            Some(text) => text.to_owned(),
            None => return Err(EnvelopeError::InvalidField(Field::Message)),
        };
        Ok(JsonRpcError { code, message, data: data.clone() })
    }

    /// Renders the error as the text of its reason, a colon and a blank,
    /// and its message.
    pub fn to_string(&self) -> (text: String)
        ensures
            text@ == self@.text(),
    {
        let mut text = JsonRpcErrorReason::new(self.code).to_string();
        text.append(": ");
        text.append(self.message.as_str());
        text
    }
}

impl From<anyhow::Error> for JsonRpcError {
    /// An internal error whose message is the text that the `anyhow` error
    /// displays, with `null` for data.
    fn from(error: anyhow::Error) -> (converted: JsonRpcError)
        ensures
            converted@.code == INTERNAL_ERROR,
            displays(&error, converted@.message),
            converted@.data == Json::Null,
    {
        let message = error.to_string();
        JsonRpcError::plain(JsonRpcErrorReason::InternalError, message)
    }
}

/// The message of the converted error is what the `anyhow` error displays,
/// which is no function of anything that a specification can read: the
/// conversion states its result in its own `ensures`.
impl FromSpecImpl<anyhow::Error> for JsonRpcError {
    open spec fn obeys_from_spec() -> bool {
        false
    }

    open spec fn from_spec(error: anyhow::Error) -> JsonRpcError {
        arbitrary()
    }
}

/// Writing an error and reading it back gives the same error.
pub proof fn lemma_error_round_trip(error: JsonRpcErrorView)
    ensures
        JsonRpcErrorView::decode(error.encode()) == Ok::<JsonRpcErrorView, EnvelopeError>(error),
{
    lemma_names_differ();
    let members = error.encode()->Object_0;
    lemma_member_at(members, 0);
    lemma_member_at(members, 1);
    lemma_member_at(members, 2);
}

/// A named reason comes back from its own code.
pub proof fn lemma_named_reason_round_trip(reason: JsonRpcErrorReason)
    requires
        !(reason is ServerError),
    ensures
        is_named_code(reason.spec_code() as int),
        JsonRpcErrorReason::spec_new(reason.spec_code()) == reason,
{
}

/// A code that is none of the five named ones is read as a server error
/// that holds it, and that server error has the code again.
pub proof fn lemma_other_code_is_server_error(code: i32)
    requires
        !is_named_code(code as int),
    ensures
        JsonRpcErrorReason::spec_new(code) == JsonRpcErrorReason::ServerError(code),
        JsonRpcErrorReason::ServerError(code).spec_code() == code,
{
}

/// Every integer comes back from the reason that it is read as.
pub proof fn lemma_code_round_trip(code: i32)
    ensures
        JsonRpcErrorReason::spec_new(code).spec_code() == code,
{
}

} // verus!
