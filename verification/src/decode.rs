//! Why a document is not the envelope it was read as.

use vstd::prelude::*;
use vstd::string::StringExecFns;

verus! {

/// A member of a request, a response or an error object.
#[derive(Debug, Clone, Copy, PartialEq, Eq, Structural)]
pub enum Field {
    Jsonrpc,
    Id,
    Method,
    Params,
    Error,
    Code,
    Message,
    Data,
}

impl Field {
    /// The member's name on the wire.
    pub open spec fn spec_name(self) -> Seq<char> {
        match self {
            Field::Jsonrpc => "jsonrpc"@,
            Field::Id => "id"@,
            Field::Method => "method"@,
            Field::Params => "params"@,
            Field::Error => "error"@,
            Field::Code => "code"@,
            Field::Message => "message"@,
            Field::Data => "data"@,
        }
    }

    /// The member's name on the wire.
    pub fn name(&self) -> (name: &'static str)
        ensures
            name@ == self.spec_name(),
    {
        match self {
            Field::Jsonrpc => "jsonrpc",
            Field::Id => "id",
            Field::Method => "method",
            Field::Params => "params",
            Field::Error => "error",
            Field::Code => "code",
            Field::Message => "message",
            Field::Data => "data",
        }
    }
}

/// Why a JSON document is not a well-formed envelope.
#[derive(Debug, Clone, Copy, PartialEq, Eq, Structural)]
pub enum EnvelopeError {
    /// The document is not an object.
    NotAnObject,
    /// A required member is absent.
    MissingField(Field),
    /// A member holds a value of the wrong kind.
    InvalidField(Field),
    /// A request has a member beyond the four that it may have.
    UnknownField,
    /// The version tag is not `"2.0"`.
    UnknownVersion,
    /// A response has neither `result` nor `error`.
    MissingAnswer,
    /// A response has both `result` and `error`.
    AmbiguousAnswer,
}

impl EnvelopeError {
    /// The message that describes the error.
    pub open spec fn spec_message(self) -> Seq<char> {
        match self {
            EnvelopeError::NotAnObject => "expected a JSON object"@,
            EnvelopeError::MissingField(field) => "missing field `"@ + field.spec_name() + "`"@,
            EnvelopeError::InvalidField(field) => "invalid type for field `"@ + field.spec_name()
                + "`"@,
            EnvelopeError::UnknownField => "unknown field"@,
            EnvelopeError::UnknownVersion => "Unknown jsonrpc version"@,
            EnvelopeError::MissingAnswer => "missing field `result` or `error`"@,
            EnvelopeError::AmbiguousAnswer => "both `result` and `error` are present"@,
        }
    }

    /// Renders the error as its message.
    pub fn to_string(&self) -> (message: String)
        ensures
            message@ == self.spec_message(),
    {
        match self {
            EnvelopeError::NotAnObject => String::from_str("expected a JSON object"),
            EnvelopeError::MissingField(field) => {
                let mut message = String::from_str("missing field `");
                message.append(field.name());
                message.append("`");
                message
            },
            EnvelopeError::InvalidField(field) => {
                let mut message = String::from_str("invalid type for field `");
                message.append(field.name());
                message.append("`");
                message
            },
            EnvelopeError::UnknownField => String::from_str("unknown field"),
            EnvelopeError::UnknownVersion => String::from_str("Unknown jsonrpc version"),
            EnvelopeError::MissingAnswer => String::from_str("missing field `result` or `error`"),
            EnvelopeError::AmbiguousAnswer => String::from_str(
                "both `result` and `error` are present",
            ),
        }
    }
}

/// Why a text is not a well-formed envelope.
#[derive(Debug, PartialEq, Eq)]
pub enum DecodeError {
    /// The text is not JSON. Holds the message of the parser's error.
    Syntax(String),
    /// The text is JSON, but not the envelope.
    Envelope(EnvelopeError),
}

/// What a [`DecodeError`] holds.
pub enum DecodeErrorView {
    Syntax(Seq<char>),
    Envelope(EnvelopeError),
}

impl View for DecodeError {
    type V = DecodeErrorView;

    open spec fn view(&self) -> DecodeErrorView {
        match self {
            DecodeError::Syntax(said) => DecodeErrorView::Syntax(said@),
            DecodeError::Envelope(error) => DecodeErrorView::Envelope(*error),
        }
    }
}

impl DecodeErrorView {
    /// The message that describes the error: the parser's own words for a
    /// syntax error, else the message of the envelope error.
    pub open spec fn message(self) -> Seq<char> {
        match self {
            DecodeErrorView::Syntax(said) => said,
            DecodeErrorView::Envelope(error) => error.spec_message(),
        }
    }
}

impl DecodeError {
    /// Renders the error as its message: the parser's own words for a
    /// syntax error, else the message of the envelope error.
    pub fn to_string(&self) -> (message: String)
        ensures
            message@ == self@.message(),
    {
        match self {
            DecodeError::Syntax(said) => said.clone(),
            DecodeError::Envelope(error) => error.to_string(),
        }
    }
}

/// The member names of the envelopes are pairwise different texts.
pub proof fn lemma_names_differ()
    ensures
        "jsonrpc"@ != "id"@,
        "jsonrpc"@ != "method"@,
        "jsonrpc"@ != "params"@,
        "jsonrpc"@ != "result"@,
        "jsonrpc"@ != "error"@,
        "id"@ != "method"@,
        "id"@ != "params"@,
        "id"@ != "result"@,
        "id"@ != "error"@,
        "method"@ != "params"@,
        "result"@ != "error"@,
        "code"@ != "message"@,
        "code"@ != "data"@,
        "message"@ != "data"@,
{
    reveal_strlit("jsonrpc");
    reveal_strlit("id");
    reveal_strlit("method");
    reveal_strlit("params");
    reveal_strlit("result");
    reveal_strlit("error");
    reveal_strlit("code");
    reveal_strlit("message");
    reveal_strlit("data");
    assert("jsonrpc"@.len() == 7);
    assert("id"@.len() == 2);
    assert("method"@.len() == 6);
    assert("params"@.len() == 6);
    assert("result"@.len() == 6);
    assert("error"@.len() == 5);
    assert("code"@.len() == 4);
    assert("message"@.len() == 7);
    assert("data"@.len() == 4);
    assert("method"@[0] != "params"@[0]);
    assert("method"@[0] != "result"@[0]);
    assert("params"@[0] != "result"@[0]);
    assert("code"@[0] != "data"@[0]);
}

} // verus!
