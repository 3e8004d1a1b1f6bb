//! From an HTTP request to a request that is ready for dispatch, or to the
//! response that turns it down.
//!
//! Three checkpoints stand between the two: the content type, the reading
//! of the body, and the decoding of the envelope. Each can end in an
//! invalid-request response without an identifier. The caller reads the
//! header and the body; what is decided on them is decided here.

use crate::error::JsonRpcErrorReason;
use crate::error::INVALID_PARAMS;
use crate::id::Id;
use crate::id::IdView;
use crate::json::json_of;
use crate::json::Json;
use crate::media::is_json_content_type;
use crate::media::json_content_type;
use crate::request::JsonRpcRequest;
use crate::request::JsonRpcRequestView;
use crate::response::JsonRpcAnswer;
use crate::response::JsonRpcResponse;
use crate::response::JsonRpcResponseView;
use crate::text::displays;
use vstd::prelude::*;
use vstd::string::StringExecFns;

verus! {

/// A request that passed the three checkpoints: its identifier, the name of
/// its method, and its parameters, which are not decoded yet, because only
/// the method's handler knows their shape.
#[derive(Debug)]
pub struct JsonRpcExtractor {
    pub parsed: serde_json::Value,
    pub method: String,
    pub id: Id,
}

/// What a [`JsonRpcExtractor`] holds.
pub struct JsonRpcExtractorView {
    pub parsed: Json,
    pub method: Seq<char>,
    pub id: IdView,
}

impl View for JsonRpcExtractor {
    type V = JsonRpcExtractorView;

    open spec fn view(&self) -> JsonRpcExtractorView {
        JsonRpcExtractorView { parsed: json_of(self.parsed), method: self.method@, id: self.id@ }
    }
}

impl JsonRpcExtractorView {
    /// What is kept of a request that was read.
    pub open spec fn of_request(request: JsonRpcRequestView) -> JsonRpcExtractorView {
        JsonRpcExtractorView { parsed: request.params, method: request.method, id: request.id }
    }
}

impl Clone for JsonRpcExtractor {
    fn clone(&self) -> (copy: JsonRpcExtractor)
        ensures
            copy@ == self@,
    {
        JsonRpcExtractor {
            parsed: self.parsed.clone(),
            method: self.method.clone(),
            id: self.id.clone(),
        }
    }
}

/// The text of a header, where there is one.
pub open spec fn text_of(content_type: Option<&str>) -> Option<Seq<char>> {
    match content_type {
        Some(text) => Some(text@),
        None => None,
    }
}

/// The response that turns a request down before its identifier is known.
pub open spec fn rejection(message: Seq<char>) -> JsonRpcResponseView {
    JsonRpcResponseView::failure(IdView::Null, JsonRpcErrorReason::InvalidRequest, message)
}

/// Whether `extracted` is what the second and third checkpoints owe to
/// `body`: the rejection `Invalid request` where the body could not be
/// read; what the request holds where the body is one; else the rejection
/// with the decoder's message.
pub open spec fn owed_to_body(
    body: Option<&[u8]>,
    extracted: Result<JsonRpcExtractor, JsonRpcResponse>,
) -> bool {
    match body {
        None => extracted matches Err(response) && response@ == rejection("Invalid request"@),
        Some(bytes) => match JsonRpcRequestView::decode_text(bytes@) {
            Ok(request) => extracted matches Ok(extractor) && extractor@
                == JsonRpcExtractorView::of_request(request),
            Err(why) => extracted matches Err(response) && response@ == rejection(why.message()),
        },
    }
}

/// The message of the response that answers an unknown method.
pub open spec fn not_found_message(method: Seq<char>) -> Seq<char> {
    "Method `"@ + method + "` not found"@
}

impl JsonRpcExtractor {
    /// The identifier that the response has to carry.
    pub fn get_answer_id(&self) -> (id: Id)
        ensures
            id == self.id,
    {
        self.id.clone()
    }

    /// Decodes the parameters with `decode`, which knows the shape that the
    /// method expects. Where they do not have that shape, the result is an
    /// invalid-params response to the request's identifier, with the text
    /// of the decoder's failure for a message and no data.
    pub fn parse_params<T, F>(self, decode: F) -> (params: Result<T, JsonRpcResponse>) where
        F: FnOnce(serde_json::Value) -> Result<T, serde_json::Error>,

        requires
            decode.requires((self.parsed,)),
        ensures
            match params {
                Ok(decoded) => decode.ensures((self.parsed,), Ok(decoded)),
                Err(response) => exists|failure: serde_json::Error|
                    {
                        &&& #[trigger] decode.ensures((self.parsed,), Err(failure))
                        &&& response.id == self.id
                        &&& response.result matches JsonRpcAnswer::Error(error)
                        &&& displays(&failure, error@.message)
                        &&& error@.code == INVALID_PARAMS
                        &&& error@.data == Json::Null
                    },
            },
    {
        match decode(self.parsed) {
            Ok(decoded) => Ok(decoded),
            Err(failure) => Err(
                JsonRpcResponse::failure(
                    self.id,
                    JsonRpcErrorReason::InvalidParams,
                    failure.to_string(),
                ),
            ),
        }
    }

    /// The name of the method that the request asks for.
    pub fn method(&self) -> (method: &str)
        ensures
            method@ == self.method@,
    {
        self.method.as_str()
    }

    /// The response that tells the client that no method has the name
    /// `method`: a method-not-found error to the request's identifier.
    pub fn method_not_found(&self, method: &str) -> (response: JsonRpcResponse)
        ensures
            response.id == self.id,
            response@ == JsonRpcResponseView::failure(
                self.id@,
                JsonRpcErrorReason::MethodNotFound,
                not_found_message(method@),
            ),
    {
        let mut message = String::from_str("Method `");
        message.append(method);
        message.append("` not found");
        JsonRpcResponse::failure(self.id.clone(), JsonRpcErrorReason::MethodNotFound, message)
    }

    /// The first checkpoint: the content type. A request is let through
    /// where its `Content-Type` header is a media type of the top-level
    /// type `application` whose subtype or suffix is `json`. `None` stands
    /// for a request without the header, or with one that is not text.
    pub fn check_content_type(content_type: Option<&str>) -> (checked: Result<(), JsonRpcResponse>)
        ensures
            match checked {
                Ok(_) => is_json_content_type(text_of(content_type)),
                Err(response) => !is_json_content_type(text_of(content_type)) && response@
                    == rejection("Invalid content type"@),
            },
    {
        if json_content_type(content_type) {
            Ok(())
        } else {
            Err(
                JsonRpcResponse::failure(
                    Id::Null(()),
                    JsonRpcErrorReason::InvalidRequest,
                    String::from_str("Invalid content type"),
                ),
            )
        }
    }

    /// The second and third checkpoints: the body and the envelope. `None`
    /// stands for a body that could not be read. A body that is a request
    /// gives its identifier, method and parameters; any other is turned
    /// down, with the decoder's message.
    pub fn from_body(body: Option<&[u8]>) -> (extracted: Result<JsonRpcExtractor, JsonRpcResponse>)
        ensures
            owed_to_body(body, extracted),
    {
        let bytes = match body {
            Some(bytes) => bytes,
            None => {
                return Err(
                    JsonRpcResponse::failure(
                        Id::Null(()),
                        JsonRpcErrorReason::InvalidRequest,
                        String::from_str("Invalid request"),
                    ),
                );
            },
        };
        match JsonRpcRequest::from_slice(bytes) {
            Ok(request) => Ok(
                JsonRpcExtractor { parsed: request.params, method: request.method, id: request.id },
            ),
            Err(why) => Err(
                JsonRpcResponse::failure(
                    Id::Null(()),
                    JsonRpcErrorReason::InvalidRequest,
                    why.to_string(),
                ),
            ),
        }
    }

    /// All three checkpoints, on a header and a body that are at hand. The
    /// content type is checked first: where it is refused, the body is not
    /// looked at.
    pub fn from_request(content_type: Option<&str>, body: Option<&[u8]>) -> (extracted: Result<
        JsonRpcExtractor,
        JsonRpcResponse,
    >)
        ensures
            if is_json_content_type(text_of(content_type)) {
                owed_to_body(body, extracted)
            } else {
                extracted matches Err(response) && response@ == rejection("Invalid content type"@)
            },
    {
        match JsonRpcExtractor::check_content_type(content_type) {
            Ok(_) => JsonRpcExtractor::from_body(body),
            Err(response) => Err(response),
        }
    }
}

} // verus!
