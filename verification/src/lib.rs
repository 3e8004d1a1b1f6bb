//! The message-envelope layer of JSON-RPC 2.0 for an HTTP pipeline.
//!
//! A request arrives as a header and a body. [`JsonRpcExtractor`] checks
//! the content type, decodes the envelope and hands out the identifier,
//! the method name and the parameters, or the response that turns the
//! request down. [`JsonRpcResponse`] builds the answer, and writes it as
//! JSON text. Reading the header and the body, and sending the answer, is
//! the caller's part.

pub mod decode;
pub mod error;
pub mod extractor;
pub mod id;
pub mod json;
pub mod media;
pub mod request;
pub mod response;
pub mod text;

pub use crate::extractor::JsonRpcExtractor;
pub use crate::id::Id;
pub use crate::request::JsonRpcRequest;
pub use crate::response::JrpcResult;
pub use crate::response::JsonRpcAnswer;
pub use crate::response::JsonRpcResponse;
pub use serde_json::Value;
