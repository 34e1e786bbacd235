//! A synchronous JSON-RPC 2.0 client over HTTP with Basic authentication.
//!
//! The library computes everything a call needs: the URL, the
//! headers and the JSON envelope, and it turns a decoded response into one
//! classified outcome. Sending the request and decoding the body into a typed
//! value are done by the caller, which hands the results back.
pub mod outside;
pub mod request;
pub mod response;
pub mod text;

pub use request::{Client, Header, HttpRequest};
pub use response::{Error, ErrorKind, Exchange, Outcome, ResponseEnvelope, RpcError};
pub use ureq::serde_json::Value;
