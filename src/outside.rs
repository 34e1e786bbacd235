//! What this library takes from other crates, with what it relies on.
use vstd::prelude::*;
use base64::Engine;
use std::io::Error as IoError;
use ureq::Error as UreqError;
use ureq::serde_json::Value;

verus! {

/// An error of the HTTP transport (connection, DNS, or an error status).
#[verifier::external_type_specification]
#[verifier::external_body]
pub struct ExTransportError(UreqError);

/// An I/O error met while reading or decoding a response body.
#[verifier::external_type_specification]
#[verifier::external_body]
pub struct ExIoError(IoError);

/// A JSON value of any shape, as serde_json holds it.
#[verifier::external_type_specification]
#[verifier::external_body]
pub struct ExValue(Value);

/// The standard, padded base64 encoding of the UTF-8 bytes of `s`.
pub uninterp spec fn base64_of(s: Seq<char>) -> Seq<char>;

/// The compact JSON string literal for `s`: quoted, with JSON's escapes.
pub uninterp spec fn json_string_of(s: Seq<char>) -> Seq<char>;

/// Relies on base64's `general_purpose::STANDARD.encode`: the padded standard
/// encoding of the bytes of `s`, which depends on those bytes alone. It panics
/// only where the encoded length overflows `usize`, which no in-memory string
/// reaches.
#[verifier::external_body]
pub(crate) fn encode_base64(s: &str) -> (r: String)
    ensures
        r@ == base64_of(s@),
{
    base64::engine::general_purpose::STANDARD.encode(s)
}

/// Relies on serde_json's `Display` for `Value::String`: a JSON string
/// literal whose content depends on the characters of `s` alone.
#[verifier::external_body]
pub(crate) fn json_string(s: &str) -> (r: String)
    ensures
        r@ == json_string_of(s@),
{
    ureq::serde_json::Value::String(s.to_string()).to_string()
}

/// Relies on serde_json's `Display` for `Value`: the compact JSON text of `v`.
/// Nothing is stated of the text; callers place it as it comes.
#[verifier::external_body]
pub(crate) fn value_text(v: &Value) -> (r: String) {
    v.to_string()
}

} // verus!
