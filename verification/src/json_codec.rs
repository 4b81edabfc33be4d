//! Trusted access to the JSON library: serializing a structured value to its
//! canonical text, and parsing bytes back into a value.

use vstd::prelude::*;

verus! {

#[verifier::external_type_specification]
#[verifier::external_body]
pub struct ExJsonValue(serde_json::Value);

#[verifier::external_type_specification]
#[verifier::external_body]
pub struct ExJsonError(serde_json::Error);

/// What serializing a JSON value yields: its canonical compact text, a
/// function of the value alone.
pub uninterp spec fn json_text_of(value: serde_json::Value) -> Seq<char>;

/// What parsing bytes as JSON yields: the parsed value, or nothing when the
/// JSON library rejects the bytes.
pub uninterp spec fn json_parse(bytes: Seq<u8>) -> Option<serde_json::Value>;

/// What decoding bytes as UTF-8 with replacement characters yields.
pub uninterp spec fn utf8_lossy_of(bytes: Seq<u8>) -> Seq<char>;

/// Relies on serde_json::Value's Display (via to_string): the compact
/// serialization, a function of the value alone.
#[verifier::external_body]
pub(crate) fn json_value_to_string(value: &serde_json::Value) -> (r: String)
    ensures
        r@ == json_text_of(*value),
{
    value.to_string()
}

/// Relies on serde_json::from_slice::<Value>: whether bytes parse, and the
/// value they parse to, are functions of the bytes alone.
#[verifier::external_body]
pub(crate) fn parse_json_bytes(bytes: &Vec<u8>) -> (r: Result<
    serde_json::Value,
    serde_json::Error,
>)
    ensures
        r is Ok <==> json_parse(bytes@) is Some,
        r matches Ok(v) ==> json_parse(bytes@) == Some(v),
{
    serde_json::from_slice(bytes.as_slice())
}

/// Relies on String::from_utf8_lossy: UTF-8 decoding with replacement
/// characters, a function of the bytes alone.
#[verifier::external_body]
pub(crate) fn lossy_utf8(bytes: &Vec<u8>) -> (r: String)
    ensures
        r@ == utf8_lossy_of(bytes@),
{
    String::from_utf8_lossy(bytes.as_slice()).into_owned()
}

/// Relies on format! and serde_json::Error's Display to assemble the decode
/// diagnostic text; nothing is claimed of the text itself.
#[verifier::external_body]
pub(crate) fn format_decode_error(
    url: &str,
    status: u16,
    body_text: &str,
    error: &serde_json::Error,
) -> String {
    format!(
        "Failed to deserialize JSON response from {} (status: {}). Response body: {}. Serde error: {}",
        url, status, body_text, error,
    )
}

} // verus!
