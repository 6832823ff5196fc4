//! Trusted interface to the JSON decoder (`serde_json_wasm`) that decodes
//! the query payload a dependency URI embeds. Decoding is pure: on one
//! input text it always yields the same result.

use vstd::prelude::*;

verus! {

#[verifier::external_type_specification]
#[verifier::external_body]
pub struct ExJsonError(serde_json_wasm::de::Error);

/// What decoding a text as one JSON string yields: the decoded characters,
/// or nothing where the text is not exactly one JSON string.
pub uninterp spec fn json_string_value(s: Seq<char>) -> Option<Seq<char>>;

/// Relies on `serde_json_wasm::from_str::<String>`: a pure, deterministic
/// parser of its input text.
#[verifier::external_body]
pub(crate) fn decode_json_string(raw: &str) -> (r: Result<String, serde_json_wasm::de::Error>)
    ensures
        match r {
            Ok(v) => json_string_value(raw@) == Some(v@),
            Err(_) => json_string_value(raw@) is None,
        },
{
    serde_json_wasm::from_str::<String>(raw)
}

/// The text that `Display` produces for a `serde_json_wasm::de::Error`.
pub uninterp spec fn json_error_text(e: serde_json_wasm::de::Error) -> Seq<char>;

/// Relies on the `Display` impl of `serde_json_wasm::de::Error`: a fixed
/// sentence per variant, so the text depends on the error value alone.
#[verifier::external_body]
pub(crate) fn fmt_json_error(e: &serde_json_wasm::de::Error) -> (r: String)
    ensures
        r@ == json_error_text(*e),
{
    format!("{}", e)
}

/// The text that `{:?}` produces for a `serde_json_wasm::de::Error`.
pub uninterp spec fn json_error_debug_text(e: serde_json_wasm::de::Error) -> Seq<char>;

/// Relies on the derived `Debug` impl of `serde_json_wasm::de::Error`: the
/// variant's name (with its payload, if any), depending on the error value
/// alone.
#[verifier::external_body]
pub(crate) fn fmt_json_error_debug(e: &serde_json_wasm::de::Error) -> (r: String)
    ensures
        r@ == json_error_debug_text(*e),
{
    format!("{:?}", e)
}

} // verus!
