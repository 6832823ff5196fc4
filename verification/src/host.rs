//! Trusted interface to the host environment's error types:
//! `cosmwasm_std::StdError`, the single generic error the host accepts at
//! its boundary, and `cw_utils::ParseReplyError`, the error of the
//! reply-parsing library. Both are opaque to the rest of the crate; all it
//! ever reads of them is their display text.

use vstd::prelude::*;

verus! {

#[verifier::external_type_specification]
#[verifier::external_body]
pub struct ExStdError(cosmwasm_std::StdError);

#[verifier::external_type_specification]
#[verifier::external_body]
pub struct ExParseReplyError(cw_utils::ParseReplyError);

/// The text that `Display` produces for a `cosmwasm_std::StdError`.
pub uninterp spec fn std_error_text(e: cosmwasm_std::StdError) -> Seq<char>;

/// Relies on the `Display` impl of `cosmwasm_std::StdError`: a fixed
/// template per variant, filled from the variant's fields, so the text
/// depends on the error value alone.
#[verifier::external_body]
pub(crate) fn fmt_std_error(e: &cosmwasm_std::StdError) -> (r: String)
    ensures
        r@ == std_error_text(*e),
{
    format!("{}", e)
}

/// The text that `Display` produces for a `cw_utils::ParseReplyError`.
pub uninterp spec fn parse_reply_error_text(e: cw_utils::ParseReplyError) -> Seq<char>;

/// Relies on the `Display` impl of `cw_utils::ParseReplyError`: a fixed
/// template per variant, filled from the variant's fields, so the text
/// depends on the error value alone.
#[verifier::external_body]
pub(crate) fn fmt_parse_reply_error(e: &cw_utils::ParseReplyError) -> (r: String)
    ensures
        r@ == parse_reply_error_text(*e),
{
    format!("{}", e)
}

/// The host error that `cosmwasm_std::StdError::generic_err` builds from a
/// message text.
pub uninterp spec fn generic_err_of(msg: Seq<char>) -> cosmwasm_std::StdError;

/// Relies on `cosmwasm_std::StdError::generic_err`: it wraps the given
/// message, unchanged, in the host's generic-error variant and reads
/// nothing else.
#[verifier::external_body]
pub(crate) fn generic_err(msg: String) -> (r: cosmwasm_std::StdError)
    ensures
        r == generic_err_of(msg@),
{
    cosmwasm_std::StdError::generic_err(msg)
}

} // verus!
