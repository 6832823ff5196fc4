//! The error taxonomy of the contract and its boundary translation.
//!
//! [`UriError`] is the fine-grained taxonomy for dependency-URI validation
//! failures; [`ContractError`] is the unifying error type of the contract,
//! whose `LogicLoadUri` variant pairs a [`UriError`] with the offending URI
//! text. [`ContractError::to_std_error`] is the one-way, lossy boundary
//! converter into the host's generic error.

use crate::host::{
    fmt_parse_reply_error, fmt_std_error, generic_err, generic_err_of, parse_reply_error_text,
    std_error_text,
};
use crate::json::{fmt_json_error, fmt_json_error_debug, json_error_debug_text, json_error_text};
use crate::text::{debug_list_text, fmt_list_debug, fmt_str_debug, str_debug_text};
use crate::uri_syntax::{
    fmt_url_error, fmt_url_error_debug, url_error_debug_text, url_error_text,
};
use vstd::prelude::*;
use vstd::string::StringExecFns;

verus! {

/// A failure while validating a dependency URI: the syntactic parse, the
/// scheme, the path shape, the required query key, the JSON decoding of its
/// value, or the decoded value's acceptability. The variants follow the
/// validation order; each carries what a precise message needs.
#[derive(Debug, PartialEq, Eq)]
pub enum UriError {
    /// The text is not a URI at all; the syntax parser's error is kept
    /// verbatim.
    Parse(url::ParseError),
    /// The URI's scheme is not among the accepted set; both the observed
    /// scheme and the full accepted set, in the caller's order, are kept.
    WrongScheme { scheme: String, wanted: Vec<String> },
    /// The URI parses but its shape does not fit the storage-resource
    /// convention.
    IncompatiblePath,
    /// The required query key is absent.
    MissingQueryKey,
    /// The required query key's value is not valid JSON; the decoder's
    /// error is kept verbatim.
    JSONDecoding(serde_json_wasm::de::Error),
    /// The required query key's value decodes but is not acceptable.
    IncompatibleQuery,
}

impl UriError {
    /// The display text of this error: the syntax parser's or the JSON
    /// decoder's own text where one is wrapped, a fixed sentence otherwise,
    /// and for `WrongScheme` both the observed scheme and the accepted set,
    /// quoted.
    pub open spec fn message_text(self) -> Seq<char> {
        match self {
            UriError::Parse(e) => url_error_text(e),
            UriError::WrongScheme { scheme, wanted } => "Incompatible uri scheme "@
                + str_debug_text(scheme@) + ". Should be "@ + debug_list_text(wanted.deep_view()),
            UriError::IncompatiblePath => "The given path doesn't correspond to a cw-storage uri"@,
            UriError::MissingQueryKey => "URI doesn't contains needed query key"@,
            UriError::JSONDecoding(e) => json_error_text(e),
            UriError::IncompatibleQuery => "The given query is not compatible"@,
        }
    }

    /// The text that `{:?}` produces for this error: the variant's name,
    /// with its fields where it has any. This is the form the boundary
    /// converter embeds in the `LogicLoadUri` message.
    pub open spec fn debug_text(self) -> Seq<char> {
        match self {
            UriError::Parse(e) => "Parse("@ + url_error_debug_text(e) + ")"@,
            UriError::WrongScheme { scheme, wanted } => "WrongScheme { scheme: "@
                + str_debug_text(scheme@) + ", wanted: "@ + debug_list_text(wanted.deep_view())
                + " }"@,
            UriError::IncompatiblePath => "IncompatiblePath"@,
            UriError::MissingQueryKey => "MissingQueryKey"@,
            UriError::JSONDecoding(e) => "JSONDecoding("@ + json_error_debug_text(e) + ")"@,
            UriError::IncompatibleQuery => "IncompatibleQuery"@,
        }
    }

    /// Renders [`Self::message_text`].
    pub fn message(&self) -> (r: String)
        ensures
            r@ == self.message_text(),
    {
        match self {
            UriError::Parse(e) => fmt_url_error(e),
            UriError::WrongScheme { scheme, wanted } => {
                let mut s = String::from_str("Incompatible uri scheme ");
                s.append(fmt_str_debug(scheme.as_str()).as_str());
                s.append(". Should be ");
                s.append(fmt_list_debug(wanted).as_str());
                s
            },
            UriError::IncompatiblePath => String::from_str(
                "The given path doesn't correspond to a cw-storage uri",
            ),
            UriError::MissingQueryKey => String::from_str("URI doesn't contains needed query key"),
            UriError::JSONDecoding(e) => fmt_json_error(e),
            UriError::IncompatibleQuery => String::from_str("The given query is not compatible"),
        }
    }

    /// Renders [`Self::debug_text`].
    pub fn debug_message(&self) -> (r: String)
        ensures
            r@ == self.debug_text(),
    {
        match self {
            UriError::Parse(e) => {
                let mut s = String::from_str("Parse(");
                s.append(fmt_url_error_debug(e).as_str());
                s.append(")");
                s
            },
            UriError::WrongScheme { scheme, wanted } => {
                let mut s = String::from_str("WrongScheme { scheme: ");
                s.append(fmt_str_debug(scheme.as_str()).as_str());
                s.append(", wanted: ");
                s.append(fmt_list_debug(wanted).as_str());
                s.append(" }");
                s
            },
            UriError::IncompatiblePath => String::from_str("IncompatiblePath"),
            UriError::MissingQueryKey => String::from_str("MissingQueryKey"),
            UriError::JSONDecoding(e) => {
                let mut s = String::from_str("JSONDecoding(");
                s.append(fmt_json_error_debug(e).as_str());
                s.append(")");
                s
            },
            UriError::IncompatibleQuery => String::from_str("IncompatibleQuery"),
        }
    }
}

/// The unifying error type of the contract's operations. Every variant is
/// built from a genuine cause; none stands in for another failure.
#[derive(Debug, PartialEq)]
pub enum ContractError {
    /// A host generic error, passed through unchanged.
    Std(cosmwasm_std::StdError),
    /// An error of the reply-parsing library, passed through unchanged.
    Parse(cw_utils::ParseReplyError),
    /// A reply message that the parsing library accepts but this contract's
    /// own validation rejects; the payload describes why.
    InvalidReplyMsg(cosmwasm_std::StdError),
    /// A dependency URI failed validation; the failing URI text is always
    /// kept beside the structured cause.
    LogicLoadUri { error: UriError, uri: String },
    /// The caller lacks the admin role; carries no payload by design.
    Unauthorized {},
}

impl ContractError {
    /// The display text of this error: the wrapped error's own text for
    /// `Std` and `Parse`, a fixed prefix plus the payload's text for
    /// `InvalidReplyMsg`, the quoted URI and the cause's `{:?}` form for
    /// `LogicLoadUri`, and a fixed sentence for `Unauthorized`.
    pub open spec fn message_text(self) -> Seq<char> {
        match self {
            ContractError::Std(e) => std_error_text(e),
            ContractError::Parse(e) => parse_reply_error_text(e),
            ContractError::InvalidReplyMsg(e) => "Invalid reply message: "@ + std_error_text(e),
            ContractError::LogicLoadUri { error, uri } => "Failed parse dependency uri "@
                + str_debug_text(uri@) + ": "@ + error.debug_text(),
            ContractError::Unauthorized {  } => "Only the contract admin can perform this operation."@,
        }
    }

    /// The one sanctioned way to attach the offending URI text to a URI
    /// validation error: both fields are kept unmodified.
    pub fn dependency_uri(error: UriError, uri: String) -> (r: ContractError)
        ensures
            r == (ContractError::LogicLoadUri { error, uri }),
    {
        ContractError::LogicLoadUri { error, uri }
    }

    /// Renders [`Self::message_text`].
    pub fn message(&self) -> (r: String)
        ensures
            r@ == self.message_text(),
    {
        match self {
            ContractError::Std(e) => fmt_std_error(e),
            ContractError::Parse(e) => fmt_parse_reply_error(e),
            ContractError::InvalidReplyMsg(e) => {
                let mut s = String::from_str("Invalid reply message: ");
                s.append(fmt_std_error(e).as_str());
                s
            },
            ContractError::LogicLoadUri { error, uri } => {
                let mut s = String::from_str("Failed parse dependency uri ");
                s.append(fmt_str_debug(uri.as_str()).as_str());
                s.append(": ");
                s.append(error.debug_message().as_str());
                s
            },
            ContractError::Unauthorized {  } => String::from_str(
                "Only the contract admin can perform this operation.",
            ),
        }
    }

    /// The boundary converter: total over the taxonomy, loss-free exactly
    /// for `Std`, and for every other variant lossy, collapsing the
    /// structured fields into the host's generic error built from this
    /// error's display text.
    pub fn to_std_error(self) -> (r: cosmwasm_std::StdError)
        ensures
            self matches ContractError::Std(e) ==> r == e,
            !(self is Std) ==> r == generic_err_of(self.message_text()),
    {
        match self {
            ContractError::Std(e) => e,
            other => {
                let msg = other.message();
                generic_err(msg)
            },
        }
    }
}

impl core::convert::From<cosmwasm_std::StdError> for ContractError {
    /// Lossless wrapping of a host generic error, applied where that error
    /// first arises.
    fn from(e: cosmwasm_std::StdError) -> (r: ContractError) {
        ContractError::Std(e)
    }
}

impl vstd::std_specs::convert::FromSpecImpl<cosmwasm_std::StdError> for ContractError {
    open spec fn obeys_from_spec() -> bool {
        true
    }

    open spec fn from_spec(e: cosmwasm_std::StdError) -> ContractError {
        ContractError::Std(e)
    }
}

impl core::convert::From<cw_utils::ParseReplyError> for ContractError {
    /// Lossless wrapping of a reply-parsing error, applied where that error
    /// first arises.
    fn from(e: cw_utils::ParseReplyError) -> (r: ContractError) {
        ContractError::Parse(e)
    }
}

impl vstd::std_specs::convert::FromSpecImpl<cw_utils::ParseReplyError> for ContractError {
    open spec fn obeys_from_spec() -> bool {
        true
    }

    open spec fn from_spec(e: cw_utils::ParseReplyError) -> ContractError {
        ContractError::Parse(e)
    }
}

impl core::convert::From<url::ParseError> for UriError {
    /// Lossless wrapping of a URI-syntax error, applied where that error
    /// first arises.
    fn from(e: url::ParseError) -> (r: UriError) {
        UriError::Parse(e)
    }
}

impl vstd::std_specs::convert::FromSpecImpl<url::ParseError> for UriError {
    open spec fn obeys_from_spec() -> bool {
        true
    }

    open spec fn from_spec(e: url::ParseError) -> UriError {
        UriError::Parse(e)
    }
}

impl core::convert::From<serde_json_wasm::de::Error> for UriError {
    /// Lossless wrapping of a JSON-decoding error, applied where that error
    /// first arises.
    fn from(e: serde_json_wasm::de::Error) -> (r: UriError) {
        UriError::JSONDecoding(e)
    }
}

impl vstd::std_specs::convert::FromSpecImpl<serde_json_wasm::de::Error> for UriError {
    open spec fn obeys_from_spec() -> bool {
        true
    }

    open spec fn from_spec(e: serde_json_wasm::de::Error) -> UriError {
        UriError::JSONDecoding(e)
    }
}

/// Law: pairing a URI validation error with its URI loses nothing; the
/// fields of the composed `LogicLoadUri` value are exactly the inputs.
pub proof fn lemma_dependency_uri_round_trip(error: UriError, uri: String)
    ensures
        (ContractError::LogicLoadUri { error, uri })->LogicLoadUri_error == error,
        (ContractError::LogicLoadUri { error, uri })->LogicLoadUri_uri == uri,
{
}

/// Law: equality on `WrongScheme` is structural and order-sensitive. Two
/// values with the same scheme and the same accepted set, in the same
/// order, are equal; values whose accepted sets differ as sequences (in
/// content or in order) are unequal, as are values with different schemes.
pub proof fn lemma_wrong_scheme_equality(s1: String, w1: Vec<String>, s2: String, w2: Vec<String>)
    ensures
        (s1 == s2 && w1 == w2) ==> (UriError::WrongScheme { scheme: s1, wanted: w1 })
            == (UriError::WrongScheme { scheme: s2, wanted: w2 }),
        (UriError::WrongScheme { scheme: s1, wanted: w1 }) == (UriError::WrongScheme {
            scheme: s2,
            wanted: w2,
        }) ==> (s1 == s2 && w1 == w2),
        w1.deep_view() != w2.deep_view() ==> (UriError::WrongScheme { scheme: s1, wanted: w1 })
            != (UriError::WrongScheme { scheme: s2, wanted: w2 }),
        s1@ != s2@ ==> (UriError::WrongScheme { scheme: s1, wanted: w1 })
            != (UriError::WrongScheme { scheme: s2, wanted: w2 }),
{
}

} // verus!
