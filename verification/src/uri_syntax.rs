//! Trusted interface to the URI syntax parser (the `url` crate). Parsing is
//! pure, so each component of the parsed URI is named as a function of the
//! input text; `parse_uri` hands the components over as plain values.

use vstd::prelude::*;

verus! {

#[verifier::external_type_specification]
#[verifier::external_body]
pub struct ExUrlParseError(url::ParseError);

/// Whether `url::Url::parse` accepts the text.
pub uninterp spec fn uri_parse_ok(s: Seq<char>) -> bool;

/// The scheme of the parsed URI (`url::Url::scheme`, normalized to lower
/// case by the parser).
pub uninterp spec fn uri_scheme(s: Seq<char>) -> Seq<char>;

/// The host of the parsed URI, if it has one (`url::Url::host_str`).
pub uninterp spec fn uri_host(s: Seq<char>) -> Option<Seq<char>>;

/// The path of the parsed URI (`url::Url::path`).
pub uninterp spec fn uri_path(s: Seq<char>) -> Seq<char>;

/// The decoded key/value query pairs of the parsed URI, in order
/// (`url::Url::query_pairs`).
pub uninterp spec fn uri_query_pairs(s: Seq<char>) -> Seq<(Seq<char>, Seq<char>)>;

/// The components of a parsed URI, as plain values.
pub struct UriParts {
    pub scheme: String,
    pub host: Option<String>,
    pub path: String,
    pub query_pairs: Vec<(String, String)>,
}

/// Relies on `url::Url::parse` and its accessors `scheme`, `host_str`,
/// `path` and `query_pairs`: parsing is a pure function of the text, and
/// each accessor reads only the parsed value.
#[verifier::external_body]
pub(crate) fn parse_uri(raw: &str) -> (r: Result<UriParts, url::ParseError>)
    ensures
        match r {
            Ok(p) => {
                &&& uri_parse_ok(raw@)
                &&& p.scheme@ == uri_scheme(raw@)
                &&& p.host.deep_view() == uri_host(raw@)
                &&& p.path@ == uri_path(raw@)
                &&& p.query_pairs.deep_view() == uri_query_pairs(raw@)
            },
            Err(_) => !uri_parse_ok(raw@),
        },
{
    match url::Url::parse(raw) {
        Ok(u) => Ok(UriParts {
            scheme: u.scheme().to_string(),
            host: u.host_str().map(|h| h.to_string()),
            path: u.path().to_string(),
            query_pairs: u.query_pairs().map(|(k, v)| (k.into_owned(), v.into_owned())).collect(),
        }),
        Err(e) => Err(e),
    }
}

/// The text that `Display` produces for a `url::ParseError`.
pub uninterp spec fn url_error_text(e: url::ParseError) -> Seq<char>;

/// Relies on the `Display` impl of `url::ParseError`: a fixed sentence per
/// variant, so the text depends on the error value alone.
#[verifier::external_body]
pub(crate) fn fmt_url_error(e: &url::ParseError) -> (r: String)
    ensures
        r@ == url_error_text(*e),
{
    format!("{}", e)
}

/// The text that `{:?}` produces for a `url::ParseError`.
pub uninterp spec fn url_error_debug_text(e: url::ParseError) -> Seq<char>;

/// Relies on the derived `Debug` impl of `url::ParseError`: the variant's
/// name, depending on the error value alone.
#[verifier::external_body]
pub(crate) fn fmt_url_error_debug(e: &url::ParseError) -> (r: String)
    ensures
        r@ == url_error_debug_text(*e),
{
    format!("{:?}", e)
}

} // verus!
