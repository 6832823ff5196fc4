//! Validation of dependency URIs. A dependency URI names a storage
//! resource: its authority is the storage contract's address, its path is
//! empty, and a required `query` parameter carries the resource's query as
//! one JSON string. The checks run in a fixed order — syntax, scheme, path
//! shape, query key, JSON decoding, decoded value — and the first failing
//! check decides the [`UriError`].

use crate::errors::UriError;
use crate::json::{decode_json_string, json_string_value};
use crate::uri_syntax::{
    parse_uri, uri_host, uri_parse_ok, uri_path, uri_query_pairs, uri_scheme,
};
use vstd::prelude::*;
use vstd::string::StringExecFns;

verus! {

/// The name of the query parameter a dependency URI must carry.
pub open spec fn required_query_key() -> Seq<char> {
    "query"@
}

/// Whether a scheme is one of the accepted set.
pub open spec fn scheme_accepted(scheme: Seq<char>, accepted: Seq<Seq<char>>) -> bool {
    accepted.contains(scheme)
}

/// Whether a parsed URI's authority and path fit the storage-resource
/// convention: the authority names the storage contract, so it must be
/// present and non-empty, and the resource is addressed by the query alone,
/// so the path must be empty or a bare `/`.
pub open spec fn path_shape_ok(host: Option<Seq<char>>, path: Seq<char>) -> bool {
    (host matches Some(h) && h.len() > 0) && (path.len() == 0 || path == "/"@)
}

/// The value of the first query pair with the given key, if any.
pub open spec fn query_value(pairs: Seq<(Seq<char>, Seq<char>)>, key: Seq<char>) -> Option<
    Seq<char>,
>
    decreases pairs.len(),
{
    if pairs.len() == 0 {
        None
    } else if pairs.first().0 == key {
        Some(pairs.first().1)
    } else {
        query_value(pairs.drop_first(), key)
    }
}

/// A validated dependency URI: the storage contract it points at and the
/// decoded query it carries.
#[derive(Debug)]
pub struct DependencyUri {
    pub storage_address: String,
    pub query: String,
}

/// Whether the scheme equals one of the accepted strings.
fn scheme_is_accepted(scheme: &String, accepted: &Vec<String>) -> (r: bool)
    ensures
        r == scheme_accepted(scheme@, accepted.deep_view()),
{
    let ghost dv = accepted.deep_view();
    let mut i: usize = 0;
    while i < accepted.len()
        invariant
            i <= accepted.len(),
            dv == accepted.deep_view(),
            forall|j: int| 0 <= j < i ==> dv[j] != scheme@,
        decreases accepted.len() - i,
    {
        if accepted[i] == *scheme {
            proof {
                assert(dv[i as int] == scheme@);
            }
            return true;
        }
        i += 1;
    }
    proof {
        assert(!dv.contains(scheme@));
    }
    false
}

/// The value of the first query pair with the given key, if any.
fn find_query_value(pairs: &Vec<(String, String)>, key: &String) -> (r: Option<String>)
    ensures
        match r {
            Some(v) => query_value(pairs.deep_view(), key@) == Some(v@),
            None => query_value(pairs.deep_view(), key@) is None,
        },
{
    let ghost dv = pairs.deep_view();
    proof {
        assert(dv.skip(0) =~= dv);
    }
    let mut i: usize = 0;
    while i < pairs.len()
        invariant
            i <= pairs.len(),
            dv == pairs.deep_view(),
            query_value(dv, key@) == query_value(dv.skip(i as int), key@),
        decreases pairs.len() - i,
    {
        proof {
            assert(dv.skip(i as int).first() == dv[i as int]);
            assert(dv.skip(i as int).drop_first() =~= dv.skip(i as int + 1));
        }
        if pairs[i].0 == *key {
            let v = pairs[i].1.clone();
            return Some(v);
        }
        i += 1;
    }
    proof {
        assert(dv.skip(pairs.len() as int) =~= Seq::<(Seq<char>, Seq<char>)>::empty());
    }
    None
}

/// Validates a dependency URI against the caller-supplied accepted scheme
/// set. The checks run in order: syntactic parse, scheme membership, path
/// shape, presence of the required query key, JSON decoding of its value,
/// and the decoded value's acceptability (it must not be empty). The first
/// failing check decides the error; on `WrongScheme` the accepted set is
/// kept whole and in the caller's order.
pub fn validate_dependency_uri(raw: &str, accepted_schemes: &Vec<String>) -> (r: Result<
    DependencyUri,
    UriError,
>)
    ensures
        ({
            let s = raw@;
            let accepted = accepted_schemes.deep_view();
            let q = query_value(uri_query_pairs(s), required_query_key());
            match r {
                Ok(d) => {
                    &&& uri_parse_ok(s)
                    &&& scheme_accepted(uri_scheme(s), accepted)
                    &&& path_shape_ok(uri_host(s), uri_path(s))
                    &&& uri_host(s) matches Some(h) && d.storage_address@ == h
                    &&& q matches Some(v) && json_string_value(v) matches Some(decoded)
                        && decoded.len() > 0 && d.query@ == decoded
                },
                Err(e) => match e {
                    UriError::Parse(_) => !uri_parse_ok(s),
                    UriError::WrongScheme { scheme, wanted } => {
                        &&& uri_parse_ok(s)
                        &&& !scheme_accepted(uri_scheme(s), accepted)
                        &&& scheme@ == uri_scheme(s)
                        &&& wanted.deep_view() == accepted
                    },
                    UriError::IncompatiblePath => {
                        &&& uri_parse_ok(s)
                        &&& scheme_accepted(uri_scheme(s), accepted)
                        &&& !path_shape_ok(uri_host(s), uri_path(s))
                    },
                    UriError::MissingQueryKey => {
                        &&& uri_parse_ok(s)
                        &&& scheme_accepted(uri_scheme(s), accepted)
                        &&& path_shape_ok(uri_host(s), uri_path(s))
                        &&& q is None
                    },
                    UriError::JSONDecoding(_) => {
                        &&& uri_parse_ok(s)
                        &&& scheme_accepted(uri_scheme(s), accepted)
                        &&& path_shape_ok(uri_host(s), uri_path(s))
                        &&& q matches Some(v) && json_string_value(v) is None
                    },
                    UriError::IncompatibleQuery => {
                        &&& uri_parse_ok(s)
                        &&& scheme_accepted(uri_scheme(s), accepted)
                        &&& path_shape_ok(uri_host(s), uri_path(s))
                        &&& q matches Some(v) && json_string_value(v) matches Some(decoded)
                            && decoded.len() == 0
                    },
                },
            }
        }),
{
    let parts = match parse_uri(raw) {
        Ok(p) => p,
        Err(e) => {
            return Err(UriError::Parse(e));
        },
    };
    if !scheme_is_accepted(&parts.scheme, accepted_schemes) {
        return Err(
            UriError::WrongScheme { scheme: parts.scheme, wanted: clone_strings(accepted_schemes) },
        );
    }
    let storage_address = match parts.host {
        Some(h) => {
            if h.as_str().is_empty() {
                return Err(UriError::IncompatiblePath);
            }
            h
        },
        None => {
            return Err(UriError::IncompatiblePath);
        },
    };
    if !(parts.path.as_str().is_empty() || parts.path == String::from_str("/")) {
        return Err(UriError::IncompatiblePath);
    }
    let value = match find_query_value(&parts.query_pairs, &String::from_str("query")) {
        Some(v) => v,
        None => {
            return Err(UriError::MissingQueryKey);
        },
    };
    let query = match decode_json_string(value.as_str()) {
        Ok(d) => d,
        Err(e) => {
            return Err(UriError::JSONDecoding(e));
        },
    };
    if query.as_str().is_empty() {
        return Err(UriError::IncompatibleQuery);
    }
    Ok(DependencyUri { storage_address, query })
}

/// Copies a vector of strings, order and contents kept.
fn clone_strings(v: &Vec<String>) -> (r: Vec<String>)
    ensures
        r.deep_view() == v.deep_view(),
{
    let mut out: Vec<String> = Vec::new();
    let mut i: usize = 0;
    while i < v.len()
        invariant
            i <= v.len(),
            out@.len() == i,
            forall|k: int| 0 <= k < i ==> #[trigger] out@[k]@ == v@[k]@,
        decreases v.len() - i,
    {
        let s = v[i].clone();
        out.push(s);
        i += 1;
    }
    proof {
        assert forall|k: int| 0 <= k < out@.len() implies #[trigger] out.deep_view()[k]
            == v.deep_view()[k] by {
            assert(out@[k]@ == v@[k]@);
        }
        assert(out.deep_view() =~= v.deep_view());
    }
    out
}

} // verus!
