use cw_law_stone::{validate_dependency_uri, UriError};

fn schemes(names: &[&str]) -> Vec<String> {
    names.iter().map(|s| s.to_string()).collect()
}

#[test]
fn a_well_formed_dependency_uri_is_accepted() {
    let accepted = schemes(&["cw-storage"]);
    let parsed = validate_dependency_uri("cw-storage://addr1?query=%22law%22", &accepted).unwrap();
    assert_eq!(parsed.storage_address, "addr1");
    assert_eq!(parsed.query, "law");
}

#[test]
fn a_bare_slash_path_is_accepted() {
    let accepted = schemes(&["cw-storage"]);
    let parsed = validate_dependency_uri("cw-storage://addr1/?query=%22law%22", &accepted).unwrap();
    assert_eq!(parsed.storage_address, "addr1");
    assert_eq!(parsed.query, "law");
}

#[test]
fn unparseable_text_yields_parse() {
    let accepted = schemes(&["cw-storage"]);
    let err = validate_dependency_uri("no scheme at all", &accepted).unwrap_err();
    assert!(matches!(err, UriError::Parse(_)));
}

#[test]
fn a_scheme_outside_the_set_yields_wrong_scheme_with_the_set() {
    let accepted = schemes(&["cw-storage", "cosmwasm"]);
    let err = validate_dependency_uri("http://addr1?query=%22law%22", &accepted).unwrap_err();
    assert_eq!(
        err,
        UriError::WrongScheme {
            scheme: "http".to_string(),
            wanted: schemes(&["cw-storage", "cosmwasm"]),
        }
    );
}

#[test]
fn the_scheme_check_comes_before_the_path_check() {
    let accepted = schemes(&["cw-storage"]);
    let err = validate_dependency_uri("http://addr1/extra/path", &accepted).unwrap_err();
    assert!(matches!(err, UriError::WrongScheme { .. }));
}

#[test]
fn a_non_empty_path_yields_incompatible_path_not_missing_query_key() {
    let accepted = schemes(&["cw-storage"]);
    let err = validate_dependency_uri("cw-storage://addr1/extra", &accepted).unwrap_err();
    assert_eq!(err, UriError::IncompatiblePath);
}

#[test]
fn a_missing_host_yields_incompatible_path() {
    let accepted = schemes(&["cw-storage"]);
    let err = validate_dependency_uri("cw-storage:addr1?query=%22law%22", &accepted).unwrap_err();
    assert_eq!(err, UriError::IncompatiblePath);
}

#[test]
fn an_absent_query_yields_missing_query_key() {
    let accepted = schemes(&["cw-storage"]);
    let err = validate_dependency_uri("cw-storage://addr1", &accepted).unwrap_err();
    assert_eq!(err, UriError::MissingQueryKey);
}

#[test]
fn other_query_keys_do_not_stand_in_for_the_required_one() {
    let accepted = schemes(&["cw-storage"]);
    let err = validate_dependency_uri("cw-storage://addr1?other=1", &accepted).unwrap_err();
    assert_eq!(err, UriError::MissingQueryKey);
}

#[test]
fn a_query_value_that_is_not_json_yields_json_decoding() {
    let accepted = schemes(&["cw-storage"]);
    let err = validate_dependency_uri("cw-storage://addr1?query=notjson", &accepted).unwrap_err();
    assert!(matches!(err, UriError::JSONDecoding(_)));
}

#[test]
fn an_empty_decoded_query_yields_incompatible_query() {
    let accepted = schemes(&["cw-storage"]);
    let err = validate_dependency_uri("cw-storage://addr1?query=%22%22", &accepted).unwrap_err();
    assert_eq!(err, UriError::IncompatibleQuery);
}

#[test]
fn the_first_pair_with_the_required_key_decides() {
    let accepted = schemes(&["cw-storage"]);
    let parsed =
        validate_dependency_uri("cw-storage://addr1?query=%22a%22&query=notjson", &accepted)
            .unwrap();
    assert_eq!(parsed.query, "a");
}

#[test]
fn the_parser_normalizes_the_scheme_to_lower_case() {
    let accepted = schemes(&["cw-storage"]);
    let parsed = validate_dependency_uri("CW-STORAGE://addr1?query=%22law%22", &accepted).unwrap();
    assert_eq!(parsed.storage_address, "addr1");
}
