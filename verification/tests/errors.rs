use cosmwasm_std::StdError;
use cw_law_stone::{ContractError, UriError};
use cw_utils::ParseReplyError;

fn json_error() -> serde_json_wasm::de::Error {
    serde_json_wasm::from_str::<String>("not json").unwrap_err()
}

fn url_error() -> url::ParseError {
    url::Url::parse("no scheme at all").unwrap_err()
}

#[test]
fn dependency_uri_keeps_both_fields() {
    let err = ContractError::dependency_uri(UriError::MissingQueryKey, "cw-storage://x".to_string());
    match err {
        ContractError::LogicLoadUri { error, uri } => {
            assert_eq!(error, UriError::MissingQueryKey);
            assert_eq!(uri, "cw-storage://x");
        }
        other => panic!("expected LogicLoadUri, got {:?}", other),
    }
}

#[test]
fn unauthorized_converts_to_the_literal_sentence() {
    let host = ContractError::Unauthorized {}.to_std_error();
    assert_eq!(
        host,
        StdError::generic_err("Only the contract admin can perform this operation.")
    );
}

#[test]
fn std_passes_through_the_converter_loss_free() {
    let err = ContractError::Std(StdError::not_found("law"));
    assert_eq!(err.to_std_error(), StdError::not_found("law"));
}

#[test]
fn logic_load_uri_converts_to_the_template_message() {
    let err = ContractError::dependency_uri(UriError::MissingQueryKey, "cw-storage://x".to_string());
    assert_eq!(
        err.to_std_error(),
        StdError::generic_err("Failed parse dependency uri \"cw-storage://x\": MissingQueryKey")
    );
}

#[test]
fn invalid_reply_msg_converts_with_its_prefix() {
    let err = ContractError::InvalidReplyMsg(StdError::generic_err("boom"));
    assert_eq!(err.message(), "Invalid reply message: Generic error: boom");
    assert_eq!(
        err.to_std_error(),
        StdError::generic_err("Invalid reply message: Generic error: boom")
    );
}

#[test]
fn parse_variant_shows_the_reply_errors_own_text() {
    let err = ContractError::Parse(ParseReplyError::SubMsgFailure("oops".to_string()));
    assert_eq!(err.message(), "Failure response from sub-message: oops");
    assert_eq!(
        err.to_std_error(),
        StdError::generic_err("Failure response from sub-message: oops")
    );
}

#[test]
fn std_variant_shows_the_host_errors_own_text() {
    let err = ContractError::Std(StdError::generic_err("boom"));
    assert_eq!(err.message(), "Generic error: boom");
}

#[test]
fn wrong_scheme_message_quotes_scheme_and_set() {
    let err = UriError::WrongScheme {
        scheme: "http".to_string(),
        wanted: vec!["cw-storage".to_string()],
    };
    assert_eq!(
        err.message(),
        "Incompatible uri scheme \"http\". Should be [\"cw-storage\"]"
    );
}

#[test]
fn wrong_scheme_message_keeps_the_sets_order() {
    let err = UriError::WrongScheme {
        scheme: "ftp".to_string(),
        wanted: vec!["cw-storage".to_string(), "cosmwasm".to_string()],
    };
    assert_eq!(
        err.message(),
        "Incompatible uri scheme \"ftp\". Should be [\"cw-storage\", \"cosmwasm\"]"
    );
}

#[test]
fn fixed_uri_error_messages() {
    assert_eq!(
        UriError::IncompatiblePath.message(),
        "The given path doesn't correspond to a cw-storage uri"
    );
    assert_eq!(
        UriError::MissingQueryKey.message(),
        "URI doesn't contains needed query key"
    );
    assert_eq!(
        UriError::IncompatibleQuery.message(),
        "The given query is not compatible"
    );
}

#[test]
fn wrapped_error_messages_are_the_collaborators_texts() {
    assert_eq!(
        UriError::Parse(url_error()).message(),
        format!("{}", url_error())
    );
    assert_eq!(
        UriError::JSONDecoding(json_error()).message(),
        format!("{}", json_error())
    );
}

#[test]
fn debug_message_matches_the_derived_rendering() {
    let samples = vec![
        UriError::Parse(url_error()),
        UriError::WrongScheme {
            scheme: "ht\"tp\\".to_string(),
            wanted: vec!["cw-storage".to_string(), "co\"smwasm".to_string()],
        },
        UriError::WrongScheme {
            scheme: "http".to_string(),
            wanted: vec![],
        },
        UriError::IncompatiblePath,
        UriError::MissingQueryKey,
        UriError::JSONDecoding(json_error()),
        UriError::IncompatibleQuery,
    ];
    for err in samples {
        assert_eq!(err.debug_message(), format!("{:?}", err));
    }
}

#[test]
fn logic_load_uri_message_quotes_the_uri() {
    let err = ContractError::dependency_uri(
        UriError::WrongScheme {
            scheme: "http".to_string(),
            wanted: vec!["cw-storage".to_string()],
        },
        "http://x".to_string(),
    );
    assert_eq!(
        err.message(),
        "Failed parse dependency uri \"http://x\": WrongScheme { scheme: \"http\", wanted: [\"cw-storage\"] }"
    );
}

#[test]
fn wrong_scheme_equality_is_structural() {
    let a = UriError::WrongScheme {
        scheme: "http".to_string(),
        wanted: vec!["a".to_string(), "b".to_string()],
    };
    let b = UriError::WrongScheme {
        scheme: "http".to_string(),
        wanted: vec!["a".to_string(), "b".to_string()],
    };
    assert_eq!(a, b);
}

#[test]
fn wrong_scheme_equality_is_order_sensitive() {
    let a = UriError::WrongScheme {
        scheme: "http".to_string(),
        wanted: vec!["a".to_string(), "b".to_string()],
    };
    let b = UriError::WrongScheme {
        scheme: "http".to_string(),
        wanted: vec!["b".to_string(), "a".to_string()],
    };
    assert_ne!(a, b);
    let c = UriError::WrongScheme {
        scheme: "https".to_string(),
        wanted: vec!["a".to_string(), "b".to_string()],
    };
    assert_ne!(a, c);
}

#[test]
fn foreign_errors_wrap_into_the_local_variants() {
    let std_err = ContractError::from(StdError::generic_err("x"));
    assert_eq!(std_err, ContractError::Std(StdError::generic_err("x")));
    let reply_err = ContractError::from(ParseReplyError::ParseFailure("y".to_string()));
    assert_eq!(
        reply_err,
        ContractError::Parse(ParseReplyError::ParseFailure("y".to_string()))
    );
    assert_eq!(UriError::from(url_error()), UriError::Parse(url_error()));
    assert_eq!(
        UriError::from(json_error()),
        UriError::JSONDecoding(json_error())
    );
}
