use api_helper::error::ApiError;
use api_helper::method::{parse_method, Verb};

#[test]
fn standard_verbs_are_recognized() {
    assert_eq!(parse_method("GET"), Ok(Verb::Get));
    assert_eq!(parse_method("POST"), Ok(Verb::Post));
    assert_eq!(parse_method("PUT"), Ok(Verb::Put));
    assert_eq!(parse_method("DELETE"), Ok(Verb::Delete));
    assert_eq!(parse_method("HEAD"), Ok(Verb::Head));
    assert_eq!(parse_method("OPTIONS"), Ok(Verb::Options));
    assert_eq!(parse_method("CONNECT"), Ok(Verb::Connect));
    assert_eq!(parse_method("PATCH"), Ok(Verb::Patch));
    assert_eq!(parse_method("TRACE"), Ok(Verb::Trace));
}

#[test]
fn invalid_method_is_rejected() {
    assert_eq!(parse_method("FOOBAR!"), Err(ApiError::InvalidMethod));
}

#[test]
fn verbs_are_case_sensitive() {
    assert_eq!(parse_method("get"), Err(ApiError::InvalidMethod));
    assert_eq!(parse_method("Post"), Err(ApiError::InvalidMethod));
}

#[test]
fn empty_method_is_rejected() {
    assert_eq!(parse_method(""), Err(ApiError::InvalidMethod));
}

#[test]
fn unlisted_token_is_rejected() {
    assert_eq!(parse_method("FOOBAR"), Err(ApiError::InvalidMethod));
    assert_eq!(parse_method("GET "), Err(ApiError::InvalidMethod));
}

#[test]
fn verb_is_parsed_from_its_own_name() {
    let verbs = [
        Verb::Get,
        Verb::Post,
        Verb::Put,
        Verb::Delete,
        Verb::Head,
        Verb::Options,
        Verb::Connect,
        Verb::Patch,
        Verb::Trace,
    ];
    for verb in verbs {
        assert_eq!(parse_method(verb.as_str()), Ok(verb));
    }
}

#[test]
fn verb_names_are_those_of_the_protocol() {
    assert_eq!(Verb::Get.as_str(), "GET");
    assert_eq!(Verb::Delete.as_str(), "DELETE");
    assert_eq!(Verb::Options.as_str(), "OPTIONS");
    assert_eq!(reqwest::Method::from_bytes(Verb::Patch.as_str().as_bytes()).unwrap(), reqwest::Method::PATCH);
}

#[test]
fn method_token_that_is_no_verb_is_rejected() {
    assert!(reqwest::Method::from_bytes(b"PROPFIND").is_ok());
    assert_eq!(parse_method("PROPFIND"), Err(ApiError::InvalidMethod));
}
