//! Authorization-code extraction from redirect URLs.

use auth_response::AuthError;
use auth_response::GotoResponse;
use auth_response::find_query_param;

fn goto(url: &str) -> GotoResponse {
    GotoResponse {
        goto: Some(url.to_string()),
    }
}

#[test]
fn code_between_other_parameters() {
    let r = goto("https://example.com/cb?a=1&code=ABC123&b=2");
    assert_eq!(r.extract_authorization_code().unwrap(), "ABC123");
}

#[test]
fn url_without_query_is_missing_query() {
    let r = goto("https://example.com/cb");
    assert_eq!(r.extract_authorization_code().unwrap_err(), AuthError::MissingQuery);
}

#[test]
fn query_without_code_key_is_code_not_found() {
    let r = goto("https://example.com/cb?a=1&b=2");
    assert_eq!(
        r.extract_authorization_code().unwrap_err(),
        AuthError::AuthorizationCodeNotFound
    );
}

#[test]
fn absent_goto_is_missing_redirect_target() {
    let r = GotoResponse { goto: None };
    assert_eq!(
        r.extract_authorization_code().unwrap_err(),
        AuthError::MissingRedirectTarget
    );
}

#[test]
fn invalid_url_is_rejected() {
    let r = goto("not a url at all");
    assert_eq!(r.extract_authorization_code().unwrap_err(), AuthError::InvalidUrl);
}

#[test]
fn duplicate_code_first_occurrence_wins() {
    let r = goto("https://example.com/cb?code=FIRST&code=SECOND");
    assert_eq!(r.extract_authorization_code().unwrap(), "FIRST");
}

#[test]
fn code_value_is_returned_without_decoding() {
    // Percent-encoded content is handed back exactly as it appeared.
    let r = goto("https://example.com/cb?code=a%20b%3D");
    assert_eq!(r.extract_authorization_code().unwrap(), "a%20b%3D");
}

#[test]
fn code_value_keeps_everything_after_first_equals() {
    // The segment is split on its *first* `=`; later ones belong to the value.
    let r = goto("https://example.com/cb?code=x=y");
    assert_eq!(r.extract_authorization_code().unwrap(), "x=y");
}

#[test]
fn code_segment_without_equals_is_malformed() {
    let r = goto("https://example.com/cb?a=1&code");
    assert_eq!(
        r.extract_authorization_code().unwrap_err(),
        AuthError::MalformedParameter
    );
}

#[test]
fn empty_key_segment_is_malformed() {
    // `=v` lacks a key: the scan aborts before it ever reaches `code`.
    let r = goto("https://example.com/cb?=v&code=X");
    assert_eq!(
        r.extract_authorization_code().unwrap_err(),
        AuthError::MalformedParameter
    );
}

#[test]
fn malformed_segment_after_the_match_is_not_reached() {
    // The scan terminates on the first match; later segments are not examined.
    let r = goto("https://example.com/cb?code=X&=v");
    assert_eq!(r.extract_authorization_code().unwrap(), "X");
}

#[test]
fn fragment_is_not_part_of_the_query() {
    // A wrapper that handed the whole URL (or the fragment too) through would
    // return "ABC#frag" here.
    let r = goto("https://example.com/cb?code=ABC#frag");
    assert_eq!(r.extract_authorization_code().unwrap(), "ABC");
}

#[test]
fn empty_query_component_is_code_not_found() {
    let r = goto("https://example.com/cb?");
    assert_eq!(
        r.extract_authorization_code().unwrap_err(),
        AuthError::AuthorizationCodeNotFound
    );
}

#[test]
fn goto_round_trip_preserves_the_string() {
    let target = String::from("https://example.com/cb?code=Z");
    let r = GotoResponse::from(&target);
    assert_eq!(r.goto.as_deref(), Some(target.as_str()));
}

#[test]
fn find_query_param_returns_first_match() {
    assert_eq!(find_query_param("a=1&code=X&b=2", "code").unwrap(), "X");
}

#[test]
fn find_query_param_missing_key_is_parameter_not_found() {
    assert_eq!(
        find_query_param("a=1&b=2", "code").unwrap_err(),
        AuthError::ParameterNotFound
    );
}

#[test]
fn find_query_param_empty_value_is_ok() {
    assert_eq!(find_query_param("code=&b=2", "code").unwrap(), "");
}

#[test]
fn find_query_param_ignores_empty_segments() {
    assert_eq!(find_query_param("&&code=Y", "code").unwrap(), "Y");
}

#[test]
fn find_query_param_empty_key_segment_is_malformed() {
    assert_eq!(
        find_query_param("=v&code=X", "code").unwrap_err(),
        AuthError::MalformedParameter
    );
}

#[test]
fn find_query_param_key_without_pair_is_malformed() {
    assert_eq!(
        find_query_param("x=1&code", "code").unwrap_err(),
        AuthError::MalformedParameter
    );
}
