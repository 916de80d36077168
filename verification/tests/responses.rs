//! The token-bearing response shapes and the uniform token-reading capability.

use auth_response::AuthError;
use auth_response::AuthorizationToken;
use auth_response::MobileLoginResponse;
use auth_response::PdsLoginResult;
use auth_response::RefreshTokenResponse;
use auth_response::WebLoginResponse;

#[test]
fn mobile_login_without_result_reads_absent() {
    let m = MobileLoginResponse {
        pds_login_result: None,
    };
    assert_eq!(m.access_token(), None);
    assert_eq!(m.refresh_token(), None);
}

#[test]
fn mobile_login_partial_result_reads_absent() {
    let m = MobileLoginResponse {
        pds_login_result: Some(PdsLoginResult {
            refresh_token: Some("r1".to_string()),
            ..Default::default()
        }),
    };
    assert_eq!(m.access_token(), None);
    assert_eq!(m.refresh_token(), Some("r1".to_string()));
}

#[test]
fn mobile_login_complete_result_reads_both() {
    let m = MobileLoginResponse {
        pds_login_result: Some(PdsLoginResult {
            access_token: Some("a1".to_string()),
            refresh_token: Some("r1".to_string()),
            nick_name: Some("nick".to_string()),
            ..Default::default()
        }),
    };
    assert_eq!(m.access_token(), Some("a1".to_string()));
    assert_eq!(m.refresh_token(), Some("r1".to_string()));
}

#[test]
fn web_login_reads_flat_fields_exactly() {
    let w = WebLoginResponse {
        access_token: Some("tok1".to_string()),
        refresh_token: Some("tok2".to_string()),
        ..Default::default()
    };
    assert_eq!(w.access_token(), Some("tok1".to_string()));
    // Reading twice yields the same value: the record is not mutated.
    assert_eq!(w.access_token(), Some("tok1".to_string()));
    assert_eq!(w.refresh_token(), Some("tok2".to_string()));
}

#[test]
fn web_login_pending_reads_absent() {
    let w = WebLoginResponse::default();
    assert_eq!(w.access_token(), None);
    assert_eq!(w.refresh_token(), None);
}

#[test]
fn web_login_get_drive_id_yields_the_field() {
    let w = WebLoginResponse {
        default_drive_id: Some("drive7".to_string()),
        ..Default::default()
    };
    assert_eq!(w.get_drive_id(), Some("drive7".to_string()));
    let none = WebLoginResponse::default();
    assert_eq!(none.get_drive_id(), None);
}

#[test]
fn refresh_token_from_complete_parts() {
    let t = RefreshTokenResponse::from_parts(
        Some("at".to_string()),
        Some("rt".to_string()),
        Some(7200),
        Some("Bearer".to_string()),
        Some("u1".to_string()),
        Some("nick".to_string()),
        Some("d1".to_string()),
    )
    .unwrap();
    assert_eq!(t.access_token, "at");
    assert_eq!(t.refresh_token, "rt");
    assert_eq!(t.expires_in, 7200);
    assert_eq!(t.token_type, "Bearer");
    assert_eq!(t.user_id, "u1");
    assert_eq!(t.nick_name, "nick");
    assert_eq!(t.default_drive_id, "d1");
}

#[test]
fn refresh_token_missing_access_token_is_protocol_violation() {
    let r = RefreshTokenResponse::from_parts(
        None,
        Some("rt".to_string()),
        Some(7200),
        Some("Bearer".to_string()),
        Some("u1".to_string()),
        Some("nick".to_string()),
        Some("d1".to_string()),
    );
    assert_eq!(r.unwrap_err(), AuthError::MissingMandatoryField);
}

#[test]
fn refresh_token_missing_expiry_is_protocol_violation() {
    let r = RefreshTokenResponse::from_parts(
        Some("at".to_string()),
        Some("rt".to_string()),
        None,
        Some("Bearer".to_string()),
        Some("u1".to_string()),
        Some("nick".to_string()),
        Some("d1".to_string()),
    );
    assert_eq!(r.unwrap_err(), AuthError::MissingMandatoryField);
}
