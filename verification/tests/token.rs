use kcnss::cred::{CredAction, CredentialCache};
use kcnss::err::KeycloakError;
use kcnss::token::{
    credential_from_response, parse_token_response, password_grant_form, refresh_grant_form,
    token_endpoint_url,
};

#[test]
fn endpoint_url_shape() {
    let u = token_endpoint_url("https://id.example.com", "staff");
    assert_eq!(u, "https://id.example.com/realms/staff/protocol/openid-connect/token");
}

#[test]
fn password_grant_fields() {
    let f = password_grant_form("nss-client", "svc", "pw");
    assert_eq!(f.len(), 4);
    assert_eq!(f[0], ("grant_type".to_string(), "password".to_string()));
    assert_eq!(f[1], ("client_id".to_string(), "nss-client".to_string()));
    assert_eq!(f[2], ("username".to_string(), "svc".to_string()));
    assert_eq!(f[3], ("password".to_string(), "pw".to_string()));
}

#[test]
fn refresh_grant_fields() {
    let f = refresh_grant_form("nss-client", "R-token");
    assert_eq!(f.len(), 3);
    assert_eq!(f[0], ("grant_type".to_string(), "refresh_token".to_string()));
    assert_eq!(f[1], ("client_id".to_string(), "nss-client".to_string()));
    assert_eq!(f[2], ("refresh_token".to_string(), "R-token".to_string()));
}

#[test]
fn well_formed_response_parses() {
    let body = r#"{"access_token":"A","refresh_token":"R","expires_in":300,"refresh_expires_in":1800}"#;
    let resp = parse_token_response(body).unwrap();
    assert_eq!(resp.access_token, "A");
    assert_eq!(resp.refresh_token, "R");
    assert_eq!(resp.expires_in, 300);
    assert_eq!(resp.refresh_expires_in, 1800);
}

#[test]
fn missing_field_is_parse_error() {
    let body = r#"{"access_token":"A","expires_in":300,"refresh_expires_in":1800}"#;
    match parse_token_response(body) {
        Err(KeycloakError::JSONParseError(b, _)) => assert_eq!(b, body),
        _ => panic!("expected a parse error carrying the body"),
    }
}

#[test]
fn mistyped_field_is_parse_error() {
    let body = r#"{"access_token":"A","refresh_token":"R","expires_in":"soon","refresh_expires_in":1800}"#;
    assert!(matches!(parse_token_response(body), Err(KeycloakError::JSONParseError(_, _))));
    let body2 = r#"{"access_token":7,"refresh_token":"R","expires_in":300,"refresh_expires_in":1800}"#;
    assert!(matches!(parse_token_response(body2), Err(KeycloakError::JSONParseError(_, _))));
    let body3 = r#"{"access_token":"A","refresh_token":"R","expires_in":300.5,"refresh_expires_in":1800}"#;
    assert!(matches!(parse_token_response(body3), Err(KeycloakError::JSONParseError(_, _))));
}

#[test]
fn invalid_json_is_parse_error_with_body() {
    let body = "not json at all {";
    match parse_token_response(body) {
        Err(KeycloakError::JSONParseError(b, why)) => {
            assert_eq!(b, body);
            assert!(!why.is_empty());
        }
        _ => panic!("expected a parse error"),
    }
}

#[test]
fn expiries_measured_from_receipt() {
    let body = r#"{"access_token":"A","refresh_token":"R","expires_in":300,"refresh_expires_in":1800}"#;
    let resp = parse_token_response(body).unwrap();
    let t0: i64 = 1_700_000_000;
    let c = credential_from_response(resp, t0);
    assert_eq!(c.access_token, "A");
    assert_eq!(c.refresh_token, "R");
    assert_eq!(c.access_expiry, t0 + 300);
    assert_eq!(c.refresh_expiry, t0 + 1800);
}

#[test]
fn token_lifecycle_scenario() {
    let body = r#"{"access_token":"A","refresh_token":"R","expires_in":300,"refresh_expires_in":1800}"#;
    let t0: i64 = 1_700_000_000;
    let resp = parse_token_response(body).unwrap();
    let mut cache = CredentialCache::new();
    cache.commit(credential_from_response(resp, t0));
    // Well inside the access horizon: reuse, no network call.
    assert_eq!(cache.decide(t0 + 250), CredAction::Reuse);
    // Access horizon minus the margin has passed, refresh horizon has not.
    assert_eq!(cache.decide(t0 + 296), CredAction::Refresh);
    // Refresh horizon reached: full re-acquisition.
    assert_eq!(cache.decide(t0 + 1800), CredAction::Acquire);
}
