//! The token endpoint: the two OAuth grant exchanges and the expiry
//! computation for the credential they return.
//!
//! The HTTP round trip itself is left to the caller; everything around it —
//! the endpoint URL, the form fields of each grant, the shape check of the
//! response, and the absolute expiry instants — is built and proved here.

use vstd::prelude::*;

use crate::cred::Credential;
use crate::err::KeycloakError;

verus! {

/// The four fields of a successful token-endpoint response.
pub struct TokenResponse {
    pub access_token: String,
    pub refresh_token: String,
    pub expires_in: i64,
    pub refresh_expires_in: i64,
}

/// `{base_url}/realms/{realm}/protocol/openid-connect/token`.
pub fn token_endpoint_url(base_url: &str, realm: &str) -> (u: String)
    ensures
        u@ == base_url@ + "/realms/"@ + realm@ + "/protocol/openid-connect/token"@,
{
    let mut u = base_url.to_owned();
    u.append("/realms/");
    u.append(realm);
    u.append("/protocol/openid-connect/token");
    proof {
        assert(u@ =~= base_url@ + "/realms/"@ + realm@ + "/protocol/openid-connect/token"@);
    }
    u
}

/// The form fields of a password grant, in the order they are sent.
pub fn password_grant_form(client_id: &str, username: &str, password: &str) -> (f: Vec<
    (String, String),
>)
    ensures
        f@.len() == 4,
        f@[0].0@ == "grant_type"@ && f@[0].1@ == "password"@,
        f@[1].0@ == "client_id"@ && f@[1].1@ == client_id@,
        f@[2].0@ == "username"@ && f@[2].1@ == username@,
        f@[3].0@ == "password"@ && f@[3].1@ == password@,
{
    let mut f: Vec<(String, String)> = Vec::new();
    f.push(("grant_type".to_owned(), "password".to_owned()));
    f.push(("client_id".to_owned(), client_id.to_owned()));
    f.push(("username".to_owned(), username.to_owned()));
    f.push(("password".to_owned(), password.to_owned()));
    f
}

/// The form fields of a refresh grant, in the order they are sent.
pub fn refresh_grant_form(client_id: &str, refresh_token: &str) -> (f: Vec<(String, String)>)
    ensures
        f@.len() == 3,
        f@[0].0@ == "grant_type"@ && f@[0].1@ == "refresh_token"@,
        f@[1].0@ == "client_id"@ && f@[1].1@ == client_id@,
        f@[2].0@ == "refresh_token"@ && f@[2].1@ == refresh_token@,
{
    let mut f: Vec<(String, String)> = Vec::new();
    f.push(("grant_type".to_owned(), "refresh_token".to_owned()));
    f.push(("client_id".to_owned(), client_id.to_owned()));
    f.push(("refresh_token".to_owned(), refresh_token.to_owned()));
    f
}

/// The four token fields a token-endpoint response body denotes — access
/// token, refresh token, `expires_in`, `refresh_expires_in` — or `None` when
/// the text is not a JSON object carrying all four with the right types. A
/// function of the text alone.
pub uninterp spec fn spec_token_fields(body: Seq<char>) -> Option<(Seq<char>, Seq<char>, i64, i64)>;

/// Relies on `serde_json::from_str::<Value>` and `Value::{get, as_str,
/// as_i64}`: returns exactly the four fields the body denotes
/// ([`spec_token_fields`]), or a description of the mismatch.
#[verifier::external_body]
fn extract_token_fields(body: &str) -> (r: Result<(String, String, i64, i64), String>)
    ensures
        r is Ok <==> spec_token_fields(body@) is Some,
        r matches Ok(t) ==> spec_token_fields(body@) == Some((t.0@, t.1@, t.2, t.3)),
{
    let v: serde_json::Value = serde_json::from_str(body).map_err(|e| e.to_string())?;
    match (
        v.get("access_token").and_then(serde_json::Value::as_str),
        v.get("refresh_token").and_then(serde_json::Value::as_str),
        v.get("expires_in").and_then(serde_json::Value::as_i64),
        v.get("refresh_expires_in").and_then(serde_json::Value::as_i64),
    ) {
        (Some(a), Some(r), Some(e), Some(x)) => Ok((a.to_owned(), r.to_owned(), e, x)),
        _ => Err("token response is missing a field or mistypes one".to_owned()),
    }
}

/// Check a token-endpoint response body against the expected shape:
/// `access_token` and `refresh_token` strings, `expires_in` and
/// `refresh_expires_in` integer seconds. The result is `Ok` exactly when the
/// body denotes all four fields, and then carries exactly them; any mismatch
/// is a parse error carrying the raw body.
pub fn parse_token_response(body: &str) -> (r: Result<TokenResponse, KeycloakError>)
    ensures
        r is Ok <==> spec_token_fields(body@) is Some,
        r matches Ok(t) ==> spec_token_fields(body@) == Some(
            (t.access_token@, t.refresh_token@, t.expires_in, t.refresh_expires_in),
        ),
        r matches Err(e) ==> e matches KeycloakError::JSONParseError(b, _) && b@ == body@,
{
    match extract_token_fields(body) {
        Ok(t) => Ok(
            TokenResponse {
                access_token: t.0,
                refresh_token: t.1,
                expires_in: t.2,
                refresh_expires_in: t.3,
            },
        ),
        Err(msg) => Err(KeycloakError::JSONParseError(body.to_owned(), msg)),
    }
}

/// Compute the credential a grant exchange yields, with both expiries
/// absolute and measured from the moment `now` (seconds since the epoch) the
/// response was received. The caller keeps the sums inside `i64`, as the
/// provider's lifetimes always do.
pub fn credential_from_response(resp: TokenResponse, now: i64) -> (c: Credential)
    requires
        i64::MIN <= now + resp.expires_in <= i64::MAX,
        i64::MIN <= now + resp.refresh_expires_in <= i64::MAX,
    ensures
        c.access_token == resp.access_token,
        c.refresh_token == resp.refresh_token,
        c.access_expiry == now + resp.expires_in,
        c.refresh_expiry == now + resp.refresh_expires_in,
        resp.expires_in <= resp.refresh_expires_in ==> c.wf(),
{
    Credential {
        access_token: resp.access_token,
        refresh_token: resp.refresh_token,
        access_expiry: now + resp.expires_in,
        refresh_expiry: now + resp.refresh_expires_in,
    }
}

} // verus!
