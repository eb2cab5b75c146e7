//! The requests made to Azure AD and the Sentinel upload API, and what their
//! answers mean.

use crate::config::SentinelConfig;
use crate::error::Error;
use crate::sentinel::regex_lite::captured_number;
use crate::sentinel::{rate_limit_error, UploadResponse};
use vstd::prelude::*;

verus! {

/// `a + b + c + d` as text.
fn join4(a: &str, b: &str, c: &str, d: &str) -> (r: String)
    ensures
        r@ == a@ + b@ + c@ + d@,
{
    let mut r = a.to_string();
    r.append(b);
    r.append(c);
    r.append(d);
    r
}

/// The URL of the upload API for a workspace.
pub fn upload_url(workspace_id: &str, api_version: &str) -> (r: String)
    ensures
        r@ == "https://api.ti.sentinel.azure.com/workspaces/"@ + workspace_id@
            + "/threat-intelligence-stix-objects:upload?api-version="@ + api_version@,
{
    join4(
        "https://api.ti.sentinel.azure.com/workspaces/",
        workspace_id,
        "/threat-intelligence-stix-objects:upload?api-version=",
        api_version,
    )
}

/// The URL of the Azure AD token endpoint for a tenant.
pub fn token_url(tenant_id: &str) -> (r: String)
    ensures
        r@ == "https://login.microsoftonline.com/"@ + tenant_id@ + "/oauth2/v2.0/token"@,
{
    let mut r = String::from_str("https://login.microsoftonline.com/");
    r.append(tenant_id);
    r.append("/oauth2/v2.0/token");
    r
}

/// The scope asked for in the token request.
pub const TOKEN_SCOPE: &'static str = "https://management.azure.com/.default";

/// The form fields of the client-credentials token request.
pub fn token_form(config: &SentinelConfig) -> (r: Vec<(String, String)>)
    ensures
        r@.len() == 4,
        r@[0].0@ == "grant_type"@ && r@[0].1@ == "client_credentials"@,
        r@[1].0@ == "client_id"@ && r@[1].1@ == config.client_id@,
        r@[2].0@ == "client_secret"@ && r@[2].1@ == config.client_secret@,
        r@[3].0@ == "scope"@ && r@[3].1@ == TOKEN_SCOPE@,
{
    let mut r: Vec<(String, String)> = Vec::new();
    r.push(("grant_type".to_string(), "client_credentials".to_string()));
    r.push(("client_id".to_string(), config.client_id.clone()));
    r.push(("client_secret".to_string(), config.client_secret.clone()));
    r.push(("scope".to_string(), TOKEN_SCOPE.to_string()));
    r
}

/// The `Authorization` header value for a token.
pub fn bearer(token: &str) -> (r: String)
    ensures
        r@ == "Bearer "@ + token@,
{
    let mut r = String::from_str("Bearer ");
    r.append(token);
    r
}

/// HTTP statuses that count as success.
pub open spec fn is_success_status(status: u16) -> bool {
    200 <= status <= 299
}

/// What an answer of the upload API comes to: rate limiting on status 429
/// (with the delay the body names, 60 seconds by default), an error on any
/// other unsuccessful status, else the parsed response, or an empty one when
/// the body did not parse.
pub fn upload_reply(status: u16, status_text: &str, body: &str, parsed: Option<UploadResponse>) -> (r:
    Result<UploadResponse, Error>)
    ensures
        status == 429 ==> r == Err::<UploadResponse, Error>(
            Error::RateLimit(
                match captured_number(body@) {
                    Some(n) => n,
                    None => 60,
                },
            ),
        ),
        status != 429 && !is_success_status(status) ==> (r matches Err(Error::SentinelApi(m)) && m@
            == "Upload failed ("@ + status_text@ + "): "@ + body@),
        is_success_status(status) ==> match parsed {
            Some(p) => r == Ok::<UploadResponse, Error>(p),
            None => r matches Ok(p) && p.errors@.len() == 0,
        },
{
    if status == 429 {
        return Err(rate_limit_error(body));
    }
    if status < 200 || status > 299 {
        return Err(Error::SentinelApi(join4("Upload failed (", status_text, "): ", body)));
    }
    match parsed {
        Some(p) => Ok(p),
        None => Ok(UploadResponse { errors: Vec::new() }),
    }
}

/// What an answer of the token endpoint comes to: an error on an unsuccessful
/// status or an unparsable body, else the token and its lifetime in seconds.
pub fn token_reply(
    success: bool,
    status_text: &str,
    body: &str,
    parsed: Result<(String, u64), String>,
) -> (r: Result<(String, u64), Error>)
    ensures
        !success ==> (r matches Err(Error::Auth(m)) && m@ == "Failed to acquire token ("@
            + status_text@ + "): "@ + body@),
        success ==> match parsed {
            Ok(t) => r == Ok::<(String, u64), Error>(t),
            Err(e) => r matches Err(Error::Auth(m)) && m@ == "Failed to parse token response: "@
                + e@,
        },
{
    if !success {
        return Err(Error::Auth(join4("Failed to acquire token (", status_text, "): ", body)));
    }
    match parsed {
        Ok(t) => Ok(t),
        Err(e) => {
            let mut m = String::from_str("Failed to parse token response: ");
            m.append(e.as_str());
            Err(Error::Auth(m))
        },
    }
}

} // verus!
