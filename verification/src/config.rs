//! Per-request settings: client headers, the authenticated user, and the
//! deployment's switches and origin.

use vstd::prelude::*;
use crate::auth::guards::AuthenticatedUser;
use crate::error::AppError;
use crate::text::{owned, str_eq};

verus! {

/// Client information from the Bitwarden-specific request headers.
pub struct ClientInfo {
    pub name: Option<String>,
    pub version: Option<String>,
}

/// The user a request was authenticated as.
pub fn authenticated(user: Option<&AuthenticatedUser>) -> (r: Result<&AuthenticatedUser, AppError>)
    ensures
        match user {
            Some(u) => r == Ok::<&AuthenticatedUser, AppError>(u),
            None => r matches Err(AppError::Unauthorized(m)) && m@ == "Not authenticated"@,
        },
{
    match user {
        Some(u) => Ok(u),
        None => Err(AppError::Unauthorized(owned("Not authenticated"))),
    }
}

/// A boolean setting: on exactly when it is set to `true`; when it is not
/// set at all, `default`.
pub fn flag_setting(value: Option<&str>, default: bool) -> (r: bool)
    ensures
        match value {
            Some(v) => r == (v@ == "true"@),
            None => r == default,
        },
{
    match value {
        Some(v) => str_eq(v, "true"),
        None => default,
    }
}

/// Registration is open unless `SIGNUPS_ALLOWED` is set to something
/// other than `true`: an unset variable leaves it open.
pub fn signups_allowed(setting: Option<&str>) -> (r: bool)
    ensures
        r == (setting is None || (setting matches Some(v) && v@ == "true"@)),
{
    flag_setting(setting, true)
}

/// The web vault is served unless `WEB_VAULT_ENABLED` is set to something
/// other than `true`.
pub fn web_vault_enabled(setting: Option<&str>) -> (r: bool)
    ensures
        r == (setting is None || (setting matches Some(v) && v@ == "true"@)),
{
    flag_setting(setting, true)
}

/// The ASCII serialization of the origin of the URL that `s` parses to
/// (`url::Url::parse(s)?.origin().ascii_serialization()`), when it parses.
pub uninterp spec fn url_origin(s: Seq<char>) -> Option<Seq<char>>;

/// Calls `url::Url::parse` and serializes the origin of the result; the
/// result depends on `s` alone. A parse error comes back as its text.
#[verifier::external_body]
pub(crate) fn parse_origin(s: &str) -> (r: Result<String, String>)
    ensures
        match r {
            Ok(o) => url_origin(s@) == Some(o@),
            Err(_) => url_origin(s@) is None,
        },
{
    match worker::Url::parse(s) {
        Ok(u) => Ok(u.origin().ascii_serialization()),
        Err(e) => Err(e.to_string()),
    }
}

/// The origin of the configured domain; a domain that is not a URL is a
/// configuration error naming the domain and the parse error.
pub fn domain_origin(domain: &str) -> (r: Result<String, AppError>)
    ensures
        match url_origin(domain@) {
            Some(o) => r matches Ok(s) && s@ == o,
            None => r matches Err(AppError::Internal(m)) && exists|detail: Seq<char>|
                m@ == "Invalid DOMAIN "@ + domain@ + ": "@ + detail,
        },
{
    match parse_origin(domain) {
        Ok(o) => Ok(o),
        Err(e) => {
            let mut m = owned("Invalid DOMAIN ");
            m.append(domain);
            m.append(": ");
            m.append(e.as_str());
            Err(AppError::Internal(m))
        },
    }
}

} // verus!
