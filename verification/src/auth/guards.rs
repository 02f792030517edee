//! The authenticated-user guard and master-password checking.

use vstd::prelude::*;
use crate::auth::claims::LoginClaims;
use crate::db::models::User;
use crate::error::AppError;
use crate::text::{has_prefix, owned, str_eq, strip_prefix};
use crate::util::{base64_decode, base64_text};

verus! {

/// The user a valid access token speaks for.
pub struct AuthenticatedUser {
    pub uuid: String,
    pub email: String,
    pub name: String,
    pub premium: bool,
    pub security_stamp: String,
    pub device_uuid: String,
    pub scope: Vec<String>,
}

impl AuthenticatedUser {
    /// The user described by verified access-token claims.
    pub fn from_claims(claims: LoginClaims) -> (r: AuthenticatedUser)
        ensures
            r.uuid == claims.sub,
            r.email == claims.email,
            r.name == claims.name,
            r.premium == claims.premium,
            r.security_stamp == claims.sstamp,
            r.device_uuid == claims.device,
            r.scope == claims.scope,
    {
        AuthenticatedUser {
            uuid: claims.sub,
            email: claims.email,
            name: claims.name,
            premium: claims.premium,
            security_stamp: claims.sstamp,
            device_uuid: claims.device,
            scope: claims.scope,
        }
    }
}

/// An access token stands only while the security stamp it carries is its
/// user's current one: rotating the stamp (a password, KDF or key change, or
/// a stamp reset) revokes every token issued before. `user` is the row of
/// the token's subject, if it still exists.
pub fn check_security_stamp(caller: &AuthenticatedUser, user: Option<&User>) -> (r: Result<(), AppError>)
    ensures
        r is Ok <==> (user matches Some(u) && u.security_stamp@ == caller.security_stamp@),
        r is Err ==> (r matches Err(AppError::Unauthorized(m)) && m@ == "Invalid security stamp"@),
{
    match user {
        Some(u) => if str_eq(u.security_stamp.as_str(), caller.security_stamp.as_str()) {
            Ok(())
        } else {
            Err(AppError::Unauthorized(owned("Invalid security stamp")))
        },
        None => Err(AppError::Unauthorized(owned("Invalid security stamp"))),
    }
}

/// Extract the Bearer token from an Authorization header value.
pub fn extract_bearer_token(auth_header: &str) -> (r: Result<&str, AppError>)
    ensures
        has_prefix(auth_header@, "Bearer "@) ==> (r matches Ok(t) && t@ == auth_header@.skip(7)),
        !has_prefix(auth_header@, "Bearer "@) ==> (r matches Err(AppError::Unauthorized(m)) && m@
            == "Invalid authorization header"@),
{
    proof {
        reveal_strlit("Bearer ");
    }
    match strip_prefix(auth_header, "Bearer ") {
        Some(t) => Ok(t),
        None => Err(AppError::Unauthorized(owned("Invalid authorization header"))),
    }
}

/// The first half of `verify_master_password`: the user's stored salt.
/// An undecodable salt is a bad request.
pub fn password_salt(user: &User) -> (r: Result<Vec<u8>, AppError>)
    ensures
        r matches Ok(v) ==> base64_text(v@) == user.salt@,
        forall|b: Seq<u8>| #[trigger] base64_text(b) == user.salt@ ==> (r matches Ok(v) && v@ == b),
        r matches Err(e) ==> e is BadRequest,
{
    base64_decode(user.salt.as_str())
}

/// The second half of `verify_master_password`: whether the PBKDF2 output
/// computed from the submitted hash and the salt equals the stored hash.
pub fn password_matches(user: &User, computed: &[u8]) -> (r: Result<bool, AppError>)
    ensures
        forall|b: Seq<u8>| #[trigger] base64_text(b) == user.password_hash@ ==> (r matches Ok(same) && same
            == (computed@ == b)),
        r matches Ok(same) ==> (same <==> base64_text(computed@) == user.password_hash@),
        r matches Err(e) ==> e is BadRequest,
{
    let stored = base64_decode(user.password_hash.as_str())?;
    let same = slice_eq(computed, stored.as_slice());
    Ok(same)
}

/// Byte-slice equality.
pub fn slice_eq(a: &[u8], b: &[u8]) -> (r: bool)
    ensures
        r == (a@ == b@),
{
    if a.len() != b.len() {
        return false;
    }
    let n = a.len();
    for i in 0..n
        invariant
            n == a@.len(),
            n == b@.len(),
            forall|j: int| 0 <= j < i ==> a@[j] == b@[j],
    {
        if a[i] != b[i] {
            return false;
        }
    }
    assert(a@ =~= b@);
    true
}

} // verus!
