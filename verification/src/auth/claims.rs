//! JWT claim sets. The JSON field `type` is held in `typ`.

use vstd::prelude::*;

verus! {

/// Claims of an access token.
pub struct LoginClaims {
    /// Not before (epoch seconds)
    pub nbf: i64,
    /// Expiration (epoch seconds)
    pub exp: i64,
    /// Issuer
    pub iss: String,
    /// Subject (user UUID)
    pub sub: String,
    /// Token type: "access_token"
    pub typ: String,
    pub premium: bool,
    pub name: String,
    pub email: String,
    pub email_verified: bool,
    /// Security stamp (invalidation token)
    pub sstamp: String,
    /// Device identifier
    pub device: String,
    /// Granted scopes
    pub scope: Vec<String>,
    /// Organization IDs by role; empty lists are omitted from the JSON.
    pub orgowner: Vec<String>,
    pub orgadmin: Vec<String>,
    pub orguser: Vec<String>,
    pub orgmanager: Vec<String>,
}

/// Claims of a refresh token.
pub struct RefreshClaims {
    pub nbf: i64,
    pub exp: i64,
    pub iss: String,
    pub sub: String,
    pub typ: String,
    /// Device UUID (links refresh token to device)
    pub token: String,
    /// Unique token ID (ensures each refresh token is distinct)
    pub jti: String,
}

/// Claims of an organization invite token.
pub struct InviteClaims {
    pub nbf: i64,
    pub exp: i64,
    pub iss: String,
    pub sub: String,
    pub typ: String,
    pub email: String,
    pub org_id: String,
}

/// `sub` holds the lowercased email so that `register/finish` can reject a
/// token whose email was changed in the finish request body.
pub struct RegisterVerifyClaims {
    pub nbf: i64,
    pub exp: i64,
    pub iss: String,
    pub sub: String,
    pub typ: String,
    pub name: Option<String>,
    pub verified: bool,
}

/// `sub` holds `"{send_id}/{file_id}"` so that the token is bound to one
/// object and cannot be replayed against another file.
pub struct SendAccessClaims {
    pub nbf: i64,
    pub exp: i64,
    pub iss: String,
    pub sub: String,
    pub typ: String,
}

} // verus!
