//! Second factors: enabling TOTP, recovery codes, and turning a provider
//! off.

use vstd::prelude::*;
use crate::crypto::random::is_random_failure;
use crate::api::identity::{totp_step_fresh, PROVIDER_TOTP};
use crate::crypto::totp::{generate_totp_secret, spec_base32_encode};
use crate::db::models::{TwoFactor, User};
use crate::error::AppError;
use crate::text::{owned, str_eq};
use crate::util::generate_uuid;

verus! {

/// One of the user's second factors, as listed.
pub struct TwoFactorProviderResponse {
    pub enabled: bool,
    /// The JSON `type`.
    pub atype: i32,
    pub object: String,
}

/// The TOTP secret shown while setting up an authenticator app.
pub struct AuthenticatorResponse {
    pub enabled: bool,
    pub key: String,
    pub object: String,
}

/// The user's recovery code.
pub struct RecoverResponse {
    pub code: Option<String>,
    pub object: String,
}

pub fn provider_response(enabled: bool, atype: i32) -> (r: TwoFactorProviderResponse)
    ensures
        r.enabled == enabled && r.atype == atype && r.object@ == "twoFactorProvider"@,
{
    TwoFactorProviderResponse { enabled, atype, object: owned("twoFactorProvider") }
}

/// The list entries for a user's second factors, in order.
pub fn provider_list(factors: &Vec<TwoFactor>) -> (r: Vec<TwoFactorProviderResponse>)
    ensures
        r@.len() == factors@.len(),
        forall|i: int|
            0 <= i < r@.len() ==> (#[trigger] r@[i]).enabled == factors@[i].enabled && r@[i].atype
                == factors@[i].atype && r@[i].object@ == "twoFactorProvider"@,
{
    let mut r: Vec<TwoFactorProviderResponse> = Vec::new();
    let n = factors.len();
    for i in 0..n
        invariant
            n == factors@.len(),
            r@.len() == i,
            forall|j: int|
                0 <= j < i ==> (#[trigger] r@[j]).enabled == factors@[j].enabled && r@[j].atype
                    == factors@[j].atype && r@[j].object@ == "twoFactorProvider"@,
    {
        r.push(provider_response(factors[i].enabled, factors[i].atype));
    }
    r
}

pub fn authenticator_response(enabled: bool, key: String) -> (r: AuthenticatorResponse)
    ensures
        r.enabled == enabled && r.key == key && r.object@ == "twoFactorAuthenticator"@,
{
    AuthenticatorResponse { enabled, key, object: owned("twoFactorAuthenticator") }
}

pub fn recover_response(code: Option<String>) -> (r: RecoverResponse)
    ensures
        r.code == code && r.object@ == "twoFactorRecover"@,
{
    RecoverResponse { code, object: owned("twoFactorRecover") }
}

/// Changing second factors needs the master password hash.
pub fn require_password_hash(hash: Option<&str>) -> (r: Result<&str, AppError>)
    ensures
        match hash {
            Some(h) => r == Ok::<&str, AppError>(h),
            None => r matches Err(AppError::Unauthorized(m)) && m@ == "Master password required"@,
        },
{
    match hash {
        Some(h) => Ok(h),
        None => Err(AppError::Unauthorized(owned("Master password required"))),
    }
}

/// The answer when the master password hash does not check out.
pub fn require_valid_password(valid: bool) -> (r: Result<(), AppError>)
    ensures
        valid <==> r is Ok,
        !valid ==> (r matches Err(AppError::Unauthorized(m)) && m@ == "Invalid master password"@),
{
    if !valid {
        return Err(AppError::Unauthorized(owned("Invalid master password")));
    }
    Ok(())
}

/// The authenticator shown to the user: the stored one, or a new secret
/// that is not enabled until a code from it is checked.
pub fn authenticator_key(existing: Option<&TwoFactor>) -> (r: Result<(bool, String), AppError>)
    ensures
        match existing {
            Some(tf) => r == Ok::<(bool, String), AppError>((tf.enabled, tf.data)),
            None => match r {
                Ok((enabled, key)) => !enabled && exists|b: Seq<u8>| b.len() == 20 && key@ == spec_base32_encode(b),
                Err(e) => is_random_failure(e),
            },
        },
{
    match existing {
        Some(tf) => Ok((tf.enabled, tf.data.clone())),
        None => {
            let secret = generate_totp_secret()?;
            Ok((false, secret))
        },
    }
}

/// Enable TOTP with `key` once a code from it matched at time step `step`
/// (`None`: no window matched). The step must be later than the last one
/// used with an existing authenticator; the stored record remembers it, so
/// the same code cannot then log in.
pub fn enable_totp(
    step: Option<u64>,
    existing: Option<&TwoFactor>,
    user_uuid: &str,
    key: &str,
) -> (r: Result<TwoFactor, AppError>)
    ensures
        step is None ==> (r matches Err(AppError::BadRequest(m)) && m@ == "Invalid TOTP code"@),
        step matches Some(s) && (existing matches Some(e) && !totp_step_fresh(s, e.last_used)) ==> (r matches Err(
            AppError::BadRequest(m),
        ) && m@ == "TOTP code already used"@),
        r matches Ok(tf) ==> {
            &&& step matches Some(s) && tf.last_used == Some(s)
            &&& tf.user_uuid@ == user_uuid@
            &&& tf.atype == PROVIDER_TOTP
            &&& tf.enabled
            &&& tf.data@ == key@
            &&& match existing {
                Some(e) => tf.uuid == e.uuid,
                None => tf.uuid@.len() == 36,
            }
        },
        step matches Some(s) && !(existing matches Some(e) && !totp_step_fresh(s, e.last_used)) ==> r is Ok,
{
    let s = match step {
        Some(s) => s,
        None => return Err(AppError::BadRequest(owned("Invalid TOTP code"))),
    };
    if let Some(e) = existing {
        let last = match e.last_used {
            Some(l) => l,
            None => 0,
        };
        if s <= last {
            return Err(AppError::BadRequest(owned("TOTP code already used")));
        }
    }
    let uuid = match existing {
        Some(e) => e.uuid.clone(),
        None => generate_uuid(),
    };
    Ok(
        TwoFactor {
            uuid,
            user_uuid: owned(user_uuid),
            atype: PROVIDER_TOTP,
            enabled: true,
            data: owned(key),
            last_used: Some(s),
        },
    )
}

/// The code that enabled an authenticator cannot then be used to log in:
/// its step is recorded as used.
pub proof fn law_enabling_code_not_replayable(step: u64, tf: TwoFactor)
    requires
        tf.last_used == Some(step),
    ensures
        !totp_step_fresh(step, tf.last_used),
{
}

/// A user without a recovery code gets one when enabling a second factor.
pub fn needs_recovery_code(user: &User) -> (r: bool)
    ensures
        r == (user.totp_recover is None),
{
    user.totp_recover.is_none()
}

/// Whether a factor other than `disabled_uuid` is still enabled; when none
/// is, the recovery code is cleared.
pub fn other_factor_enabled(remaining: &Vec<TwoFactor>, disabled_uuid: &str) -> (r: bool)
    ensures
        r == exists|i: int|
            0 <= i < remaining@.len() && (#[trigger] remaining@[i]).enabled && remaining@[i].uuid@
                != disabled_uuid@,
{
    let n = remaining.len();
    for i in 0..n
        invariant
            n == remaining@.len(),
            forall|j: int|
                0 <= j < i ==> !((#[trigger] remaining@[j]).enabled && remaining@[j].uuid@
                    != disabled_uuid@),
    {
        if remaining[i].enabled && !str_eq(remaining[i].uuid.as_str(), disabled_uuid) {
            assert(remaining@[i as int].enabled && remaining@[i as int].uuid@ != disabled_uuid@);
            return true;
        }
    }
    false
}

/// A provider to disable must be one the user has.
pub fn require_provider(found: Option<TwoFactor>) -> (r: Result<TwoFactor, AppError>)
    ensures
        match found {
            Some(tf) => r == Ok::<TwoFactor, AppError>(tf),
            None => r matches Err(AppError::NotFound(m)) && m@ == "2FA provider not found"@,
        },
{
    match found {
        Some(tf) => Ok(tf),
        None => Err(AppError::NotFound(owned("2FA provider not found"))),
    }
}

} // verus!
