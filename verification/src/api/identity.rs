//! Registration and the OAuth token endpoint: emails, grants, second
//! factors, devices and the login response.

use vstd::prelude::*;
use vstd::utf8::encode_utf8;
use crate::auth::jwt::ACCESS_TOKEN_EXPIRY;
use crate::crypto::totp::constant_time_eq;
use crate::crypto::{DEFAULT_CLIENT_KDF_ITERATIONS, SERVER_PASSWORD_ITERATIONS};
use crate::db::models::{Device, TwoFactor, User};
use crate::error::AppError;
use crate::models::send::opt_view;
use crate::models::user::{
    AccountKeys, LoginResponse, MasterPasswordUnlock, MasterPasswordUnlockKdf,
    PublicKeyEncryptionKeyPair, RegisterRequest, UserDecryptionOptions,
};
use crate::text::{
    contains_char, lowercase_of, owned, remove_char, str_eq, to_lowercase, to_uppercase, trim,
    trimmed, uppercase_of, without_char,
};
use crate::util::{base64_encode, base64_text};

verus! {

// --- emails ---

/// An email as accounts are keyed by it: trimmed and lowercased.
pub open spec fn normalized_email(raw: Seq<char>) -> Seq<char> {
    lowercase_of(trimmed(raw))
}

/// A normalized email is accepted when it has an `@` and at least five
/// bytes of UTF-8.
pub open spec fn acceptable_email(email: Seq<char>) -> bool {
    email.contains('@') && encode_utf8(email).len() >= 5
}

/// Trim and lowercase an email, and reject one that cannot be an address.
pub fn normalize_email(raw: &str) -> (r: Result<String, AppError>)
    ensures
        acceptable_email(normalized_email(raw@)) ==> (r matches Ok(e) && e@ == normalized_email(
            raw@,
        )),
        !acceptable_email(normalized_email(raw@)) ==> (r matches Err(AppError::BadRequest(m))
            && m@ == "Invalid email address"@),
{
    let t = trim(raw);
    let email = to_lowercase(t.as_str());
    if !contains_char(email.as_str(), '@') || email.as_str().as_bytes().len() < 5 {
        return Err(AppError::BadRequest(owned("Invalid email address")));
    }
    Ok(email)
}

// --- the token endpoint ---

/// `e` is the OAuth `invalid_grant` error (status 400, no second-factor
/// providers) with `description`.
pub open spec fn is_invalid_grant(e: AppError, description: Seq<char>) -> bool {
    e matches AppError::OAuth { error, error_description, status, two_factor_providers }
        && error@ == "invalid_grant"@ && error_description@ == description && status == 400
        && two_factor_providers is None
}

/// The OAuth `invalid_grant` error (status 400) with a description.
pub fn oauth_invalid_grant(description: &str) -> (r: AppError)
    ensures
        is_invalid_grant(r, description@),
{
    AppError::OAuth {
        error: owned("invalid_grant"),
        error_description: owned(description),
        status: 400,
        two_factor_providers: None,
    }
}

/// The grants the token endpoint serves.
#[derive(PartialEq, Eq, Structural)]
pub enum Grant {
    Password,
    RefreshToken,
}

/// Which grant a `grant_type` asks for.
pub fn grant_of(grant_type: &str) -> (r: Result<Grant, AppError>)
    ensures
        grant_type@ == "password"@ ==> r == Ok::<Grant, AppError>(Grant::Password),
        grant_type@ == "refresh_token"@ ==> r == Ok::<Grant, AppError>(Grant::RefreshToken),
        grant_type@ != "password"@ && grant_type@ != "refresh_token"@ ==> (r matches Err(
            AppError::OAuth { error, error_description, status, two_factor_providers },
        ) && error@ == "unsupported_grant_type"@ && error_description@ == "Unsupported grant type"@
            && status == 400 && two_factor_providers is None),
{
    proof {
        reveal_strlit("password");
        reveal_strlit("refresh_token");
        assert("password"@.len() != "refresh_token"@.len());
    }
    if str_eq(grant_type, "password") {
        Ok(Grant::Password)
    } else if str_eq(grant_type, "refresh_token") {
        Ok(Grant::RefreshToken)
    } else {
        Err(
            AppError::OAuth {
                error: owned("unsupported_grant_type"),
                error_description: owned("Unsupported grant type"),
                status: 400,
                two_factor_providers: None,
            },
        )
    }
}

/// The email a password grant logs in with: its `username`, normalized.
pub fn login_email(username: Option<&str>) -> (r: Result<String, AppError>)
    ensures
        match username {
            Some(u) => r matches Ok(e) && e@ == normalized_email(u@),
            None => r matches Err(e) && is_invalid_grant(e, "Username is required"@),
        },
{
    match username {
        Some(u) => {
            let t = trim(u);
            Ok(to_lowercase(t.as_str()))
        },
        None => Err(oauth_invalid_grant("Username is required")),
    }
}

/// The user a password grant logs in as: the user found under the email,
/// when the password checked out. An unknown email and a wrong password get
/// one and the same answer, so that the answer does not tell which it was.
pub fn check_credentials(found: Option<User>, password_valid: bool) -> (r: Result<User, AppError>)
    ensures
        match found {
            Some(u) if password_valid => r == Ok::<User, AppError>(u),
            _ => r matches Err(e) && is_invalid_grant(e, "invalid_username_or_password"@),
        },
{
    match found {
        Some(u) => if password_valid {
            Ok(u)
        } else {
            Err(oauth_invalid_grant("invalid_username_or_password"))
        },
        None => Err(oauth_invalid_grant("invalid_username_or_password")),
    }
}

/// The providers of a user's second factors, in order.
pub open spec fn providers_of(two_factors: Seq<TwoFactor>) -> Seq<i32> {
    two_factors.map_values(|t: TwoFactor| t.atype)
}

/// The provider number of TOTP and of recovery codes.
pub const PROVIDER_TOTP: i32 = 0;
pub const PROVIDER_RECOVERY_CODE: i32 = 8;

/// How the second factor of a password grant is checked.
pub enum SecondFactor {
    /// The user has no second factor.
    NotConfigured,
    /// A TOTP code, against the user's TOTP entry at this index.
    Totp(usize),
    /// A recovery code.
    RecoveryCode,
}

/// The first index of a TOTP entry.
pub open spec fn first_totp(two_factors: Seq<TwoFactor>) -> Option<int> {
    if exists|i: int| 0 <= i < two_factors.len() && (#[trigger] two_factors[i]).atype == PROVIDER_TOTP {
        Some(
            choose|i: int|
                0 <= i < two_factors.len() && (#[trigger] two_factors[i]).atype == PROVIDER_TOTP && forall|
                    j: int,
                | 0 <= j < i ==> two_factors[j].atype != PROVIDER_TOTP,
        )
    } else {
        None
    }
}

/// The error that asks the client for a second factor, listing the
/// providers the user has.
pub open spec fn asks_second_factor(e: AppError, two_factors: Seq<TwoFactor>) -> bool {
    match e {
        AppError::OAuth { error, error_description, status, two_factor_providers } => {
            &&& error@ == "invalid_grant"@
            &&& error_description@ == "Two factor required."@
            &&& status == 400
            &&& two_factor_providers matches Some(p) && p@ == providers_of(two_factors)
        },
        _ => false,
    }
}

/// Decide how a password grant's second factor is checked. Without second
/// factors there is nothing to check; with them the form must name a
/// provider and a token, else the client is asked for one.
pub fn second_factor_plan(
    two_factors: &Vec<TwoFactor>,
    provider: Option<i32>,
    token: Option<&str>,
) -> (r: Result<SecondFactor, AppError>)
    ensures
        two_factors@.len() == 0 ==> (r matches Ok(SecondFactor::NotConfigured)),
        two_factors@.len() > 0 && (provider is None || token is None) ==> (r matches Err(e)
            && asks_second_factor(e, two_factors@)),
        two_factors@.len() > 0 && provider == Some(PROVIDER_TOTP) && token is Some ==> match first_totp(
            two_factors@,
        ) {
            Some(i) => r matches Ok(SecondFactor::Totp(k)) && k == i,
            None => r matches Err(e) && is_invalid_grant(e, "TOTP not configured"@),
        },
        two_factors@.len() > 0 && provider == Some(PROVIDER_RECOVERY_CODE) && token is Some ==> (r matches Ok(
            SecondFactor::RecoveryCode,
        )),
        two_factors@.len() > 0 && (provider matches Some(p) && p != PROVIDER_TOTP && p
            != PROVIDER_RECOVERY_CODE) && token is Some ==> (r matches Err(e) && is_invalid_grant(
            e,
            "Unsupported 2FA provider"@,
        )),
{
    if two_factors.len() == 0 {
        return Ok(SecondFactor::NotConfigured);
    }
    match (provider, token) {
        (Some(p), Some(_)) => {
            if p == PROVIDER_TOTP {
                let n = two_factors.len();
                for i in 0..n
                    invariant
                        n == two_factors@.len(),
                        n > 0,
                        provider == Some(PROVIDER_TOTP),
                        token is Some,
                        forall|j: int| 0 <= j < i ==> two_factors@[j].atype != PROVIDER_TOTP,
                {
                    if two_factors[i].atype == PROVIDER_TOTP {
                        proof {
                            let w = i as int;
                            assert(two_factors@[w].atype == PROVIDER_TOTP);
                            let c = choose|c: int|
                                0 <= c < two_factors@.len() && (#[trigger] two_factors@[c]).atype
                                    == PROVIDER_TOTP && forall|j: int|
                                    0 <= j < c ==> two_factors@[j].atype != PROVIDER_TOTP;
                            assert(c == w);
                        }
                        return Ok(SecondFactor::Totp(i));
                    }
                }
                Err(oauth_invalid_grant("TOTP not configured"))
            } else if p == PROVIDER_RECOVERY_CODE {
                Ok(SecondFactor::RecoveryCode)
            } else {
                Err(oauth_invalid_grant("Unsupported 2FA provider"))
            }
        },
        _ => {
            let mut providers: Vec<i32> = Vec::new();
            let n = two_factors.len();
            for i in 0..n
                invariant
                    n == two_factors@.len(),
                    providers@ == providers_of(two_factors@.subrange(0, i as int)),
            {
                providers.push(two_factors[i].atype);
                assert(providers_of(two_factors@.subrange(0, i + 1)) =~= providers_of(
                    two_factors@.subrange(0, i as int),
                ).push(two_factors@[i as int].atype));
            }
            assert(two_factors@.subrange(0, n as int) =~= two_factors@);
            Err(
                AppError::OAuth {
                    error: owned("invalid_grant"),
                    error_description: owned("Two factor required."),
                    status: 400,
                    two_factor_providers: Some(providers),
                },
            )
        },
    }
}

/// A time step is fresh when it is later than the last one used (none
/// used counts as step 0).
pub open spec fn totp_step_fresh(step: u64, last_used: Option<u64>) -> bool {
    step > match last_used {
        Some(l) => l,
        None => 0,
    }
}

/// A TOTP code is accepted when it matched a window and that window's time
/// step is later than the last step used, so that no code is used twice.
/// Returns the step to record.
pub fn check_totp_step(step: Option<u64>, last_used: Option<u64>) -> (r: Result<u64, AppError>)
    ensures
        match step {
            None => r matches Err(e) && is_invalid_grant(e, "Invalid TOTP code"@),
            Some(s) => if !totp_step_fresh(s, last_used) {
                r matches Err(e) && is_invalid_grant(e, "TOTP code already used"@)
            } else {
                r == Ok::<u64, AppError>(s)
            },
        },
{
    let s = match step {
        Some(s) => s,
        None => return Err(oauth_invalid_grant("Invalid TOTP code")),
    };
    let last = match last_used {
        Some(l) => l,
        None => 0,
    };
    if s <= last {
        return Err(oauth_invalid_grant("TOTP code already used"));
    }
    Ok(s)
}

/// A recovery code as compared: spaces removed, uppercased.
pub open spec fn normalized_recovery_code(code: Seq<char>) -> Seq<char> {
    uppercase_of(without_char(code, ' '))
}

/// A submitted recovery code is accepted when, normalized, it is not empty
/// and has the same bytes as the stored one, normalized (an absent stored
/// code counts as empty, so it accepts nothing).
pub open spec fn recovery_code_accepted(token: Seq<char>, stored: Option<Seq<char>>) -> bool {
    let t = normalized_recovery_code(token);
    let s = normalized_recovery_code(
        match stored {
            Some(s) => s,
            None => Seq::empty(),
        },
    );
    t.len() > 0 && s.len() > 0 && encode_utf8(t) == encode_utf8(s)
}

/// Check a recovery code against the stored one.
pub fn check_recovery_code(token: &str, stored: Option<&str>) -> (r: Result<(), AppError>)
    ensures
        r is Ok <==> recovery_code_accepted(
            token@,
            match stored {
                Some(s) => Some(s@),
                None => None,
            },
        ),
        r is Err ==> (r matches Err(e) && is_invalid_grant(e, "Invalid recovery code"@)),
{
    let stored_text = match stored {
        Some(s) => s,
        None => "",
    };
    proof {
        if stored is None {
            reveal_strlit("");
            assert(stored_text@ =~= Seq::<char>::empty());
        }
    }
    let t0 = remove_char(token, ' ');
    let token_norm = to_uppercase(t0.as_str());
    let s0 = remove_char(stored_text, ' ');
    let stored_norm = to_uppercase(s0.as_str());
    assert(token_norm@ == normalized_recovery_code(token@));
    assert(stored_norm@ == normalized_recovery_code(
        match stored {
            Some(s) => s@,
            None => Seq::empty(),
        },
    ));
    if stored_norm.as_str().unicode_len() == 0 || token_norm.as_str().unicode_len() == 0 {
        return Err(oauth_invalid_grant("Invalid recovery code"));
    }
    if !constant_time_eq(token_norm.as_str().as_bytes(), stored_norm.as_str().as_bytes()) {
        return Err(oauth_invalid_grant("Invalid recovery code"));
    }
    Ok(())
}

// --- devices ---

/// The device id a login is recorded under: the client's identifier when it
/// sent a non-empty one that is not already another user's device, else
/// the fresh id `fresh`, so that a login never takes over another user's
/// device. `existing` is the device stored under the client's identifier.
pub fn choose_device_uuid(
    requested: Option<&str>,
    existing: Option<&Device>,
    user_uuid: &str,
    fresh: String,
) -> (r: String)
    ensures
        match requested {
            Some(id) if id@.len() > 0 && !(existing matches Some(d) && d.user_uuid@ != user_uuid@) =>
                r@ == id@,
            _ => r == fresh,
        },
{
    match requested {
        Some(id) => if id.unicode_len() > 0 {
            match existing {
                Some(d) => if str_eq(d.user_uuid.as_str(), user_uuid) {
                    owned(id)
                } else {
                    fresh
                },
                None => owned(id),
            }
        } else {
            fresh
        },
        None => fresh,
    }
}

/// The device row a login writes. An unnamed device is called "Unknown";
/// an untyped one has type 0.
pub fn login_device(
    uuid: String,
    user_uuid: &str,
    name: Option<String>,
    device_type: Option<i32>,
    refresh_token: String,
    now: String,
) -> (r: Device)
    ensures
        r.uuid == uuid,
        r.user_uuid@ == user_uuid@,
        match name {
            Some(n) => r.name == n,
            None => r.name@ == "Unknown"@,
        },
        r.atype == match device_type {
            Some(t) => t,
            None => 0,
        },
        r.push_uuid is None && r.push_token is None && r.twofactor_remember is None,
        r.refresh_token == refresh_token,
        r.created_at == now && r.updated_at == now,
{
    Device {
        uuid,
        user_uuid: owned(user_uuid),
        name: match name {
            Some(n) => n,
            None => owned("Unknown"),
        },
        atype: match device_type {
            Some(t) => t,
            None => 0,
        },
        push_uuid: None,
        push_token: None,
        refresh_token,
        twofactor_remember: None,
        created_at: now.clone(),
        updated_at: now,
    }
}

/// A refresh token is honoured only while it is the one stored for its
/// device: each refresh replaces it, so an older token is revoked.
pub fn check_refresh_device(device: Option<&Device>, presented: &str) -> (r: Result<(), AppError>)
    ensures
        device is None ==> (r matches Err(e) && is_invalid_grant(e, "Device not found"@)),
        device matches Some(d) && d.refresh_token@ != presented@ ==> (r matches Err(e)
            && is_invalid_grant(e, "Refresh token revoked"@)),
        device matches Some(d) && d.refresh_token@ == presented@ ==> r is Ok,
{
    match device {
        None => Err(oauth_invalid_grant("Device not found")),
        Some(d) => if str_eq(d.refresh_token.as_str(), presented) {
            Ok(())
        } else {
            Err(oauth_invalid_grant("Refresh token revoked"))
        },
    }
}

// --- registration ---

/// The user row a registration creates. The server stores PBKDF2 of the
/// client's master password hash (`password_hash`, with `salt`), both
/// base64-encoded; KDF settings the client leaves out default to PBKDF2
/// with 600000 iterations.
pub fn new_user(
    uuid: String,
    email: &str,
    name: String,
    email_verified: bool,
    body: &RegisterRequest,
    password_hash: &[u8],
    salt: &[u8],
    security_stamp: String,
    now: String,
) -> (r: User)
    ensures
        r.uuid == uuid,
        r.email@ == email@,
        r.name == name,
        r.password_hash@ == base64_text(password_hash@),
        r.salt@ == base64_text(salt@),
        r.password_iterations == SERVER_PASSWORD_ITERATIONS,
        opt_view(r.akey) == opt_view(body.key),
        match body.keys {
            Some(k) => (r.private_key matches Some(p) && p@ == k.encrypted_private_key@) && (
            r.public_key matches Some(q) && q@ == k.public_key@),
            None => r.private_key is None && r.public_key is None,
        },
        r.security_stamp == security_stamp,
        r.client_kdf_type == match body.kdf {
            Some(k) => k,
            None => 0,
        },
        r.client_kdf_iter == match body.kdf_iterations {
            Some(k) => k,
            None => DEFAULT_CLIENT_KDF_ITERATIONS,
        },
        r.client_kdf_memory == body.kdf_memory,
        r.client_kdf_parallelism == body.kdf_parallelism,
        r.api_key is None && r.avatar_color is None && r.totp_recover is None,
        r.email_verified == email_verified,
        r.created_at == now && r.updated_at == now,
{
    let (private_key, public_key) = match &body.keys {
        Some(k) => (Some(k.encrypted_private_key.clone()), Some(k.public_key.clone())),
        None => (None, None),
    };
    User {
        uuid,
        email: owned(email),
        name,
        password_hash: base64_encode(password_hash),
        salt: base64_encode(salt),
        password_iterations: SERVER_PASSWORD_ITERATIONS,
        akey: match &body.key {
            Some(k) => Some(k.clone()),
            None => None,
        },
        private_key,
        public_key,
        security_stamp,
        client_kdf_type: match body.kdf {
            Some(k) => k,
            None => 0,
        },
        client_kdf_iter: match body.kdf_iterations {
            Some(k) => k,
            None => DEFAULT_CLIENT_KDF_ITERATIONS,
        },
        client_kdf_memory: body.kdf_memory,
        client_kdf_parallelism: body.kdf_parallelism,
        api_key: None,
        avatar_color: None,
        email_verified,
        totp_recover: None,
        created_at: now.clone(),
        updated_at: now,
    }
}

/// `/register/finish` only proceeds when the verification token was issued
/// for the email being registered.
pub fn check_verified_email(token_subject: &str, email: &str) -> (r: Result<(), AppError>)
    ensures
        token_subject@ == email@ <==> r is Ok,
        r is Err ==> (r matches Err(AppError::BadRequest(m)) && m@
            == "Email verification token does not match email"@),
{
    if !str_eq(token_subject, email) {
        return Err(AppError::BadRequest(owned("Email verification token does not match email")));
    }
    Ok(())
}

// --- the login response ---

/// The login response: the two tokens, the account's key material and KDF
/// settings, how to unlock with the master password (when the account has
/// a user key) and the account's key pair (when it has both halves).
pub fn build_login_response(access_token: String, refresh_token: String, user: &User) -> (r:
    LoginResponse)
    ensures
        r.access_token == access_token,
        r.refresh_token == refresh_token,
        r.expires_in == ACCESS_TOKEN_EXPIRY,
        r.token_type@ == "Bearer"@,
        opt_view(r.key) == opt_view(user.akey),
        opt_view(r.private_key) == opt_view(user.private_key),
        r.kdf == user.client_kdf_type,
        r.kdf_iterations == user.client_kdf_iter,
        r.kdf_memory == user.client_kdf_memory,
        r.kdf_parallelism == user.client_kdf_parallelism,
        r.unofficial_server,
        r.two_factor_token is None,
        r.user_decryption_options.has_master_password,
        r.user_decryption_options.object@ == "userDecryptionOptions"@,
        match user.akey {
            Some(k) => r.user_decryption_options.master_password_unlock matches Some(u) && u.kdf.kdf_type
                == user.client_kdf_type && u.kdf.iterations == user.client_kdf_iter && u.kdf.memory
                == user.client_kdf_memory && u.kdf.parallelism == user.client_kdf_parallelism
                && u.master_key_encrypted_user_key@ == k@ && u.master_key_wrapped_user_key@ == k@
                && u.salt@ == user.email@,
            None => r.user_decryption_options.master_password_unlock is None,
        },
        match (user.private_key, user.public_key) {
            (Some(p), Some(q)) => r.account_keys matches Some(a)
                && a.public_key_encryption_key_pair.wrapped_private_key@ == p@
                && a.public_key_encryption_key_pair.public_key@ == q@
                && a.public_key_encryption_key_pair.object@ == "publicKeyEncryptionKeyPair"@
                && a.object@ == "privateKeys"@,
            _ => r.account_keys is None,
        },
{
    proof {
        reveal_strlit("userDecryptionOptions");
        reveal_strlit("publicKeyEncryptionKeyPair");
        reveal_strlit("privateKeys");
    }
    let master_password_unlock = match &user.akey {
        Some(akey) => Some(
            MasterPasswordUnlock {
                kdf: MasterPasswordUnlockKdf {
                    kdf_type: user.client_kdf_type,
                    iterations: user.client_kdf_iter,
                    memory: user.client_kdf_memory,
                    parallelism: user.client_kdf_parallelism,
                },
                master_key_encrypted_user_key: akey.clone(),
                master_key_wrapped_user_key: akey.clone(),
                salt: user.email.clone(),
            },
        ),
        None => None,
    };
    let account_keys = match (&user.private_key, &user.public_key) {
        (Some(private_key), Some(public_key)) => Some(
            AccountKeys {
                public_key_encryption_key_pair: PublicKeyEncryptionKeyPair {
                    wrapped_private_key: private_key.clone(),
                    public_key: public_key.clone(),
                    object: "publicKeyEncryptionKeyPair",
                },
                object: "privateKeys",
            },
        ),
        _ => None,
    };
    LoginResponse {
        access_token,
        expires_in: ACCESS_TOKEN_EXPIRY,
        token_type: owned("Bearer"),
        refresh_token,
        key: match &user.akey {
            Some(k) => Some(k.clone()),
            None => None,
        },
        private_key: match &user.private_key {
            Some(k) => Some(k.clone()),
            None => None,
        },
        kdf: user.client_kdf_type,
        kdf_iterations: user.client_kdf_iter,
        kdf_memory: user.client_kdf_memory,
        kdf_parallelism: user.client_kdf_parallelism,
        unofficial_server: true,
        user_decryption_options: UserDecryptionOptions {
            has_master_password: true,
            master_password_unlock,
            object: "userDecryptionOptions",
        },
        account_keys,
        two_factor_token: None,
    }
}

} // verus!
