//! Account, login and profile shapes of the API.

use vstd::prelude::*;

verus! {

/// The caller's profile. `organizations` and `providers` hold JSON text.
pub struct ProfileResponse {
    pub id: String,
    pub name: String,
    pub email: String,
    pub email_verified: bool,
    pub premium: bool,
    pub master_password_hint: Option<String>,
    pub culture: String,
    pub two_factor_enabled: bool,
    pub key: String,
    pub private_key: Option<String>,
    pub security_stamp: String,
    pub organizations: Vec<String>,
    pub providers: Vec<String>,
    pub force_password_reset: bool,
    pub avatar_color: Option<String>,
    pub object: String,
}

/// `POST /identity/accounts/prelogin`.
pub struct PreloginRequest {
    pub email: String,
}

/// The KDF parameters a client derives the master key with.
pub struct PreloginResponse {
    pub kdf: i32,
    pub kdf_iterations: i32,
    pub kdf_memory: Option<i32>,
    pub kdf_parallelism: Option<i32>,
}

/// Registration, by `/register` or `/register/finish`.
pub struct RegisterRequest {
    pub name: Option<String>,
    pub email: String,
    pub master_password_hash: String,
    pub master_password_hint: Option<String>,
    pub key: Option<String>,
    pub kdf: Option<i32>,
    pub kdf_iterations: Option<i32>,
    pub kdf_memory: Option<i32>,
    pub kdf_parallelism: Option<i32>,
    pub keys: Option<KeysRequest>,
    /// Present only on `/register/finish`.
    pub email_verification_token: Option<String>,
}

/// `/identity/accounts/register/send-verification-email`.
pub struct RegisterVerificationRequest {
    pub email: String,
    pub name: Option<String>,
}

/// A user's key pair, the private half encrypted by the client.
pub struct KeysRequest {
    pub public_key: String,
    pub encrypted_private_key: String,
}

/// The form of `/identity/connect/token`.
pub struct TokenRequest {
    pub grant_type: String,
    pub username: Option<String>,
    pub password: Option<String>,
    pub scope: Option<String>,
    pub client_id: Option<String>,
    pub device_type: Option<i32>,
    pub device_identifier: Option<String>,
    pub device_name: Option<String>,
    pub refresh_token: Option<String>,
    pub two_factor_token: Option<String>,
    pub two_factor_provider: Option<i32>,
    pub two_factor_remember: Option<i32>,
}

/// The answer to a successful login or token refresh.
pub struct LoginResponse {
    pub access_token: String,
    pub expires_in: i64,
    pub token_type: String,
    pub refresh_token: String,
    pub key: Option<String>,
    pub private_key: Option<String>,
    pub kdf: i32,
    pub kdf_iterations: i32,
    pub kdf_memory: Option<i32>,
    pub kdf_parallelism: Option<i32>,
    pub unofficial_server: bool,
    pub user_decryption_options: UserDecryptionOptions,
    /// Present only when the account has both halves of its key pair.
    pub account_keys: Option<AccountKeys>,
    pub two_factor_token: Option<String>,
}

pub struct UserDecryptionOptions {
    pub has_master_password: bool,
    pub master_password_unlock: Option<MasterPasswordUnlock>,
    pub object: &'static str,
}

/// How a client unlocks the vault with the master password.
pub struct MasterPasswordUnlock {
    pub kdf: MasterPasswordUnlockKdf,
    pub master_key_encrypted_user_key: String,
    pub master_key_wrapped_user_key: String,
    /// The master key is derived with the email as salt.
    pub salt: String,
}

pub struct MasterPasswordUnlockKdf {
    pub kdf_type: i32,
    pub iterations: i32,
    pub memory: Option<i32>,
    pub parallelism: Option<i32>,
}

pub struct AccountKeys {
    pub public_key_encryption_key_pair: PublicKeyEncryptionKeyPair,
    pub object: &'static str,
}

pub struct PublicKeyEncryptionKeyPair {
    pub wrapped_private_key: String,
    pub public_key: String,
    pub object: &'static str,
}

pub struct UpdateProfileRequest {
    pub name: Option<String>,
    pub master_password_hint: Option<String>,
}

pub struct ChangePasswordRequest {
    pub master_password_hash: String,
    pub new_master_password_hash: String,
    pub master_password_hint: Option<String>,
    pub key: String,
}

pub struct ChangeKdfRequest {
    pub master_password_hash: String,
    pub new_master_password_hash: String,
    pub key: String,
    pub kdf: i32,
    pub kdf_iterations: i32,
    pub kdf_memory: Option<i32>,
    pub kdf_parallelism: Option<i32>,
}

pub struct UpdateKeysRequest {
    pub master_password_hash: String,
    pub key: String,
    pub private_key: String,
}

pub struct VerifyPasswordRequest {
    pub master_password_hash: String,
}

pub struct SecurityStampRequest {
    pub master_password_hash: String,
}

pub struct ApiKeyRequest {
    pub master_password_hash: String,
}

pub struct DeleteAccountRequest {
    pub master_password_hash: String,
}

pub struct ApiKeyResponse {
    pub api_key: String,
    pub object: String,
}

} // verus!
