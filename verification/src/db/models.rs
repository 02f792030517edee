//! Database rows. Booleans are plain `bool` here; the integer encoding D1
//! uses is handled where rows are read.

use vstd::prelude::*;

verus! {

/// A user (the `users` table).
#[derive(Clone, Debug)]
pub struct User {
    pub uuid: String,
    pub email: String,
    pub name: String,
    pub password_hash: String,
    pub salt: String,
    pub password_iterations: u32,
    pub akey: Option<String>,
    pub private_key: Option<String>,
    pub public_key: Option<String>,
    pub security_stamp: String,
    pub client_kdf_type: i32,
    pub client_kdf_iter: i32,
    pub client_kdf_memory: Option<i32>,
    pub client_kdf_parallelism: Option<i32>,
    pub api_key: Option<String>,
    pub avatar_color: Option<String>,
    pub email_verified: bool,
    pub totp_recover: Option<String>,
    pub created_at: String,
    pub updated_at: String,
}

/// A cipher (the `ciphers` table). `data` holds the type-specific JSON blob.
#[derive(Clone, Debug)]
pub struct Cipher {
    pub uuid: String,
    pub user_uuid: Option<String>,
    pub organization_uuid: Option<String>,
    pub atype: i32,
    pub name: String,
    pub notes: Option<String>,
    pub fields: Option<String>,
    pub data: String,
    pub key: Option<String>,
    pub password_history: Option<String>,
    pub reprompt: Option<i32>,
    pub deleted_at: Option<String>,
    pub created_at: String,
    pub updated_at: String,
}

/// A folder (the `folders` table).
#[derive(Clone, Debug)]
pub struct Folder {
    pub uuid: String,
    pub user_uuid: String,
    pub name: String,
    pub created_at: String,
    pub updated_at: String,
}

/// A row of the `favorites` table.
#[derive(Clone, Debug)]
pub struct Favorite {
    pub user_uuid: String,
    pub cipher_uuid: String,
}

/// A row of the `folders_ciphers` table.
#[derive(Clone, Debug)]
pub struct FolderCipher {
    pub cipher_uuid: String,
    pub folder_uuid: String,
}

/// An organization.
#[derive(Clone, Debug)]
pub struct Organization {
    pub uuid: String,
    pub name: String,
    pub billing_email: String,
    pub private_key: Option<String>,
    pub public_key: Option<String>,
}

/// Membership roles (`atype`): Owner, Admin, User, Manager.
pub const ROLE_OWNER: i32 = 0;
pub const ROLE_ADMIN: i32 = 1;
pub const ROLE_USER: i32 = 2;
pub const ROLE_MANAGER: i32 = 3;

/// Membership states (`status`): Invited, Accepted, Confirmed.
pub const STATUS_INVITED: i32 = 0;
pub const STATUS_ACCEPTED: i32 = 1;
pub const STATUS_CONFIRMED: i32 = 2;

/// A user's membership of an organization.
#[derive(Clone, Debug)]
pub struct Membership {
    pub uuid: String,
    pub user_uuid: String,
    pub org_uuid: String,
    pub akey: Option<String>,
    pub atype: i32,
    pub status: i32,
    pub access_all: bool,
    pub external_id: Option<String>,
    pub reset_password_key: Option<String>,
}

/// A collection of an organization.
#[derive(Clone, Debug)]
pub struct Collection {
    pub uuid: String,
    pub org_uuid: String,
    pub name: String,
    pub external_id: Option<String>,
}

/// A row of `users_collections`: a user's grant on a collection.
#[derive(Clone, Debug)]
pub struct UserCollection {
    pub user_uuid: String,
    pub collection_uuid: String,
    pub read_only: bool,
    pub hide_passwords: bool,
    pub manage: bool,
}

/// A row of `ciphers_collections`.
#[derive(Clone, Debug)]
pub struct CipherCollection {
    pub cipher_uuid: String,
    pub collection_uuid: String,
}

/// A device a user logged in from (the `devices` table).
#[derive(Clone, Debug)]
pub struct Device {
    pub uuid: String,
    pub user_uuid: String,
    pub name: String,
    pub atype: i32,
    pub push_uuid: Option<String>,
    pub push_token: Option<String>,
    pub refresh_token: String,
    pub twofactor_remember: Option<String>,
    pub created_at: String,
    pub updated_at: String,
}

/// A Send (the `sends` table). `data` holds the text or file JSON.
#[derive(Clone, Debug)]
pub struct Send {
    pub uuid: String,
    pub user_uuid: Option<String>,
    pub organization_uuid: Option<String>,
    pub atype: i32,
    pub name: String,
    pub notes: Option<String>,
    pub data: String,
    pub akey: String,
    pub password_hash: Option<String>,
    pub password_salt: Option<String>,
    pub password_iter: Option<i32>,
    pub max_access_count: Option<i32>,
    pub access_count: i32,
    pub disabled: bool,
    pub hide_email: bool,
    pub expiration_date: Option<String>,
    pub deletion_date: String,
    pub created_at: String,
    pub updated_at: String,
}

/// A configured second factor (the `two_factor` table). For the
/// authenticator (`atype` 0) `data` holds the base32 secret and `last_used`
/// the last accepted time step.
#[derive(Clone, Debug)]
pub struct TwoFactor {
    pub uuid: String,
    pub user_uuid: String,
    pub atype: i32,
    pub enabled: bool,
    pub data: String,
    pub last_used: Option<u64>,
}

/// A cipher attachment.
#[derive(Clone, Debug)]
pub struct Attachment {
    pub id: String,
    pub cipher_uuid: String,
    pub file_name: Option<String>,
    pub file_size: Option<i64>,
    pub akey: Option<String>,
}

/// A user's equivalent-domain settings, both stored as JSON text.
#[derive(Clone, Debug)]
pub struct EquivalentDomain {
    pub uuid: String,
    pub user_uuid: String,
    pub global_equiv_domains: Option<String>,
    pub custom_equiv_domains: Option<String>,
}

/// An organization policy; `data` is its JSON configuration.
#[derive(Clone, Debug)]
pub struct OrgPolicy {
    pub uuid: String,
    pub org_uuid: String,
    pub atype: i32,
    pub enabled: bool,
    pub data: Option<String>,
}

/// An audit event.
#[derive(Clone, Debug)]
pub struct Event {
    pub uuid: String,
    pub event_type: i32,
    pub user_uuid: Option<String>,
    pub org_uuid: Option<String>,
    pub cipher_uuid: Option<String>,
    pub collection_uuid: Option<String>,
    pub group_uuid: Option<String>,
    pub member_uuid: Option<String>,
    pub act_user_uuid: Option<String>,
    pub device_type: Option<i32>,
    pub ip_address: Option<String>,
    pub event_date: String,
}

} // verus!
