//! Server-side cryptographic helpers: TOTP and base32, random bytes, and the
//! Bitwarden CipherString encryption used when provisioning accounts.

pub mod account_keys;
pub mod cipherstring;
pub mod master_key;
pub mod random;
pub mod totp;

use vstd::prelude::*;

verus! {

/// PBKDF2 iterations the server applies on top of the client's master
/// password hash before storing it.
pub const SERVER_PASSWORD_ITERATIONS: u32 = 600000;

/// KDF iterations assumed for an account that registered without naming any.
pub const DEFAULT_CLIENT_KDF_ITERATIONS: i32 = 600000;

} // verus!
