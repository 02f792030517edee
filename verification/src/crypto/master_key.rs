//! The master key of an account, stretched from its email and master
//! password with PBKDF2-SHA256 as Bitwarden clients do (rbw's `Identity`),
//! and the master password hash that proves the password to the server.

use vstd::prelude::*;
use vstd::utf8::encode_utf8;
use crate::text::concat;
use crate::util::{base64_encode, base64_text};

verus! {

/// What `rbw::identity::Identity::new(email, password, KdfType::Pbkdf2,
/// iterations, None, None)` derives: the master password hash, and the
/// encryption and MAC halves of the stretched master key.
pub uninterp spec fn pbkdf2_identity(email: Seq<char>, password: Seq<char>, iterations: u32) -> (
    Seq<u8>,
    Seq<u8>,
    Seq<u8>,
);

/// `rbw::identity::Identity::new` with PBKDF2: its master password hash and
/// its two master keys, each 32 bytes. It fails exactly for zero
/// iterations, with rbw's message. The password goes into rbw's locked
/// buffer of 4096 bytes, which a longer password would overflow. rbw locks
/// that buffer's memory where the platform allows it; nothing is said of a
/// platform that allows it once and then refuses.
#[verifier::external_body]
fn rbw_pbkdf2_identity(email: &str, password: &str, iterations: u32) -> (r: Result<
    (Vec<u8>, Vec<u8>, Vec<u8>),
    String,
>)
    requires
        encode_utf8(password@).len() <= 4096,
    ensures
        iterations == 0 <==> r is Err,
        r matches Err(m) ==> m@ == "pbkdf2 requires at least 1 iteration (got 0)"@,
        r matches Ok((h, e, m)) ==> (h@, e@, m@) == pbkdf2_identity(email@, password@, iterations),
        r matches Ok((h, e, m)) ==> h@.len() == 32 && e@.len() == 32 && m@.len() == 32,
{
    let mut buf = rbw::locked::Vec::new();
    buf.extend(password.as_bytes().iter().copied());
    let pw = rbw::locked::Password::new(buf);
    match rbw::identity::Identity::new(email, &pw, rbw::api::KdfType::Pbkdf2, iterations, None, None) {
        Ok(id) => Ok((id.master_password_hash.hash().to_vec(), id.keys.enc_key().to_vec(), id.keys.mac_key().to_vec())),
        Err(e) => Err(e.to_string()),
    }
}

/// What the command line derives from an account's email and master
/// password: the master password hash in standard base64, as the server
/// expects it, and the master key that protects the account's key.
pub struct MasterCredentials {
    pub password_hash: String,
    pub enc_key: Vec<u8>,
    pub mac_key: Vec<u8>,
}

/// The master credentials for PBKDF2 with `kdf_iterations` iterations;
/// zero iterations are refused.
pub fn master_credentials(email: &str, password: &str, kdf_iterations: u32) -> (r: Result<MasterCredentials, String>)
    requires
        encode_utf8(password@).len() <= 4096,
    ensures
        kdf_iterations == 0 <==> r is Err,
        r matches Err(m) ==> m@ == "identity derivation: pbkdf2 requires at least 1 iteration (got 0)"@,
        r matches Ok(c) ==> {
            let id = pbkdf2_identity(email@, password@, kdf_iterations);
            &&& c.password_hash@ == base64_text(id.0)
            &&& c.enc_key@ == id.1 && c.mac_key@ == id.2
            &&& c.enc_key@.len() == 32 && c.mac_key@.len() == 32
        },
{
    match rbw_pbkdf2_identity(email, password, kdf_iterations) {
        Ok((hash, enc_key, mac_key)) => Ok(
            MasterCredentials { password_hash: base64_encode(hash.as_slice()), enc_key, mac_key },
        ),
        Err(m) => {
            proof {
                reveal_strlit("identity derivation: ");
                reveal_strlit("pbkdf2 requires at least 1 iteration (got 0)");
                reveal_strlit("identity derivation: pbkdf2 requires at least 1 iteration (got 0)");
            }
            let r = concat("identity derivation: ", m.as_str());
            assert(r@ =~= "identity derivation: pbkdf2 requires at least 1 iteration (got 0)"@);
            Err(r)
        },
    }
}

} // verus!
