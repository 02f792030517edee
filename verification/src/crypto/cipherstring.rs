//! Bitwarden CipherString type 2: AES-256-CBC with PKCS#7 padding and a
//! random IV, authenticated by HMAC-SHA256 over IV and ciphertext, written
//! as `2.{iv}|{ciphertext}|{mac}` in standard base64.

use vstd::prelude::*;
use aes::cipher::{BlockEncryptMut, KeyIvInit};
use hmac::Mac;
use crate::crypto::random::{describe_random_failure, is_random_failure_text, random_bytes};
use crate::digits::decimal;
use crate::error::AppError;
use crate::text::{concat, push_char, push_decimal};
use crate::util::{base64_encode, base64_text};

verus! {

/// What `cbc::Encryptor::<aes::Aes256>` with PKCS#7 padding makes of `data`
/// under `key` and `iv`.
pub uninterp spec fn aes256_cbc_pkcs7(key: Seq<u8>, iv: Seq<u8>, data: Seq<u8>) -> Seq<u8>;

/// The HMAC-SHA256 tag of `message` under `key`.
pub uninterp spec fn hmac_sha256(key: Seq<u8>, message: Seq<u8>) -> Seq<u8>;

/// `cbc::Encryptor::<aes::Aes256>::new(key, iv).encrypt_padded_vec_mut::<Pkcs7>(data)`.
/// PKCS#7 always pads, to the next multiple of the 16-byte block.
#[verifier::external_body]
fn aes256_cbc_encrypt(key: &[u8], iv: &[u8], data: &[u8]) -> (r: Vec<u8>)
    requires
        key@.len() == 32,
        iv@.len() == 16,
    ensures
        r@ == aes256_cbc_pkcs7(key@, iv@, data@),
        r@.len() == (data@.len() / 16 + 1) * 16,
{
    cbc::Encryptor::<aes::Aes256>::new(key.into(), iv.into())
        .encrypt_padded_vec_mut::<aes::cipher::block_padding::Pkcs7>(data)
}

/// `Hmac::<Sha256>::new_from_slice(key)`, fed `message`, finalized. HMAC
/// takes keys of any length; the tag is 32 bytes.
#[verifier::external_body]
fn hmac_sha256_tag(key: &[u8], message: &[u8]) -> (r: Vec<u8>)
    ensures
        r@ == hmac_sha256(key@, message@),
        r@.len() == 32,
{
    match <hmac::Hmac<sha2::Sha256> as Mac>::new_from_slice(key) {
        Ok(mut mac) => {
            mac.update(message);
            mac.finalize().into_bytes().to_vec()
        },
        Err(_) => Vec::new(),
    }
}

/// The text of a type-2 CipherString.
pub open spec fn cipherstring_text(iv: Seq<u8>, ct: Seq<u8>, mac: Seq<u8>) -> Seq<char> {
    "2."@ + base64_text(iv) + "|"@ + base64_text(ct) + "|"@ + base64_text(mac)
}

/// The type-2 CipherString of `data` under the two keys with IV `iv`.
pub open spec fn cipherstring_of(enc_key: Seq<u8>, mac_key: Seq<u8>, iv: Seq<u8>, data: Seq<u8>) -> Seq<char> {
    let ct = aes256_cbc_pkcs7(enc_key, iv, data);
    cipherstring_text(iv, ct, hmac_sha256(mac_key, iv + ct))
}

/// Write the three parts in CipherString form.
pub fn format_cipherstring(iv: &[u8], ct: &[u8], mac: &[u8]) -> (r: String)
    ensures
        r@ == cipherstring_text(iv@, ct@, mac@),
{
    let b_iv = base64_encode(iv);
    let b_ct = base64_encode(ct);
    let b_mac = base64_encode(mac);
    let mut r = concat("2.", b_iv.as_str());
    push_char(&mut r, '|');
    r.append(b_ct.as_str());
    push_char(&mut r, '|');
    r.append(b_mac.as_str());
    proof {
        reveal_strlit("|");
        assert(r@ =~= cipherstring_text(iv@, ct@, mac@));
    }
    r
}

fn with_length(message: &str, len: usize) -> (r: String)
    ensures
        r@ == message@ + decimal(len as nat),
{
    let mut r = crate::text::owned(message);
    push_decimal(&mut r, len as u64);
    r
}

/// Encrypt `data` as a type-2 CipherString under a 32-byte encryption key
/// and a 32-byte MAC key, with a fresh random IV. Keys of another length
/// are refused, naming the key and its length; with keys of the right
/// length, the only failure is the random generator's.
pub fn encrypt_cipherstring_type2(enc_key: &[u8], mac_key: &[u8], data: &[u8]) -> (r: Result<
    String,
    String,
>)
    ensures
        enc_key@.len() != 32 ==> (r matches Err(m) && m@ == "enc_key must be 32 bytes, got "@
            + decimal(enc_key@.len())),
        enc_key@.len() == 32 && mac_key@.len() != 32 ==> (r matches Err(m) && m@
            == "mac_key must be 32 bytes, got "@ + decimal(mac_key@.len())),
        enc_key@.len() == 32 && mac_key@.len() == 32 ==> (r matches Err(m) ==> is_random_failure_text(m@)),
        r matches Ok(s) ==> exists|iv: Seq<u8>|
            iv.len() == 16 && s@ == cipherstring_of(enc_key@, mac_key@, iv, data@),
{
    if enc_key.len() != 32 {
        return Err(with_length("enc_key must be 32 bytes, got ", enc_key.len()));
    }
    if mac_key.len() != 32 {
        return Err(with_length("mac_key must be 32 bytes, got ", mac_key.len()));
    }
    let iv = match random_bytes(16) {
        Ok(v) => v,
        Err(e) => return Err(describe_random_failure(&e)),
    };
    let ct = aes256_cbc_encrypt(enc_key, iv.as_slice(), data);
    let mut authenticated = iv.clone();
    let mut ct_copy = ct.clone();
    authenticated.append(&mut ct_copy);
    let mac = hmac_sha256_tag(mac_key, authenticated.as_slice());
    let s = format_cipherstring(iv.as_slice(), ct.as_slice(), mac.as_slice());
    assert(authenticated@ =~= iv@ + ct@);
    Ok(s)
}

} // verus!
