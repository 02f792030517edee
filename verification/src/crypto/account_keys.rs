//! The keys a new account registers with: a random 64-byte symmetric key
//! protected by the master key, and an RSA-2048 key pair whose private half
//! is protected by the symmetric key.

use vstd::prelude::*;
use rsa::pkcs8::{EncodePrivateKey, EncodePublicKey};
use crate::cli::KeyPair;
use crate::crypto::cipherstring::{cipherstring_of, encrypt_cipherstring_type2};
use crate::crypto::random::{describe_random_failure, is_random_failure_text, random_bytes};
use crate::digits::decimal;
use crate::text::concat;
use crate::util::{base64_encode, base64_text};

verus! {

#[verifier::external_type_specification]
#[verifier::external_body]
pub struct ExRsaPrivateKey(rsa::RsaPrivateKey);

/// The size of the account key pair.
pub const RSA_KEY_BITS: usize = 2048;

/// The SubjectPublicKeyInfo DER encoding of the public half of the RSA key
/// whose PKCS#8 DER encoding is `pkcs8`.
pub uninterp spec fn rsa_spki_of_pkcs8(pkcs8: Seq<u8>) -> Seq<u8>;

/// `rsa::RsaPrivateKey::new(&mut rand::rngs::OsRng, bits)`, its error as
/// text. Nothing is claimed of the key: it is random, and the prime search
/// or the generator may fail.
#[verifier::external_body]
fn rsa_generate(bits: usize) -> (r: Result<rsa::RsaPrivateKey, String>) {
    rsa::RsaPrivateKey::new(&mut rand::rngs::OsRng, bits).map_err(|e| e.to_string())
}

/// Which encoding of a key pair failed, with the encoder's message.
pub enum KeyEncodingError {
    Public(String),
    Private(String),
}

/// Both DER encodings of one key: `EncodePublicKey::to_public_key_der` of
/// `rsa::RsaPublicKey::from(key)` (SubjectPublicKeyInfo) and
/// `EncodePrivateKey::to_pkcs8_der` of the key (PKCS#8), the first error
/// with its encoder's message. The public encoding is the one of the key
/// the private encoding holds.
#[verifier::external_body]
fn key_pair_der(key: &rsa::RsaPrivateKey) -> (r: Result<(Vec<u8>, Vec<u8>), KeyEncodingError>)
    ensures
        r matches Ok((spki, pkcs8)) ==> spki@ == rsa_spki_of_pkcs8(pkcs8@),
{
    let spki = match rsa::RsaPublicKey::from(key).to_public_key_der() {
        Ok(d) => d,
        Err(e) => return Err(KeyEncodingError::Public(e.to_string())),
    };
    match key.to_pkcs8_der() {
        Ok(d) => Ok((spki.as_bytes().to_vec(), d.as_bytes().to_vec())),
        Err(e) => Err(KeyEncodingError::Private(e.to_string())),
    }
}

/// The text of a failed key-pair generation: the step that failed (`RSA
/// keygen`, `encode public key DER`, `encode private key DER`), `: ` and
/// the outside crate's message.
pub open spec fn is_keygen_failure(m: Seq<char>) -> bool {
    exists|detail: Seq<char>|
        m == "RSA keygen: "@ + detail || m == "encode public key DER: "@ + detail || m
            == "encode private key DER: "@ + detail
}

/// A fresh RSA key pair as DER bytes: the public key as
/// SubjectPublicKeyInfo, the private key as PKCS#8, both of one key.
pub fn generate_key_pair_der() -> (r: Result<(Vec<u8>, Vec<u8>), String>)
    ensures
        r matches Ok((public_der, private_der)) ==> public_der@ == rsa_spki_of_pkcs8(private_der@),
        r matches Err(m) ==> is_keygen_failure(m@),
{
    let private_key = match rsa_generate(RSA_KEY_BITS) {
        Ok(k) => k,
        Err(d) => {
            let m = concat("RSA keygen: ", d.as_str());
            assert(m@ == "RSA keygen: "@ + d@);
            return Err(m);
        },
    };
    match key_pair_der(&private_key) {
        Ok(pair) => Ok(pair),
        Err(KeyEncodingError::Public(d)) => {
            let m = concat("encode public key DER: ", d.as_str());
            assert(m@ == "encode public key DER: "@ + d@);
            Err(m)
        },
        Err(KeyEncodingError::Private(d)) => {
            let m = concat("encode private key DER: ", d.as_str());
            assert(m@ == "encode private key DER: "@ + d@);
            Err(m)
        },
    }
}

/// `key` is the symmetric key `sym` encrypted under the master keys, and
/// `keys` holds the public key and the private key encrypted under the two
/// halves of `sym`, each with some IV.
pub open spec fn protects_account_keys(
    enc_key: Seq<u8>,
    mac_key: Seq<u8>,
    sym: Seq<u8>,
    public_der: Seq<u8>,
    private_der: Seq<u8>,
    key: Seq<char>,
    keys: KeyPair,
) -> bool {
    &&& exists|iv: Seq<u8>| iv.len() == 16 && key == cipherstring_of(enc_key, mac_key, iv, sym)
    &&& keys.public_key@ == base64_text(public_der)
    &&& exists|iv: Seq<u8>|
        iv.len() == 16 && keys.encrypted_private_key@ == cipherstring_of(
            sym.subrange(0, 32),
            sym.subrange(32, 64),
            iv,
            private_der,
        )
}

/// Protect a symmetric key and a key pair for registration. Master keys of
/// the wrong length are refused, naming the key and its length.
pub fn protect_account_keys(
    enc_key: &[u8],
    mac_key: &[u8],
    sym: &[u8],
    public_der: &[u8],
    private_der: &[u8],
) -> (r: Result<(String, KeyPair), String>)
    requires
        sym@.len() == 64,
    ensures
        enc_key@.len() != 32 ==> (r matches Err(m) && m@ == "enc_key must be 32 bytes, got "@ + decimal(
            enc_key@.len(),
        )),
        enc_key@.len() == 32 && mac_key@.len() != 32 ==> (r matches Err(m) && m@
            == "mac_key must be 32 bytes, got "@ + decimal(mac_key@.len())),
        enc_key@.len() == 32 && mac_key@.len() == 32 ==> (r matches Err(m) ==> is_random_failure_text(m@)),
        r matches Ok((key, keys)) ==> protects_account_keys(
            enc_key@,
            mac_key@,
            sym@,
            public_der@,
            private_der@,
            key@,
            keys,
        ),
{
    let key = encrypt_cipherstring_type2(enc_key, mac_key, sym)?;
    let public_key = base64_encode(public_der);
    let sym_enc = slice_range(sym, 0, 32);
    let sym_mac = slice_range(sym, 32, 64);
    let encrypted_private_key = encrypt_cipherstring_type2(sym_enc.as_slice(), sym_mac.as_slice(), private_der)?;
    Ok((key, KeyPair { public_key, encrypted_private_key }))
}

/// The bytes `s[lo..hi]`.
fn slice_range(s: &[u8], lo: usize, hi: usize) -> (r: Vec<u8>)
    requires
        lo <= hi <= s@.len(),
    ensures
        r@ == s@.subrange(lo as int, hi as int),
{
    let mut r: Vec<u8> = Vec::new();
    for i in lo..hi
        invariant
            lo <= hi <= s@.len(),
            r@ == s@.subrange(lo as int, i as int),
    {
        r.push(s[i]);
        assert(r@ =~= s@.subrange(lo as int, i + 1));
    }
    r
}

/// The keys of a new account under the given master keys: a fresh random
/// symmetric key and a fresh key pair, protected as registration sends
/// them. Master keys of the wrong length are refused, naming the key and
/// its length.
pub fn new_account_keys(enc_key: &[u8], mac_key: &[u8]) -> (r: Result<(String, KeyPair), String>)
    ensures
        enc_key@.len() != 32 ==> (r matches Err(m) && m@ == "enc_key must be 32 bytes, got "@ + decimal(
            enc_key@.len(),
        )),
        enc_key@.len() == 32 && mac_key@.len() != 32 ==> (r matches Err(m) && m@
            == "mac_key must be 32 bytes, got "@ + decimal(mac_key@.len())),
        enc_key@.len() == 32 && mac_key@.len() == 32 ==> (r matches Err(m) ==> is_random_failure_text(m@)
            || is_keygen_failure(m@)),
        r matches Ok((key, keys)) ==> exists|sym: Seq<u8>, public_der: Seq<u8>, private_der: Seq<u8>|
            sym.len() == 64 && public_der == rsa_spki_of_pkcs8(private_der) && #[trigger] protects_account_keys(
                enc_key@,
                mac_key@,
                sym,
                public_der,
                private_der,
                key@,
                keys,
            ),
{
    if enc_key.len() != 32 || mac_key.len() != 32 {
        let unused: [u8; 64] = [0u8; 64];
        return protect_account_keys(enc_key, mac_key, &unused, &[], &[]);
    }
    let sym = match random_bytes(64) {
        Ok(v) => v,
        Err(e) => return Err(describe_random_failure(&e)),
    };
    let (public_der, private_der) = generate_key_pair_der()?;
    let r = protect_account_keys(enc_key, mac_key, sym.as_slice(), public_der.as_slice(), private_der.as_slice());
    if let Ok((key, keys)) = &r {
        assert(protects_account_keys(enc_key@, mac_key@, sym@, public_der@, private_der@, key@, *keys));
    }
    r
}

} // verus!
