use aes::cipher::{BlockDecryptMut, KeyIvInit};
use hmac::Mac;
use orangevault::cli::registration;
use orangevault::crypto::account_keys::{new_account_keys, protect_account_keys};
use orangevault::crypto::master_key::master_credentials;
use orangevault::util::base64_decode;

fn hex(b: &[u8]) -> String {
    b.iter().map(|x| format!("{x:02x}")).collect()
}

/// Splits a type-2 CipherString into IV, ciphertext and MAC.
fn parts(s: &str) -> (Vec<u8>, Vec<u8>, Vec<u8>) {
    assert!(s.starts_with("2."));
    let p: Vec<&str> = s[2..].split('|').collect();
    assert_eq!(p.len(), 3);
    (base64_decode(p[0]).ok().unwrap(), base64_decode(p[1]).ok().unwrap(), base64_decode(p[2]).ok().unwrap())
}

/// Checks the MAC and decrypts a type-2 CipherString.
fn open(s: &str, enc: &[u8], mac: &[u8]) -> Vec<u8> {
    let (iv, ct, tag) = parts(s);
    let mut m = <hmac::Hmac<sha2::Sha256> as Mac>::new_from_slice(mac).unwrap();
    m.update(&iv);
    m.update(&ct);
    assert_eq!(m.finalize().into_bytes().to_vec(), tag);
    cbc::Decryptor::<aes::Aes256>::new(enc.into(), iv.as_slice().into())
        .decrypt_padded_vec_mut::<aes::cipher::block_padding::Pkcs7>(&ct)
        .unwrap()
}

#[test]
fn master_credentials_follow_pbkdf2_and_hkdf() {
    let c = master_credentials("User@Example.com ", "correct horse", 1000).unwrap();
    assert_eq!(c.password_hash, "k06QLzVz/vV/cwlFD6gIelAXKxW8EkF3tTbXXIyWLXI=");
    assert_eq!(hex(&c.enc_key), "83541784f76cb62526333b728c0510d09c5ad554464b58c74e014f0c482e9c6d");
    assert_eq!(hex(&c.mac_key), "332d09f96aa5708a279767b7ad0f81ae237a5270991a764359c9cba508d5fc3a");
}

#[test]
fn master_credentials_refuse_zero_iterations() {
    let e = master_credentials("a@b.c", "pw", 0).err().unwrap();
    assert_eq!(e, "identity derivation: pbkdf2 requires at least 1 iteration (got 0)");
}

#[test]
fn registration_refuses_zero_iterations() {
    let e = registration("a@b.c", "pw", "", 0).err().unwrap();
    assert_eq!(e, "identity derivation: pbkdf2 requires at least 1 iteration (got 0)");
}

#[test]
fn protected_keys_open_under_their_keys() {
    let enc: Vec<u8> = (0..32).collect();
    let mac: Vec<u8> = (32..64).collect();
    let sym: Vec<u8> = (100..164).collect();
    let (key, keys) = protect_account_keys(&enc, &mac, &sym, &[1, 2, 3], &[4, 5, 6, 7]).unwrap();
    assert_eq!(open(&key, &enc, &mac), sym);
    assert_eq!(keys.public_key, "AQID");
    assert_eq!(open(&keys.encrypted_private_key, &sym[0..32], &sym[32..64]), vec![4, 5, 6, 7]);
}

#[test]
fn protected_keys_refuse_short_master_keys() {
    let sym = vec![0u8; 64];
    let e = protect_account_keys(&[0u8; 31], &[0u8; 32], &sym, &[], &[]).err().unwrap();
    assert_eq!(e, "enc_key must be 32 bytes, got 31");
    let e = protect_account_keys(&[0u8; 32], &[0u8; 33], &sym, &[], &[]).err().unwrap();
    assert_eq!(e, "mac_key must be 32 bytes, got 33");
    assert_eq!(new_account_keys(&[0u8; 16], &[0u8; 32]).err().unwrap(), "enc_key must be 32 bytes, got 16");
    assert_eq!(new_account_keys(&[0u8; 32], &[0u8; 7]).err().unwrap(), "mac_key must be 32 bytes, got 7");
}
