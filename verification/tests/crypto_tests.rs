use orangevault::crypto::cipherstring::{encrypt_cipherstring_type2, format_cipherstring};
use orangevault::crypto::random::random_bytes;
use orangevault::crypto::totp::{
    base32_decode, base32_encode, constant_time_eq, counter_bytes, generate_recovery_code,
    generate_totp_secret, random_base32, totp_code, totp_counter, truncate, validate_totp_step,
    window_times,
};
use orangevault::error::AppError;
use orangevault::util::{base64_decode, base64_encode, base64url_decode, base64url_encode, hex_encode};

#[test]
fn base32_encodes_rfc4648_vectors() {
    assert_eq!(base32_encode(b""), "");
    assert_eq!(base32_encode(b"f"), "MY");
    assert_eq!(base32_encode(b"fo"), "MZXQ");
    assert_eq!(base32_encode(b"foo"), "MZXW6");
    assert_eq!(base32_encode(b"foob"), "MZXW6YQ");
    assert_eq!(base32_encode(b"fooba"), "MZXW6YTB");
    assert_eq!(base32_encode(b"foobar"), "MZXW6YTBOI");
}

#[test]
fn base32_decodes_lowercase_padding_and_spaces() {
    assert_eq!(base32_decode("MZXW6YTBOI").ok().unwrap(), b"foobar".to_vec());
    assert_eq!(base32_decode("mzxw6ytboi").ok().unwrap(), b"foobar".to_vec());
    assert_eq!(base32_decode("MZXW 6YTB OI======").ok().unwrap(), b"foobar".to_vec());
    assert_eq!(base32_decode("").ok().unwrap(), Vec::<u8>::new());
}

#[test]
fn base32_rejects_other_characters() {
    assert!(matches!(base32_decode("MZXW1"), Err(AppError::BadRequest(_))));
    assert!(matches!(base32_decode("AB-C"), Err(AppError::BadRequest(_))));
}

#[test]
fn base32_round_trips() {
    let samples: Vec<Vec<u8>> = vec![
        vec![],
        vec![0],
        vec![255, 1, 2],
        (0u8..=20).collect(),
        (0u8..=255).collect(),
    ];
    for s in samples {
        let e = base32_encode(&s);
        assert_eq!(base32_decode(&e).ok().unwrap(), s);
    }
}

#[test]
fn constant_time_eq_compares_bytes() {
    assert!(constant_time_eq(b"abc", b"abc"));
    assert!(!constant_time_eq(b"abc", b"abd"));
    assert!(!constant_time_eq(b"abc", b"ab"));
    assert!(constant_time_eq(b"", b""));
}

#[test]
fn truncate_matches_rfc4226_example() {
    // RFC 4226, section 5.4.
    let hmac: [u8; 20] = [
        0x1f, 0x86, 0x98, 0x69, 0x0e, 0x02, 0xca, 0x16, 0x61, 0x85, 0x50, 0xef, 0x7f, 0x19, 0xda,
        0x8e, 0x94, 0x5b, 0x55, 0x5a,
    ];
    assert_eq!(truncate(&hmac), 0x50ef7f19);
    assert_eq!(totp_code(&hmac), "872921");
}

#[test]
fn totp_code_keeps_leading_zeros() {
    // Offset 0, value 0x00000007 -> "000007".
    let mut hmac = [0u8; 20];
    hmac[3] = 7;
    assert_eq!(totp_code(&hmac), "000007");
}

#[test]
fn totp_counter_and_bytes() {
    assert_eq!(totp_counter(59), 1);
    assert_eq!(totp_counter(1111111109), 37037036);
    assert_eq!(counter_bytes(1), vec![0, 0, 0, 0, 0, 0, 0, 1]);
    assert_eq!(counter_bytes(0x0102030405060708), vec![1, 2, 3, 4, 5, 6, 7, 8]);
}

#[test]
fn totp_windows_are_now_before_after() {
    assert_eq!(window_times(1000), vec![1000, 970, 1030]);
    assert_eq!(window_times(10), vec![10, 10u64.wrapping_sub(30), 40]);
}

#[test]
fn validate_totp_step_picks_first_matching_window() {
    let expected = vec!["111111".to_string(), "222222".to_string(), "333333".to_string()];
    assert_eq!(validate_totp_step("111111", 3000, &expected), Some(100));
    assert_eq!(validate_totp_step("222222", 3000, &expected), Some(99));
    assert_eq!(validate_totp_step("333333", 3000, &expected), Some(101));
    assert_eq!(validate_totp_step("444444", 3000, &expected), None);
}

#[test]
fn random_secrets_are_base32_of_twenty_bytes() {
    let s = generate_totp_secret().ok().unwrap();
    assert_eq!(s.len(), 32);
    assert_eq!(base32_decode(&s).ok().unwrap().len(), 20);
    let r = generate_recovery_code().ok().unwrap();
    assert_eq!(r.len(), 32);
    assert_eq!(random_base32(5).ok().unwrap().len(), 8);
    assert_eq!(random_bytes(16).ok().unwrap().len(), 16);
}

#[test]
fn hex_encode_is_lowercase_pairs() {
    assert_eq!(hex_encode(&[0x00, 0x0f, 0xab, 0xff]), "000fabff");
    assert_eq!(hex_encode(&[]), "");
}

#[test]
fn base64_wrappers_round_trip() {
    assert_eq!(base64_encode(b"hello"), "aGVsbG8=");
    assert_eq!(base64url_encode(&[0xfb, 0xff]), "-_8");
    assert_eq!(base64_decode("aGVsbG8=").ok().unwrap(), b"hello".to_vec());
    assert_eq!(base64url_decode("-_8").ok().unwrap(), vec![0xfb, 0xff]);
    assert!(matches!(base64_decode("***"), Err(AppError::BadRequest(_))));
}

#[test]
fn cipherstring_has_three_base64_parts() {
    let enc = [7u8; 32];
    let mac = [9u8; 32];
    let s = encrypt_cipherstring_type2(&enc, &mac, b"secret data").ok().unwrap();
    assert!(s.starts_with("2."));
    let parts: Vec<&str> = s[2..].split('|').collect();
    assert_eq!(parts.len(), 3);
    assert_eq!(base64_decode(parts[0]).ok().unwrap().len(), 16);
    assert_eq!(base64_decode(parts[1]).ok().unwrap().len(), 16);
    assert_eq!(base64_decode(parts[2]).ok().unwrap().len(), 32);
}

#[test]
fn cipherstring_rejects_short_keys() {
    assert_eq!(
        encrypt_cipherstring_type2(&[0u8; 16], &[0u8; 32], b"x").err().unwrap(),
        "enc_key must be 32 bytes, got 16"
    );
    assert_eq!(
        encrypt_cipherstring_type2(&[0u8; 32], &[0u8; 31], b"x").err().unwrap(),
        "mac_key must be 32 bytes, got 31"
    );
}

#[test]
fn cipherstring_format() {
    assert_eq!(format_cipherstring(&[1, 2, 3], &[4], &[5, 6]), "2.AQID|BA==|BQY=");
}

#[test]
fn undecodable_base64_names_the_error() {
    match base64url_decode("a=b") {
        Err(AppError::BadRequest(m)) => assert!(m.starts_with("Invalid base64: ") && m.len() > 16),
        _ => panic!("expected a bad request"),
    }
}
