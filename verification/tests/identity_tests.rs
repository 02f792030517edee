use orangevault::api::identity::{
    build_login_response, check_credentials, check_recovery_code, check_refresh_device, check_totp_step,
    check_verified_email, choose_device_uuid, grant_of, login_device, login_email, new_user,
    normalize_email, oauth_invalid_grant, second_factor_plan, Grant, SecondFactor,
};
use orangevault::api::two_factor::{enable_totp, other_factor_enabled};
use orangevault::db::models::{Device, TwoFactor, User};
use orangevault::error::AppError;
use orangevault::models::user::{KeysRequest, RegisterRequest};

fn user() -> User {
    User {
        uuid: "u1".into(),
        email: "a@b.test".into(),
        name: "A".into(),
        password_hash: "h".into(),
        salt: "s".into(),
        password_iterations: 600000,
        akey: Some("akey".into()),
        private_key: Some("priv".into()),
        public_key: Some("pub".into()),
        security_stamp: "stamp".into(),
        client_kdf_type: 0,
        client_kdf_iter: 600000,
        client_kdf_memory: None,
        client_kdf_parallelism: None,
        api_key: None,
        avatar_color: None,
        email_verified: false,
        totp_recover: Some("ABCD EFGH".into()),
        created_at: "t".into(),
        updated_at: "t".into(),
    }
}

fn factor(uuid: &str, atype: i32, enabled: bool, last_used: Option<u64>) -> TwoFactor {
    TwoFactor {
        uuid: uuid.into(),
        user_uuid: "u1".into(),
        atype,
        enabled,
        data: "SECRET".into(),
        last_used,
    }
}

fn oauth_description(e: AppError) -> String {
    match e {
        AppError::OAuth { error_description, .. } => error_description,
        _ => panic!("expected an OAuth error"),
    }
}

#[test]
fn emails_are_trimmed_and_lowercased() {
    assert_eq!(normalize_email("  Alice@Example.COM \n").ok().unwrap(), "alice@example.com");
    assert_eq!(normalize_email("\u{3000}b@c.de").ok().unwrap(), "b@c.de");
    assert!(matches!(normalize_email("no-at-sign"), Err(AppError::BadRequest(m)) if m == "Invalid email address"));
    assert!(matches!(normalize_email(" a@b "), Err(AppError::BadRequest(_))));
    assert!(normalize_email("a@b.c").is_ok());
    assert_eq!(login_email(Some(" X@Y.Z ")).ok().unwrap(), "x@y.z");
    assert_eq!(oauth_description(login_email(None).err().unwrap()), "Username is required");
}

#[test]
fn grants_are_dispatched() {
    assert!(grant_of("password").ok().unwrap() == Grant::Password);
    assert!(grant_of("refresh_token").ok().unwrap() == Grant::RefreshToken);
    match grant_of("client_credentials") {
        Err(AppError::OAuth { error, error_description, status, two_factor_providers }) => {
            assert_eq!(error, "unsupported_grant_type");
            assert_eq!(error_description, "Unsupported grant type");
            assert_eq!(status, 400);
            assert!(two_factor_providers.is_none());
        }
        _ => panic!("expected OAuth error"),
    }
}

#[test]
fn invalid_grant_shape() {
    match oauth_invalid_grant("x") {
        AppError::OAuth { error, error_description, status, two_factor_providers } => {
            assert_eq!((error.as_str(), error_description.as_str(), status), ("invalid_grant", "x", 400));
            assert!(two_factor_providers.is_none());
        }
        _ => panic!(),
    }
}

#[test]
fn second_factor_is_asked_for_with_providers() {
    let tfs = vec![factor("t", 0, true, None), factor("r", 1, true, None)];
    assert!(matches!(second_factor_plan(&vec![], None, None), Ok(SecondFactor::NotConfigured)));
    match second_factor_plan(&tfs, None, None) {
        Err(AppError::OAuth { error_description, two_factor_providers, status, .. }) => {
            assert_eq!(error_description, "Two factor required.");
            assert_eq!(two_factor_providers, Some(vec![0, 1]));
            assert_eq!(status, 400);
        }
        _ => panic!("expected a request for a second factor"),
    }
    assert!(matches!(second_factor_plan(&tfs, Some(0), None), Err(AppError::OAuth { .. })));
    assert!(matches!(second_factor_plan(&tfs, Some(0), Some("123456")), Ok(SecondFactor::Totp(0))));
    let later = vec![factor("r", 1, true, None), factor("t", 0, true, None)];
    assert!(matches!(second_factor_plan(&later, Some(0), Some("1")), Ok(SecondFactor::Totp(1))));
    assert_eq!(oauth_description(second_factor_plan(&vec![factor("r", 1, true, None)], Some(0), Some("1")).err().unwrap()), "TOTP not configured");
    assert!(matches!(second_factor_plan(&tfs, Some(8), Some("x")), Ok(SecondFactor::RecoveryCode)));
    assert_eq!(oauth_description(second_factor_plan(&tfs, Some(3), Some("x")).err().unwrap()), "Unsupported 2FA provider");
}

#[test]
fn totp_steps_are_used_once() {
    assert_eq!(check_totp_step(Some(5), None).ok().unwrap(), 5);
    assert_eq!(check_totp_step(Some(5), Some(4)).ok().unwrap(), 5);
    assert_eq!(oauth_description(check_totp_step(Some(5), Some(5)).err().unwrap()), "TOTP code already used");
    assert_eq!(oauth_description(check_totp_step(Some(0), None).err().unwrap()), "TOTP code already used");
    assert_eq!(oauth_description(check_totp_step(None, None).err().unwrap()), "Invalid TOTP code");
}

#[test]
fn enabling_totp_records_the_step() {
    let tf = enable_totp(Some(100), None, "u1", "KEY").ok().unwrap();
    assert_eq!(tf.last_used, Some(100));
    assert_eq!((tf.atype, tf.enabled), (0, true));
    assert_eq!(tf.uuid.len(), 36);
    // The same code cannot then log in.
    assert!(check_totp_step(Some(100), tf.last_used).is_err());
    assert!(check_totp_step(Some(101), tf.last_used).is_ok());
    let existing = factor("t", 0, true, Some(100));
    assert!(matches!(enable_totp(Some(100), Some(&existing), "u1", "KEY"), Err(AppError::BadRequest(m)) if m == "TOTP code already used"));
    assert_eq!(enable_totp(Some(101), Some(&existing), "u1", "KEY").ok().unwrap().uuid, "t");
    assert!(matches!(enable_totp(None, None, "u1", "KEY"), Err(AppError::BadRequest(m)) if m == "Invalid TOTP code"));
}

#[test]
fn recovery_codes_ignore_spaces_and_case() {
    assert!(check_recovery_code("abcd efgh", Some("ABCD EFGH")).is_ok());
    assert!(check_recovery_code("ABCDEFGH", Some("abcd efgh")).is_ok());
    assert_eq!(oauth_description(check_recovery_code("ABCDEFGX", Some("ABCDEFGH")).err().unwrap()), "Invalid recovery code");
    assert!(check_recovery_code("", None).is_err());
    assert!(check_recovery_code("   ", Some("   ")).is_err());
    assert!(check_recovery_code("A", None).is_err());
}

#[test]
fn devices_are_not_taken_over() {
    let mine = Device {
        uuid: "d1".into(),
        user_uuid: "u1".into(),
        name: "n".into(),
        atype: 0,
        push_uuid: None,
        push_token: None,
        refresh_token: "rt".into(),
        twofactor_remember: None,
        created_at: "t".into(),
        updated_at: "t".into(),
    };
    let fresh = || "f".to_string();
    assert_eq!(choose_device_uuid(Some("d1"), Some(&mine), "u1", fresh()), "d1");
    assert_eq!(choose_device_uuid(Some("d1"), None, "u1", fresh()), "d1");
    assert_eq!(choose_device_uuid(Some("d1"), Some(&mine), "u2", fresh()), "f");
    assert_eq!(choose_device_uuid(Some(""), None, "u1", fresh()), "f");
    assert_eq!(choose_device_uuid(None, None, "u1", fresh()), "f");
    let d = login_device("d9".into(), "u1", None, None, "rt".into(), "now".into());
    assert_eq!((d.name.as_str(), d.atype), ("Unknown", 0));
    assert!(check_refresh_device(Some(&mine), "rt").is_ok());
    assert_eq!(oauth_description(check_refresh_device(Some(&mine), "old").err().unwrap()), "Refresh token revoked");
    assert_eq!(oauth_description(check_refresh_device(None, "rt").err().unwrap()), "Device not found");
}

#[test]
fn login_response_carries_keys_and_kdf() {
    let r = build_login_response("at".into(), "rt".into(), &user());
    assert_eq!(r.expires_in, 7200);
    assert_eq!(r.token_type, "Bearer");
    assert_eq!(r.key.as_deref(), Some("akey"));
    let unlock = r.user_decryption_options.master_password_unlock.unwrap();
    assert_eq!(unlock.salt, "a@b.test");
    assert_eq!(unlock.master_key_wrapped_user_key, "akey");
    assert_eq!(unlock.kdf.iterations, 600000);
    let keys = r.account_keys.unwrap();
    assert_eq!(keys.public_key_encryption_key_pair.wrapped_private_key, "priv");
    assert_eq!(keys.object, "privateKeys");
    let mut no_keys = user();
    no_keys.public_key = None;
    no_keys.akey = None;
    let r = build_login_response("at".into(), "rt".into(), &no_keys);
    assert!(r.account_keys.is_none());
    assert!(r.user_decryption_options.master_password_unlock.is_none());
}

#[test]
fn registration_defaults() {
    let body = RegisterRequest {
        name: None,
        email: "a@b.test".into(),
        master_password_hash: "mph".into(),
        master_password_hint: None,
        key: Some("k".into()),
        kdf: None,
        kdf_iterations: None,
        kdf_memory: None,
        kdf_parallelism: None,
        keys: Some(KeysRequest { public_key: "pub".into(), encrypted_private_key: "priv".into() }),
        email_verification_token: None,
    };
    let u = new_user("u".into(), "a@b.test", "A".into(), true, &body, b"hash", b"salt", "st".into(), "now".into());
    assert_eq!((u.client_kdf_type, u.client_kdf_iter), (0, 600000));
    assert_eq!(u.password_hash, "aGFzaA==");
    assert_eq!(u.salt, "c2FsdA==");
    assert_eq!(u.public_key.as_deref(), Some("pub"));
    assert!(u.email_verified);
    assert!(check_verified_email("a@b.test", "a@b.test").is_ok());
    assert!(matches!(check_verified_email("x@b.test", "a@b.test"), Err(AppError::BadRequest(m)) if m == "Email verification token does not match email"));
}

#[test]
fn disabling_the_last_factor_clears_recovery() {
    let rest = vec![factor("a", 0, true, None), factor("b", 1, false, None)];
    assert!(!other_factor_enabled(&rest, "a"));
    assert!(other_factor_enabled(&rest, "b"));
}

fn invalid_grant(e: AppError) -> (String, String, u16, bool) {
    match e {
        AppError::OAuth { error, error_description, status, two_factor_providers } => {
            (error, error_description, status, two_factor_providers.is_none())
        }
        _ => panic!("expected an OAuth error"),
    }
}

#[test]
fn unknown_email_and_wrong_password_get_one_answer() {
    assert_eq!(check_credentials(Some(user()), true).ok().unwrap().uuid, user().uuid);
    let unknown = invalid_grant(check_credentials(None, false).err().unwrap());
    let wrong = invalid_grant(check_credentials(Some(user()), false).err().unwrap());
    assert_eq!(unknown, wrong);
    assert_eq!(unknown, ("invalid_grant".to_string(), "invalid_username_or_password".to_string(), 400, true));
}

#[test]
fn replayed_totp_and_revoked_refresh_are_invalid_grants() {
    let e = invalid_grant(check_totp_step(Some(5), Some(5)).err().unwrap());
    assert_eq!(e, ("invalid_grant".to_string(), "TOTP code already used".to_string(), 400, true));
    assert_eq!(check_totp_step(Some(6), Some(5)).ok().unwrap(), 6);
    let e = invalid_grant(check_refresh_device(None, "t").err().unwrap());
    assert_eq!(e, ("invalid_grant".to_string(), "Device not found".to_string(), 400, true));
}
