use orangevault::api::accounts::{
    stored_domain_settings,
    api_key_or_new, api_key_response, build_domains_response_from_data, build_profile_from_user,
    prelogin_response, profile_name, require_master_password,
};
use orangevault::api::ciphers::{has_cipher_access, import_folder_links, owns_cipher, Access, FolderRelationship};
use orangevault::api::events::{event_from_report, event_range, EventCollectItem};
use orangevault::api::folders::{new_folder, owned_folder, rename_folder};
use orangevault::api::icons::{favicon_url, icon_cache_key, validate_icon_domain};
use orangevault::api::web::trusted_facet_ids;
use orangevault::auth::guards::{check_security_stamp, extract_bearer_token, AuthenticatedUser};
use orangevault::jobs::trash_cutoff;
use orangevault::util::{base64url_encode, generate_uuid, now_utc};
use orangevault::auth::jwt::{
    accept_verified_jwt, check_payload_claims, JwtParts,
    check_registered_claims, jwt_signing_input, jwt_with_signature, send_access_subject, signed_part, split_jwt,
};
use orangevault::cli::{apikey_lines, endpoint, login_form, password_from_line, registration_request, KeyPair};
use orangevault::config::{domain_origin, flag_setting, signups_allowed, web_vault_enabled};
use orangevault::db::models::{Cipher, Membership, User, UserCollection};
use orangevault::error::AppError;
use orangevault::middleware::{cors_headers, resolve_allowed_origin, security_headers};
use orangevault::models::config::ConfigResponse;
use orangevault::models::folder::FolderResponse;
use orangevault::models::sync::default_global_domains;
use orangevault::util::{enforce_body_len, enforce_content_length, enforce_declared_size, parse_usize, MAX_UPLOAD_BYTES};

fn user() -> User {
    User {
        uuid: "u1".into(),
        email: "a@b.test".into(),
        name: "A".into(),
        password_hash: "h".into(),
        salt: "s".into(),
        password_iterations: 600000,
        akey: None,
        private_key: None,
        public_key: None,
        security_stamp: "stamp".into(),
        client_kdf_type: 1,
        client_kdf_iter: 3,
        client_kdf_memory: Some(64),
        client_kdf_parallelism: Some(4),
        api_key: None,
        avatar_color: None,
        email_verified: true,
        totp_recover: None,
        created_at: "t".into(),
        updated_at: "t".into(),
    }
}

fn cipher(user: Option<&str>, org: Option<&str>) -> Cipher {
    Cipher {
        uuid: "c1".into(),
        user_uuid: user.map(|s| s.to_string()),
        organization_uuid: org.map(|s| s.to_string()),
        atype: 1,
        name: "n".into(),
        notes: None,
        fields: None,
        data: "{}".into(),
        key: None,
        password_history: None,
        reprompt: None,
        deleted_at: None,
        created_at: "t".into(),
        updated_at: "t".into(),
    }
}

fn membership(atype: i32, status: i32, access_all: bool) -> Membership {
    Membership {
        uuid: "m".into(),
        user_uuid: "u2".into(),
        org_uuid: "o".into(),
        akey: None,
        atype,
        status,
        access_all,
        external_id: None,
        reset_password_key: None,
    }
}

fn grant(read_only: bool) -> UserCollection {
    UserCollection { user_uuid: "u2".into(), collection_uuid: "c".into(), read_only, hide_passwords: false, manage: false }
}

#[test]
fn error_statuses_and_public_messages() {
    assert_eq!(AppError::Unauthorized("x".into()).status_code(), 401);
    assert_eq!(AppError::PayloadTooLarge("x".into()).status_code(), 413);
    assert_eq!(AppError::TooManyRequests.status_code(), 429);
    assert_eq!(AppError::Internal("db down".into()).status_code(), 500);
    assert_eq!(AppError::Internal("db down".into()).public_message(), "An internal error occurred.");
    assert_eq!(AppError::NotFound("gone".into()).public_message(), "gone");
    assert_eq!(AppError::BadRequest("b".into()).describe(), "Bad request: b");
}

#[test]
fn bearer_tokens() {
    assert_eq!(extract_bearer_token("Bearer abc").ok().unwrap(), "abc");
    assert!(matches!(extract_bearer_token("bearer abc"), Err(AppError::Unauthorized(m)) if m == "Invalid authorization header"));
    assert!(extract_bearer_token("Bearer").is_err());
}

#[test]
fn jwt_segments_and_claims() {
    let p = split_jwt("a.b.c.d").ok().unwrap();
    assert_eq!((p.header.as_str(), p.payload.as_str(), p.signature.as_str()), ("a", "b", "c.d"));
    assert!(matches!(split_jwt("a.b"), Err(AppError::Unauthorized(m)) if m == "Malformed JWT"));
    let ok = check_registered_claims(Some(200), Some(100), Some("|orangevault|"), Some("access_token"), 150, "access_token");
    assert!(ok.is_ok());
    let msg = |r: Result<(), AppError>| match r {
        Err(AppError::Unauthorized(m)) => m,
        _ => panic!("expected unauthorized"),
    };
    assert_eq!(msg(check_registered_claims(None, None, Some("|orangevault|"), Some("access_token"), 150, "access_token")), "Missing exp claim");
    assert_eq!(msg(check_registered_claims(Some(149), None, Some("|orangevault|"), Some("access_token"), 150, "access_token")), "JWT expired");
    assert_eq!(msg(check_registered_claims(Some(200), Some(156), Some("|orangevault|"), Some("access_token"), 150, "access_token")), "JWT not yet valid");
    assert!(check_registered_claims(Some(200), Some(155), Some("|orangevault|"), Some("access_token"), 150, "access_token").is_ok());
    assert_eq!(msg(check_registered_claims(Some(200), None, Some("other"), Some("access_token"), 150, "access_token")), "JWT issuer mismatch");
    assert_eq!(msg(check_registered_claims(Some(200), None, Some("|orangevault|"), Some("refresh_token"), 150, "access_token")), "JWT type mismatch");
    assert_eq!(send_access_subject("s", "f"), "s/f");
}

#[test]
fn icon_domains() {
    assert_eq!(validate_icon_domain("Example.COM").ok().unwrap(), "example.com");
    for bad in ["localhost", "a.local", "x.internal", "10.0.0.1", "-a.com", "a..com", "nodot", "a_b.com", ".a.com", "a.com.", ""] {
        assert!(matches!(validate_icon_domain(bad), Err(AppError::BadRequest(m)) if m == "Invalid domain"), "{bad}");
    }
    assert_eq!(icon_cache_key("example.com"), "icon:example.com");
    assert_eq!(favicon_url("example.com"), "https://example.com/favicon.ico");
}

#[test]
fn upload_limits() {
    assert!(enforce_body_len(MAX_UPLOAD_BYTES).is_ok());
    assert!(matches!(enforce_body_len(MAX_UPLOAD_BYTES + 1), Err(AppError::PayloadTooLarge(_))));
    assert!(enforce_declared_size(100).is_ok());
    assert!(matches!(enforce_declared_size(-1), Err(AppError::PayloadTooLarge(m)) if m == "Upload exceeds 104857600 byte limit"));
    assert!(enforce_declared_size(104857600).is_ok());
    assert!(enforce_declared_size(104857601).is_err());
    assert!(enforce_content_length(None).is_ok());
    assert!(enforce_content_length(Some("10")).is_ok());
    assert!(enforce_content_length(Some("104857601")).is_err());
    assert!(enforce_content_length(Some("junk")).is_ok());
    assert_eq!(parse_usize("+42"), Some(42));
    assert_eq!(parse_usize("4a"), None);
    assert_eq!(parse_usize(""), None);
}

#[test]
fn cipher_access_rules() {
    let personal = cipher(Some("u1"), None);
    assert!(has_cipher_access("u1", &personal, None, &vec![], Access::Write));
    assert!(!has_cipher_access("u2", &personal, None, &vec![], Access::Read));
    let shared = cipher(None, Some("o"));
    assert!(!has_cipher_access("u2", &shared, None, &vec![], Access::Read));
    assert!(!has_cipher_access("u2", &shared, Some(&membership(2, 1, true)), &vec![grant(false)], Access::Read));
    assert!(has_cipher_access("u2", &shared, Some(&membership(1, 2, false)), &vec![], Access::Write));
    assert!(has_cipher_access("u2", &shared, Some(&membership(2, 2, true)), &vec![], Access::Write));
    assert!(!has_cipher_access("u2", &shared, Some(&membership(2, 2, false)), &vec![], Access::Read));
    assert!(has_cipher_access("u2", &shared, Some(&membership(2, 2, false)), &vec![grant(true)], Access::Read));
    assert!(!has_cipher_access("u2", &shared, Some(&membership(2, 2, false)), &vec![grant(true)], Access::Write));
    assert!(has_cipher_access("u2", &shared, Some(&membership(2, 2, false)), &vec![grant(true), grant(false)], Access::Write));
    assert!(owns_cipher(&personal, "u1") && !owns_cipher(&shared, "u1"));
}

#[test]
fn import_links_skip_out_of_range() {
    let rels = vec![
        FolderRelationship { key: 0, value: 1 },
        FolderRelationship { key: 5, value: 0 },
        FolderRelationship { key: 1, value: 2 },
        FolderRelationship { key: 1, value: 0 },
    ];
    assert_eq!(import_folder_links(&rels, 2, 2), vec![(0, 1), (1, 0)]);
}

#[test]
fn account_responses() {
    let p = prelogin_response(Some(&user()));
    assert_eq!((p.kdf, p.kdf_iterations, p.kdf_memory, p.kdf_parallelism), (1, 3, Some(64), Some(4)));
    let p = prelogin_response(None);
    assert_eq!((p.kdf, p.kdf_iterations, p.kdf_memory, p.kdf_parallelism), (0, 600000, None, None));
    assert!(matches!(require_master_password(false), Err(AppError::BadRequest(m)) if m == "Invalid master password"));
    assert!(require_master_password(true).is_ok());
    let prof = build_profile_from_user(&user(), vec![], 0, true);
    assert_eq!(prof.key, "");
    assert!(!prof.two_factor_enabled && prof.premium);
    assert_eq!(prof.culture, "en-US");
    assert!(build_profile_from_user(&user(), vec![], 2, false).two_factor_enabled);
    assert_eq!(profile_name(None, &"old".to_string()), "old");
    assert_eq!(profile_name(Some("new".into()), &"old".to_string()), "new");
    let (k, fresh) = api_key_or_new(None).ok().unwrap();
    assert!(fresh && k.len() == 60 && k.chars().all(|c| c.is_ascii_hexdigit()));
    let (k, fresh) = api_key_or_new(Some("kept".into())).ok().unwrap();
    assert!(!fresh && k == "kept");
    assert_eq!(api_key_response("k".into()).object, "apiKey");
}

#[test]
fn domains_mark_excluded_groups() {
    let d = default_global_domains();
    assert_eq!(d.len(), 4);
    assert_eq!(d[0].domains, vec!["google.com", "youtube.com", "gmail.com", "googlemail.com"]);
    assert_eq!(d[3].domains.len(), 6);
    let r = build_domains_response_from_data(&vec![1, 3, 9], vec![vec!["a.com".into(), "b.com".into()]]);
    let flags: Vec<bool> = r.global_equivalent_domains.iter().map(|g| g.excluded).collect();
    assert_eq!(flags, vec![false, true, false, true]);
    let types: Vec<i32> = r.global_equivalent_domains.iter().map(|g| g.atype).collect();
    assert_eq!(types, vec![0, 1, 2, 3]);
    assert_eq!(r.equivalent_domains, vec![vec!["a.com".to_string(), "b.com".to_string()]]);
    assert_eq!(r.object, "domains");
}

#[test]
fn folders_belong_to_their_user() {
    let f = new_folder("f".into(), "u1".into(), "name".into(), "now".into());
    assert_eq!(FolderResponse::from_db(&f).revision_date, "now");
    assert!(matches!(owned_folder(Some(f.clone()), "u2"), Err(AppError::Forbidden(m)) if m == "Not your folder"));
    assert!(matches!(owned_folder(None, "u1"), Err(AppError::NotFound(m)) if m == "Folder not found"));
    let mut g = owned_folder(Some(f), "u1").ok().unwrap();
    rename_folder(&mut g, "other".into(), "later".into());
    assert_eq!((g.name.as_str(), g.updated_at.as_str(), g.created_at.as_str()), ("other", "later", "now"));
}

#[test]
fn events() {
    let item = EventCollectItem { atype: 1100, cipher_id: Some("c".into()), date: None };
    let e = event_from_report("e".into(), "u1", &item, &"now".to_string());
    assert_eq!((e.event_type, e.event_date.as_str()), (1100, "now"));
    assert_eq!(e.act_user_uuid.as_deref(), Some("u1"));
    let (s, t) = event_range(None, Some("2024".into()));
    assert_eq!((s.as_str(), t.as_str()), ("2000-01-01T00:00:00.000Z", "2024"));
}

#[test]
fn settings_and_origins() {
    assert!(signups_allowed(Some("true")) && !signups_allowed(Some("TRUE")) && signups_allowed(None));
    assert!(web_vault_enabled(None) && web_vault_enabled(Some("true")) && !web_vault_enabled(Some("no")));
    assert!(flag_setting(None, true));
    assert_eq!(domain_origin("https://vault.example.com/path").ok().unwrap(), "https://vault.example.com");
    match domain_origin("not a url") {
        Err(AppError::Internal(m)) => assert_eq!(m, "Invalid DOMAIN not a url: relative URL without a base"),
        _ => panic!("expected an internal error"),
    }
    assert_eq!(
        resolve_allowed_origin(Some("HTTPS://Vault.Example.com"), Some("https://vault.example.com/")),
        Some("HTTPS://Vault.Example.com".to_string())
    );
    assert_eq!(resolve_allowed_origin(Some("https://evil.test"), Some("https://vault.example.com")), None);
    assert_eq!(resolve_allowed_origin(None, Some("https://vault.example.com")), None);
    let h = cors_headers(Some("https://vault.example.com"), true);
    assert_eq!(h.len(), 6);
    assert_eq!(h[0], ("Access-Control-Allow-Origin".to_string(), "https://vault.example.com".to_string()));
    assert_eq!(h[5], ("Access-Control-Max-Age".to_string(), "86400".to_string()));
    assert_eq!(cors_headers(None, false).len(), 2);
    assert_eq!(security_headers().len(), 5);
    let c = ConfigResponse::for_domain("https://v.test");
    assert_eq!(c.environment.api, "https://v.test/api");
    assert_eq!(c.environment.notifications, "https://v.test/notifications");
    let ids = trusted_facet_ids(true, "https://v.test").ok().unwrap();
    assert_eq!(ids[0], "https://v.test");
    assert_eq!(ids.len(), 4);
    assert!(matches!(trusted_facet_ids(false, "x"), Err(AppError::NotFound(m)) if m == "Web vault disabled"));
}

#[test]
fn command_line_requests() {
    assert_eq!(endpoint("https://v.test//", "/api/sync"), "https://v.test/api/sync");
    assert_eq!(endpoint("https://v.test", "/api/sync"), "https://v.test/api/sync");
    assert_eq!(password_from_line("secret\n"), "secret");
    let r = registration_request("a@b.c", "", "h".into(), "k".into(), 600000, KeyPair { public_key: "p".into(), encrypted_private_key: "e".into() });
    assert_eq!(r.name, "a@b.c");
    assert_eq!((r.kdf, r.kdf_iterations), (0, 600000));
    let f = login_form("a@b.c", "hash");
    assert_eq!(f.len(), 8);
    assert_eq!(f[1], ("username".to_string(), "a@b.c".to_string()));
    assert_eq!(apikey_lines("42", "k"), "BW_CLIENTID=user.42\nBW_CLIENTSECRET=k\n");
}

#[test]
fn issued_tokens_split_back_into_what_was_signed() {
    let input = jwt_signing_input(b"{\"sub\":\"u1\",\"exp\":7}");
    assert_eq!(input, "eyJhbGciOiJSUzI1NiIsInR5cCI6IkpXVCJ9.eyJzdWIiOiJ1MSIsImV4cCI6N30");
    let token = jwt_with_signature(&input, &[1, 2, 3, 250]);
    assert_eq!(token, "eyJhbGciOiJSUzI1NiIsInR5cCI6IkpXVCJ9.eyJzdWIiOiJ1MSIsImV4cCI6N30.AQID-g");
    let parts = split_jwt(&token).ok().unwrap();
    assert_eq!(signed_part(&parts), input);
    assert_eq!(parts.signature, "AQID-g");
}

fn caller_with_stamp(stamp: &str) -> AuthenticatedUser {
    AuthenticatedUser {
        uuid: "u1".into(),
        email: "a@b.test".into(),
        name: "A".into(),
        premium: true,
        security_stamp: stamp.into(),
        device_uuid: "d1".into(),
        scope: vec!["api".into()],
    }
}

#[test]
fn security_stamp_must_be_current() {
    let u = user();
    assert!(check_security_stamp(&caller_with_stamp("stamp"), Some(&u)).is_ok());
    assert!(matches!(check_security_stamp(&caller_with_stamp("old"), Some(&u)),
        Err(AppError::Unauthorized(m)) if m == "Invalid security stamp"));
    assert!(matches!(check_security_stamp(&caller_with_stamp("stamp"), None),
        Err(AppError::Unauthorized(m)) if m == "Invalid security stamp"));
}

fn is_rfc3339_millis_utc(t: &str) -> bool {
    let b = t.as_bytes();
    b.len() == 24 && b[4] == b'-' && b[7] == b'-' && b[10] == b'T' && b[13] == b':' && b[16] == b':'
        && b[19] == b'.' && b[23] == b'Z'
}

#[test]
fn trash_cutoff_is_thirty_days_back() {
    let now = now_utc();
    let cutoff = trash_cutoff();
    assert!(is_rfc3339_millis_utc(&now), "{now}");
    assert!(is_rfc3339_millis_utc(&cutoff), "{cutoff}");
    assert!(cutoff < now);
    let days = |t: &str| -> i64 {
        let y: i64 = t[0..4].parse().unwrap();
        let m: i64 = t[5..7].parse().unwrap();
        let d: i64 = t[8..10].parse().unwrap();
        let (y, m) = if m <= 2 { (y - 1, m + 9) } else { (y, m - 3) };
        365 * y + y / 4 - y / 100 + y / 400 + (153 * m + 2) / 5 + d
    };
    let gap = days(&now) - days(&cutoff);
    assert!(gap == 30 || gap == 31, "{gap}");
}

fn unauthorized(r: Result<(), AppError>) -> String {
    match r {
        Err(AppError::Unauthorized(m)) => m,
        _ => panic!("expected an unauthorized refusal"),
    }
}

#[test]
fn payload_claims_are_checked() {
    let good = br#"{"exp":2000,"nbf":1000,"iss":"|orangevault|","type":"access_token","sub":"u"}"#;
    assert!(check_payload_claims(good, 1500, "access_token").is_ok());
    assert_eq!(unauthorized(check_payload_claims(good, 1500, "refresh_token")), "JWT type mismatch");
    assert_eq!(unauthorized(check_payload_claims(good, 2001, "access_token")), "JWT expired");
    assert_eq!(unauthorized(check_payload_claims(good, 990, "access_token")), "JWT not yet valid");
    assert_eq!(unauthorized(check_payload_claims(br#"{"nbf":1}"#, 5, "access_token")), "Missing exp claim");
    assert_eq!(unauthorized(check_payload_claims(br#"{"exp":9,"iss":"x"}"#, 5, "access_token")), "JWT issuer mismatch");
    assert_eq!(unauthorized(check_payload_claims(br#"{"exp":"9"}"#, 5, "access_token")), "Missing exp claim");
    assert!(unauthorized(check_payload_claims(b"not json", 5, "access_token")).starts_with("Invalid JWT claims: "));
}

#[test]
fn verified_token_yields_its_payload() {
    let payload = br#"{"exp":2000,"iss":"|orangevault|","type":"refresh_token"}"#.to_vec();
    let parts = JwtParts { header: "h".into(), payload: base64url_encode(&payload), signature: "s".into() };
    assert_eq!(accept_verified_jwt(&parts, true, 1500, "refresh_token").ok().unwrap(), payload);
    assert!(matches!(accept_verified_jwt(&parts, false, 1500, "refresh_token"),
        Err(AppError::Unauthorized(m)) if m == "Invalid JWT signature"));
    assert!(matches!(accept_verified_jwt(&parts, true, 1500, "access_token"),
        Err(AppError::Unauthorized(m)) if m == "JWT type mismatch"));
    let bad = JwtParts { header: "h".into(), payload: "!!".into(), signature: "s".into() };
    assert!(matches!(accept_verified_jwt(&bad, true, 1500, "refresh_token"), Err(AppError::BadRequest(_))));
}

#[test]
fn stored_domain_settings_read_json_or_nothing() {
    let (ex, groups) = stored_domain_settings(&Some("[1,5]".into()), &Some(r#"[["a.test","b.test"]]"#.into()));
    assert_eq!(ex, vec![1, 5]);
    assert_eq!(groups, vec![vec!["a.test".to_string(), "b.test".to_string()]]);
    let (ex, groups) = stored_domain_settings(&Some("oops".into()), &None);
    assert!(ex.is_empty() && groups.is_empty());
}

#[test]
fn uuid_layout() {
    let u = generate_uuid();
    let b = u.as_bytes();
    assert_eq!(b.len(), 36);
    for (i, c) in b.iter().enumerate() {
        if [8, 13, 18, 23].contains(&i) {
            assert_eq!(*c, b'-');
        } else {
            assert!(c.is_ascii_digit() || (b'a'..=b'f').contains(c), "{u}");
        }
    }
    assert_eq!(b[14], b'4');
    assert!(b"89ab".contains(&b[19]));
}
