use orangevault::api::sends::{
    access_password, check_download_subject, check_file_send_request, file_send_data, check_file_upload, check_send_available,
    check_send_owner, creator_to_show, extract_file_id, format_size, remove_send_password,
    send_download_url, send_file_key, send_password_check, send_upload_url, send_uuid_from_access_id,
    SendPasswordCheck,
};
use orangevault::db::models::Send;
use orangevault::error::AppError;
use orangevault::models::send::{send_access_id, SendRequest, SendResponse};

fn sample_send() -> Send {
    Send {
        uuid: "5f1c3e9a-0000-4000-8000-000000000001".to_string(),
        user_uuid: Some("user-1".to_string()),
        organization_uuid: None,
        atype: 0,
        name: "n".to_string(),
        notes: None,
        data: "{\"text\":\"hi\"}".to_string(),
        akey: "k".to_string(),
        password_hash: None,
        password_salt: None,
        password_iter: None,
        max_access_count: None,
        access_count: 0,
        disabled: false,
        hide_email: false,
        expiration_date: None,
        deletion_date: "2030-01-01T00:00:00.000Z".to_string(),
        created_at: "2024-01-01T00:00:00.000Z".to_string(),
        updated_at: "2024-01-01T00:00:00.000Z".to_string(),
    }
}

const NOW: &str = "2025-06-01T12:00:00.000Z";

#[test]
fn available_send_passes() {
    assert!(check_send_available(&sample_send(), NOW).is_ok());
}

#[test]
fn disabled_expired_deleted_or_exhausted_sends_are_unavailable() {
    let mut s = sample_send();
    s.disabled = true;
    assert!(matches!(check_send_available(&s, NOW), Err(AppError::NotFound(_))));

    let mut s = sample_send();
    s.expiration_date = Some("2025-06-01T12:00:00.000Z".to_string());
    assert!(check_send_available(&s, NOW).is_err());
    s.expiration_date = Some("2025-06-01T12:00:00.001Z".to_string());
    assert!(check_send_available(&s, NOW).is_ok());

    let mut s = sample_send();
    s.deletion_date = "2025-01-01T00:00:00.000Z".to_string();
    assert!(check_send_available(&s, NOW).is_err());

    let mut s = sample_send();
    s.max_access_count = Some(3);
    s.access_count = 3;
    match check_send_available(&s, NOW) {
        Err(AppError::NotFound(m)) => assert_eq!(m, "Send does not exist or is no longer available"),
        _ => panic!("expected not found"),
    }
    s.access_count = 2;
    assert!(check_send_available(&s, NOW).is_ok());
}

#[test]
fn only_the_owner_manages_a_send() {
    let s = sample_send();
    assert!(check_send_owner(&s, "user-1").is_ok());
    match check_send_owner(&s, "user-2") {
        Err(AppError::Forbidden(m)) => assert_eq!(m, "Not your send"),
        _ => panic!("expected forbidden"),
    }
}

#[test]
fn access_id_round_trips() {
    let uuid = "5f1c3e9a-0000-4000-8000-000000000001";
    let id = send_access_id(uuid);
    assert!(!id.contains('='));
    assert_eq!(send_uuid_from_access_id(&id).ok().unwrap(), uuid);
    assert_eq!(SendResponse::from_db(&sample_send()).access_id, id);
}

#[test]
fn bad_access_ids_name_no_send() {
    match send_uuid_from_access_id("***") {
        Err(AppError::NotFound(m)) => assert_eq!(m, "Send not found"),
        _ => panic!("expected not found"),
    }
    // Valid base64url of bytes that are not UTF-8.
    assert!(matches!(send_uuid_from_access_id("_w"), Err(AppError::NotFound(_))));
}

#[test]
fn file_locations() {
    assert_eq!(send_file_key("s1", "f1"), "sends/s1/f1");
    assert_eq!(
        send_upload_url("https://vault.example", "s1", "f1"),
        "https://vault.example/api/sends/s1/file/f1"
    );
    assert_eq!(
        send_download_url("https://vault.example", "s1", "f1", "tok"),
        "https://vault.example/api/sends/s1/f1?t=tok"
    );
}

#[test]
fn uploads_need_a_file_send_and_its_file_id() {
    let mut s = sample_send();
    assert!(matches!(check_file_upload(&s, "f", "f"), Err(AppError::BadRequest(m)) if m == "Send is not a file send"));
    s.atype = 1;
    assert!(matches!(check_file_upload(&s, "f", "g"), Err(AppError::BadRequest(m)) if m == "File ID mismatch"));
    assert!(check_file_upload(&s, "f", "f").is_ok());
}

#[test]
fn download_tokens_are_bound_to_send_and_file() {
    assert!(check_download_subject("s1/f1", "s1", "f1").is_ok());
    assert!(matches!(check_download_subject("s1/f2", "s1", "f1"), Err(AppError::Unauthorized(m)) if m == "Download token mismatch"));
}

#[test]
fn protected_sends_need_a_password() {
    let mut s = sample_send();
    assert_eq!(access_password(&s, Some("x".to_string())).ok().unwrap(), None);
    s.password_hash = Some("h".to_string());
    assert_eq!(access_password(&s, Some("x".to_string())).ok().unwrap(), Some("x".to_string()));
    assert!(matches!(access_password(&s, None), Err(AppError::Unauthorized(m)) if m == "Password not provided"));
}

#[test]
fn removing_the_password_clears_all_three_fields() {
    let mut s = sample_send();
    s.password_hash = Some("h".to_string());
    s.password_salt = Some("s".to_string());
    s.password_iter = Some(100000);
    remove_send_password(&mut s, "later".to_string());
    assert!(s.password_hash.is_none() && s.password_salt.is_none() && s.password_iter.is_none());
    assert_eq!(s.updated_at, "later");
}

#[test]
fn creator_email_hidden_on_request() {
    let mut s = sample_send();
    assert_eq!(creator_to_show(&s).map(|u| u.as_str()), Some("user-1"));
    s.hide_email = true;
    assert!(creator_to_show(&s).is_none());
}

#[test]
fn file_id_comes_from_send_data() {
    assert_eq!(extract_file_id("{\"id\":\"abc\",\"size\":\"3\"}").ok().unwrap(), "abc");
    assert!(matches!(extract_file_id("{\"size\":\"3\"}"), Err(AppError::Internal(m)) if m == "Missing file id in send data"));
    assert!(matches!(extract_file_id("{\"id\":3}"), Err(AppError::Internal(_))));
    assert!(matches!(extract_file_id("not json"), Err(AppError::Internal(m)) if m.starts_with("Invalid send data: ")));
}

fn float_size(bytes: i64) -> String {
    const KB: i64 = 1024;
    const MB: i64 = KB * 1024;
    const GB: i64 = MB * 1024;
    if bytes >= GB {
        format!("{:.1} GB", bytes as f64 / GB as f64)
    } else if bytes >= MB {
        format!("{:.1} MB", bytes as f64 / MB as f64)
    } else if bytes >= KB {
        format!("{:.1} KB", bytes as f64 / KB as f64)
    } else {
        format!("{bytes} Bytes")
    }
}

#[test]
fn format_size_examples() {
    assert_eq!(format_size(0), "0 Bytes");
    assert_eq!(format_size(1023), "1023 Bytes");
    assert_eq!(format_size(-5), "-5 Bytes");
    assert_eq!(format_size(1024), "1.0 KB");
    assert_eq!(format_size(1536), "1.5 KB");
    assert_eq!(format_size(1048576), "1.0 MB");
    assert_eq!(format_size(1073741824), "1.0 GB");
    assert_eq!(format_size(5 * 1073741824 + 536870912), "5.5 GB");
}

#[test]
fn format_size_agrees_with_float_formatting() {
    let mut samples: Vec<i64> = vec![
        1024, 1075, 1076, 1280, 1331, 1434, 1485, 1536, 2047, 2048, 10239, 10240, 1048575,
        1048576, 1101004, 1310720, 1363148, 1073741823, 1073741824, 1181116006, 1342177280,
        i64::MAX, i64::MAX - 1, i64::MAX / 3, (1i64 << 53) + 1, (1i64 << 53) - 1, (1i64 << 54) + 3,
        (1i64 << 60) + (1i64 << 7), (1i64 << 62) + 511, (1i64 << 62) + 512, (1i64 << 62) + 513,
    ];
    let mut x: i64 = 1024;
    while x < i64::MAX / 3 {
        samples.push(x);
        samples.push(x + x / 7);
        samples.push(x + x / 20);
        x = x / 2 * 3 + 17;
    }
    for k in 0..4096i64 {
        samples.push(1024 + k * 13);
        samples.push(1048576 + k * 12799);
    }
    for b in samples {
        assert_eq!(format_size(b), float_size(b), "bytes = {b}");
    }
}

fn file_request(file_length: Option<i64>) -> SendRequest {
    SendRequest {
        typ: 1,
        key: "k".to_string(),
        name: "n".to_string(),
        notes: None,
        text: None,
        file: Some("{\"fileName\":\"a.txt\"}".to_string()),
        file_length,
        password: None,
        max_access_count: None,
        expiration_date: None,
        deletion_date: "2030-01-01T00:00:00.000Z".to_string(),
        disabled: None,
        hide_email: None,
    }
}

#[test]
fn file_sends_refuse_declared_sizes_over_the_limit() {
    assert_eq!(check_file_send_request(&file_request(Some(104857600))).ok().unwrap(), "{\"fileName\":\"a.txt\"}");
    assert!(check_file_send_request(&file_request(None)).is_ok());
    for n in [104857601, -1] {
        match check_file_send_request(&file_request(Some(n))) {
            Err(AppError::PayloadTooLarge(m)) => assert_eq!(m, "Upload exceeds 104857600 byte limit"),
            _ => panic!("expected 413"),
        }
    }
}

#[test]
fn file_send_data_adds_id_and_size_members() {
    assert_eq!(
        file_send_data("{\"fileName\":\"a.txt\"}", "f1", Some(2048)),
        "{\"fileName\":\"a.txt\",\"id\":\"f1\",\"size\":\"2048\",\"sizeName\":\"2.0 KB\"}"
    );
    assert_eq!(file_send_data("{\"id\":\"old\"}", "f2", None), "{\"id\":\"f2\"}");
    assert_eq!(file_send_data("[1,2]", "f3", None), "[1,2]");
}

#[test]
fn send_password_plan_follows_stored_fields() {
    let mut s = sample_send();
    assert!(matches!(send_password_check(&s), Ok(SendPasswordCheck::NoPassword)));
    s.password_hash = Some("AQID".into());
    assert!(matches!(send_password_check(&s), Ok(SendPasswordCheck::NoSalt)));
    s.password_salt = Some("BAU=".into());
    s.password_iter = Some(1000);
    match send_password_check(&s) {
        Ok(SendPasswordCheck::Derive { stored, salt, iterations }) => {
            assert_eq!(stored, vec![1, 2, 3]);
            assert_eq!(salt, vec![4, 5]);
            assert_eq!(iterations, 1000);
        }
        _ => panic!("expected a derivation plan"),
    }
    s.password_salt = Some("not base64!".into());
    assert!(matches!(send_password_check(&s), Err(AppError::BadRequest(_))));
    s.password_hash = Some("%%".into());
    s.password_salt = None;
    assert!(matches!(send_password_check(&s), Err(AppError::BadRequest(_))));
}
