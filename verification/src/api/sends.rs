//! Sends: availability, ownership, creation and update, passwords, and the
//! ids and URLs recipients use.

use vstd::prelude::*;
use vstd::utf8::{decode_utf8, valid_utf8};
use crate::db::models::Send as DbSend;
use crate::error::AppError;
use crate::models::send::{opt_view, spec_access_id, SendRequest, SEND_TYPE_FILE, SEND_TYPE_TEXT};
use crate::digits::{decimal, digit_char, signed_decimal};
use crate::text::{concat, digit_char_exec, i64_to_decimal, lemma_lex_le_trans, lex_le, owned, push_char, push_decimal, str_eq, str_le};
use crate::util::{
    base64_decode, base64_encode, base64_text, base64url_decode, enforce_declared_size, generate_uuid, is_too_large,
    now_utc, rfc3339_millis, MAX_UPLOAD_BYTES,
};

verus! {

pub const SEND_PASSWORD_ITERATIONS: u32 = 100000;

pub open spec fn not_available_message() -> Seq<char> {
    "Send does not exist or is no longer available"@
}

/// A send can be accessed at time `now` (RFC 3339 text, compared as text):
/// not disabled, not past its expiration or deletion date, and under its
/// access limit.
pub open spec fn send_available(send: DbSend, now: Seq<char>) -> bool {
    &&& !send.disabled
    &&& !(send.expiration_date matches Some(e) && lex_le(e@, now))
    &&& !lex_le(send.deletion_date@, now)
    &&& !(send.max_access_count matches Some(m) && send.access_count >= m)
}

/// Check if a send is currently available (not expired, not deleted, not
/// disabled, not over its access limit).
pub fn check_send_available(send: &DbSend, now: &str) -> (r: Result<(), AppError>)
    ensures
        send_available(*send, now@) ==> r is Ok,
        !send_available(*send, now@) ==> (r matches Err(AppError::NotFound(m)) && m@ == not_available_message()),
{
    if send.disabled {
        return Err(not_available());
    }
    if let Some(exp) = &send.expiration_date {
        if str_le(exp.as_str(), now) {
            return Err(not_available());
        }
    }
    if str_le(send.deletion_date.as_str(), now) {
        return Err(not_available());
    }
    if let Some(max) = send.max_access_count {
        if send.access_count >= max {
            return Err(not_available());
        }
    }
    Ok(())
}

/// A send that is unavailable at some time stays unavailable at every
/// later time: expiry, deletion, disabling and the access limit never
/// lapse.
pub proof fn law_unavailable_stays_unavailable(send: DbSend, now: Seq<char>, later: Seq<char>)
    requires
        !send_available(send, now),
        lex_le(now, later),
    ensures
        !send_available(send, later),
{
    if let Some(e) = send.expiration_date {
        if lex_le(e@, now) {
            lemma_lex_le_trans(e@, now, later);
        }
    }
    if lex_le(send.deletion_date@, now) {
        lemma_lex_le_trans(send.deletion_date@, now, later);
    }
}

pub fn not_available() -> (e: AppError)
    ensures
        e matches AppError::NotFound(m) && m@ == not_available_message(),
{
    AppError::NotFound(owned("Send does not exist or is no longer available"))
}

/// Only the owner may read or change a send through the authenticated API.
pub fn check_send_owner(send: &DbSend, user_uuid: &str) -> (r: Result<(), AppError>)
    ensures
        (send.user_uuid matches Some(u) && u@ == user_uuid@) ==> r is Ok,
        !(send.user_uuid matches Some(u) && u@ == user_uuid@) ==> (r matches Err(AppError::Forbidden(m)) && m@
            == "Not your send"@),
{
    match &send.user_uuid {
        Some(u) => if str_eq(u.as_str(), user_uuid) {
            Ok(())
        } else {
            Err(AppError::Forbidden(owned("Not your send")))
        },
        None => Err(AppError::Forbidden(owned("Not your send"))),
    }
}

/// A text send may be created through `POST /sends`; file sends go through
/// the v2 file endpoint.
pub fn check_text_send_request(body: &SendRequest) -> (r: Result<(), AppError>)
    ensures
        body.typ != SEND_TYPE_FILE ==> r is Ok,
        body.typ == SEND_TYPE_FILE ==> (r matches Err(AppError::BadRequest(m)) && m@
            == "Use /sends/file/v2 for file sends"@),
{
    if body.typ == SEND_TYPE_FILE {
        return Err(AppError::BadRequest(owned("Use /sends/file/v2 for file sends")));
    }
    Ok(())
}

/// The stored data of a text send: the text object's JSON, or `null`.
pub fn text_send_data(text: Option<&str>) -> (r: String)
    ensures
        match text {
            Some(t) => r@ == t@,
            None => r@ == "null"@,
        },
{
    match text {
        Some(t) => owned(t),
        None => owned("null"),
    }
}

/// A v2 file send request must be of the file type and carry the file
/// object, and a declared file length must be within the upload limit: it
/// is checked before anything is stored or an upload URL is handed out.
/// Returns the file object's JSON.
pub fn check_file_send_request(body: &SendRequest) -> (r: Result<String, AppError>)
    ensures
        body.typ != SEND_TYPE_FILE ==> (r matches Err(AppError::BadRequest(m)) && m@ == "Expected file send type"@),
        body.typ == SEND_TYPE_FILE && body.file is None ==> (r matches Err(AppError::BadRequest(m)) && m@
            == "Missing file data for file send"@),
        body.typ == SEND_TYPE_FILE && body.file is Some && (body.file_length matches Some(n) && (n < 0 || n
            > MAX_UPLOAD_BYTES)) ==> (r matches Err(e) && is_too_large(e)),
        body.typ == SEND_TYPE_FILE && body.file is Some && !(body.file_length matches Some(n) && (n < 0 || n
            > MAX_UPLOAD_BYTES)) ==> (r matches Ok(f) && Some(f@) == opt_view(body.file)),
{
    if body.typ != SEND_TYPE_FILE {
        return Err(AppError::BadRequest(owned("Expected file send type")));
    }
    let f = match &body.file {
        None => return Err(AppError::BadRequest(owned("Missing file data for file send"))),
        Some(f) => f.clone(),
    };
    if let Some(n) = body.file_length {
        enforce_declared_size(n)?;
    }
    Ok(f)
}

/// The password to hash for a send: only a non-empty one.
pub fn send_password_to_hash(password: Option<&str>) -> (r: Option<&str>)
    ensures
        match password {
            Some(p) => if p@.len() > 0 {
                r == Some(p)
            } else {
                r is None
            },
            None => r is None,
        },
{
    match password {
        Some(p) => if p.unicode_len() > 0 {
            Some(p)
        } else {
            None
        },
        None => None,
    }
}

/// The stored `(hash, salt, iterations)` of a send password derived with
/// PBKDF2 from `salt`.
pub fn send_password_fields(hash: &[u8], salt: &[u8]) -> (r: (Option<String>, Option<String>, Option<i32>))
    ensures
        r.0 matches Some(h) && h@ == base64_text(hash@),
        r.1 matches Some(s) && s@ == base64_text(salt@),
        r.2 == Some(SEND_PASSWORD_ITERATIONS as i32),
{
    (Some(base64_encode(hash)), Some(base64_encode(salt)), Some(SEND_PASSWORD_ITERATIONS as i32))
}

/// How a submitted send password is checked.
pub enum SendPasswordCheck {
    /// The send has no password: any submission passes.
    NoPassword,
    /// A password hash without a salt: nothing passes.
    NoSalt,
    /// Derive PBKDF2 of the submission with `salt` and `iterations` and
    /// compare with `stored`.
    Derive { stored: Vec<u8>, salt: Vec<u8>, iterations: u32 },
}

/// The plan for checking a send password: none without a stored hash,
/// refusal without a salt, else derivation against the decoded hash and
/// salt. Undecodable stored values are bad requests.
pub fn send_password_check(send: &DbSend) -> (r: Result<SendPasswordCheck, AppError>)
    ensures
        send.password_hash is None ==> r matches Ok(SendPasswordCheck::NoPassword),
        send.password_hash is Some && send.password_salt is None ==> match r {
            Ok(c) => c is NoSalt,
            Err(e) => e is BadRequest,
        },
        r matches Ok(SendPasswordCheck::Derive { stored, salt, iterations }) ==> {
            &&& send.password_hash matches Some(h) && base64_text(stored@) == h@
            &&& send.password_salt matches Some(s) && base64_text(salt@) == s@
            &&& iterations == (match send.password_iter {
                Some(i) => i as u32,
                None => SEND_PASSWORD_ITERATIONS,
            })
        },
        forall|b: Seq<u8>|
            (send.password_hash matches Some(h) && #[trigger] base64_text(b) == h@ && send.password_salt is None)
                ==> r matches Ok(SendPasswordCheck::NoSalt),
        forall|b: Seq<u8>, c: Seq<u8>|
            (send.password_hash matches Some(h) && send.password_salt matches Some(s) && #[trigger] base64_text(b)
                == h@ && #[trigger] base64_text(c) == s@) ==> (r matches Ok(
                SendPasswordCheck::Derive { stored, salt, .. },
            ) && stored@ == b && salt@ == c),
        r matches Err(e) ==> e is BadRequest,
{
    let stored = match &send.password_hash {
        Some(h) => base64_decode(h.as_str())?,
        None => return Ok(SendPasswordCheck::NoPassword),
    };
    let salt = match &send.password_salt {
        Some(s) => base64_decode(s.as_str())?,
        None => return Ok(SendPasswordCheck::NoSalt),
    };
    let iterations = match send.password_iter {
        Some(i) => i as u32,
        None => SEND_PASSWORD_ITERATIONS,
    };
    Ok(SendPasswordCheck::Derive { stored, salt, iterations })
}

/// Clears a send's password.
pub fn remove_send_password(send: &mut DbSend, now: String)
    ensures
        final(send).password_hash is None,
        final(send).password_salt is None,
        final(send).password_iter is None,
        final(send).updated_at == now,
        final(send).uuid == old(send).uuid,
        final(send).user_uuid == old(send).user_uuid,
        final(send).data == old(send).data,
        final(send).atype == old(send).atype,
{
    send.password_hash = None;
    send.password_salt = None;
    send.password_iter = None;
    send.updated_at = now;
}

/// Build a new send from a request body and its computed data field; the
/// id is a fresh UUID and both timestamps are the current time.
pub fn new_send_from_request(
    user_uuid: String,
    body: SendRequest,
    atype: i32,
    data: String,
    pw_hash: Option<String>,
    pw_salt: Option<String>,
    pw_iter: Option<i32>,
) -> (s: DbSend)
    ensures
        s.user_uuid == Some(user_uuid),
        s.organization_uuid is None,
        s.atype == atype,
        s.name == body.name,
        s.notes == body.notes,
        s.data == data,
        s.akey == body.key,
        s.password_hash == pw_hash,
        s.password_salt == pw_salt,
        s.password_iter == pw_iter,
        s.max_access_count == body.max_access_count,
        s.access_count == 0,
        s.disabled == (match body.disabled {
            Some(d) => d,
            None => false,
        }),
        s.hide_email == (match body.hide_email {
            Some(h) => h,
            None => false,
        }),
        s.expiration_date == body.expiration_date,
        s.deletion_date == body.deletion_date,
        s.created_at == s.updated_at,
        exists|ms: int| s.created_at@ == #[trigger] rfc3339_millis(ms),
        s.uuid@.len() == 36,
{
    let now = now_utc();
    let disabled = match body.disabled {
        Some(d) => d,
        None => false,
    };
    let hide_email = match body.hide_email {
        Some(h) => h,
        None => false,
    };
    DbSend {
        uuid: generate_uuid(),
        user_uuid: Some(user_uuid),
        organization_uuid: None,
        atype,
        name: body.name,
        notes: body.notes,
        data,
        akey: body.key,
        password_hash: pw_hash,
        password_salt: pw_salt,
        password_iter: pw_iter,
        max_access_count: body.max_access_count,
        access_count: 0,
        disabled,
        hide_email,
        expiration_date: body.expiration_date,
        deletion_date: body.deletion_date,
        created_at: now.clone(),
        updated_at: now,
    }
}

/// Applies an update request to an owned send. The data of a text send
/// follows the request's text; a file send's data never changes. Flags the
/// request leaves out keep their value. The password is handled apart.
pub fn apply_send_update(send: &mut DbSend, body: SendRequest, now: String)
    ensures
        final(send).uuid == old(send).uuid,
        final(send).user_uuid == old(send).user_uuid,
        final(send).organization_uuid == old(send).organization_uuid,
        final(send).atype == old(send).atype,
        final(send).name == body.name,
        final(send).notes == body.notes,
        final(send).akey == body.key,
        final(send).max_access_count == body.max_access_count,
        final(send).expiration_date == body.expiration_date,
        final(send).deletion_date == body.deletion_date,
        final(send).disabled == (match body.disabled {
            Some(d) => d,
            None => old(send).disabled,
        }),
        final(send).hide_email == (match body.hide_email {
            Some(h) => h,
            None => old(send).hide_email,
        }),
        final(send).data == (if old(send).atype == SEND_TYPE_TEXT && body.text is Some {
            body.text->0
        } else {
            old(send).data
        }),
        final(send).password_hash == old(send).password_hash,
        final(send).password_salt == old(send).password_salt,
        final(send).password_iter == old(send).password_iter,
        final(send).access_count == old(send).access_count,
        final(send).created_at == old(send).created_at,
        final(send).updated_at == now,
{
    send.name = body.name;
    send.notes = body.notes;
    send.akey = body.key;
    send.max_access_count = body.max_access_count;
    send.expiration_date = body.expiration_date;
    send.deletion_date = body.deletion_date;
    if let Some(d) = body.disabled {
        send.disabled = d;
    }
    if let Some(h) = body.hide_email {
        send.hide_email = h;
    }
    if send.atype == SEND_TYPE_TEXT {
        if let Some(text) = body.text {
            send.data = text;
        }
    }
    send.updated_at = now;
}

/// The error type of `String::from_utf8`.
#[verifier::external_type_specification]
#[verifier::external_body]
pub struct ExFromUtf8Error(std::string::FromUtf8Error);

/// `String::from_utf8`: the text the bytes encode, when they are valid UTF-8.
#[verifier::external_body]
fn string_from_utf8(bytes: Vec<u8>) -> (r: Result<String, std::string::FromUtf8Error>)
    ensures
        r is Ok <==> valid_utf8(bytes@),
        r matches Ok(s) ==> s@ == decode_utf8(bytes@),
{
    String::from_utf8(bytes)
}

/// The send UUID an access id stands for; an id that is not URL-safe
/// base64 of UTF-8 text names no send.
pub fn send_uuid_from_access_id(access_id: &str) -> (r: Result<String, AppError>)
    ensures
        r matches Ok(u) ==> spec_access_id(u@) == access_id@,
        r matches Err(e) ==> (e matches AppError::NotFound(m) && m@ == "Send not found"@),
        forall|u: Seq<char>| #[trigger] spec_access_id(u) == access_id@ ==> (r matches Ok(v) && v@ == u),
{
    let bytes = match base64url_decode(access_id) {
        Ok(b) => b,
        Err(_) => return Err(AppError::NotFound(owned("Send not found"))),
    };
    let ghost b = bytes@;
    match string_from_utf8(bytes) {
        Ok(s) => {
            proof {
                vstd::utf8::decode_utf8_encode_utf8(b);
                assert forall|u: Seq<char>| #[trigger] spec_access_id(u) == access_id@ implies s@ == u by {
                    vstd::utf8::encode_utf8_decode_utf8(u);
                }
            }
            Ok(s)
        },
        Err(_) => {
            proof {
                assert forall|u: Seq<char>| #[trigger] spec_access_id(u) == access_id@ implies false by {
                    vstd::utf8::encode_utf8_valid_utf8(u);
                }
            }
            Err(AppError::NotFound(owned("Send not found")))
        },
    }
}


// --- files ---

/// The object-store key of a send's file: `sends/{send}/{file}`.
pub fn send_file_key(send_uuid: &str, file_id: &str) -> (r: String)
    ensures
        r@ == "sends/"@ + send_uuid@.push('/') + file_id@,
{
    let mut r = concat("sends/", send_uuid);
    push_char(&mut r, '/');
    r.append(file_id);
    proof {
        assert(r@ =~= "sends/"@ + send_uuid@.push('/') + file_id@);
    }
    r
}

/// Where a file send's content is uploaded:
/// `{domain}/api/sends/{send}/file/{file}`.
pub fn send_upload_url(domain: &str, send_uuid: &str, file_id: &str) -> (r: String)
    ensures
        r@ == domain@ + "/api/sends/"@ + send_uuid@ + "/file/"@ + file_id@,
{
    let mut r = concat(domain, "/api/sends/");
    r.append(send_uuid);
    r.append("/file/");
    r.append(file_id);
    proof {
        assert(r@ =~= domain@ + "/api/sends/"@ + send_uuid@ + "/file/"@ + file_id@);
    }
    r
}

/// Where a recipient downloads a send's file with a download token:
/// `{domain}/api/sends/{send}/{file}?t={token}`.
pub fn send_download_url(domain: &str, send_id: &str, file_id: &str, token: &str) -> (r: String)
    ensures
        r@ == domain@ + "/api/sends/"@ + send_id@.push('/') + file_id@ + "?t="@ + token@,
{
    let mut r = concat(domain, "/api/sends/");
    r.append(send_id);
    push_char(&mut r, '/');
    r.append(file_id);
    r.append("?t=");
    r.append(token);
    proof {
        assert(r@ =~= domain@ + "/api/sends/"@ + send_id@.push('/') + file_id@ + "?t="@ + token@);
    }
    r
}

/// File content may be uploaded only to a file send, under the file id
/// that the send was created with.
pub fn check_file_upload(send: &DbSend, file_id: &str, stored_file_id: &str) -> (r: Result<(), AppError>)
    ensures
        send.atype != SEND_TYPE_FILE ==> (r matches Err(AppError::BadRequest(m)) && m@
            == "Send is not a file send"@),
        send.atype == SEND_TYPE_FILE && file_id@ != stored_file_id@ ==> (r matches Err(
            AppError::BadRequest(m),
        ) && m@ == "File ID mismatch"@),
        send.atype == SEND_TYPE_FILE && file_id@ == stored_file_id@ ==> r is Ok,
{
    if send.atype != SEND_TYPE_FILE {
        return Err(AppError::BadRequest(owned("Send is not a file send")));
    }
    if !str_eq(file_id, stored_file_id) {
        return Err(AppError::BadRequest(owned("File ID mismatch")));
    }
    Ok(())
}

/// A download token is honoured only for the send and file it was minted
/// for.
pub fn check_download_subject(subject: &str, send_id: &str, file_id: &str) -> (r: Result<(), AppError>)
    ensures
        subject@ == send_id@.push('/') + file_id@ <==> r is Ok,
        r is Err ==> (r matches Err(AppError::Unauthorized(m)) && m@ == "Download token mismatch"@),
{
    let expected = crate::auth::jwt::send_access_subject(send_id, file_id);
    if !str_eq(subject, expected.as_str()) {
        return Err(AppError::Unauthorized(owned("Download token mismatch")));
    }
    Ok(())
}

/// A password-protected send needs a password in the access request; the
/// password to check is returned.
pub fn access_password(send: &DbSend, password: Option<String>) -> (r: Result<Option<String>, AppError>)
    ensures
        send.password_hash is None ==> r == Ok::<Option<String>, AppError>(None),
        send.password_hash is Some ==> match password {
            Some(p) => r == Ok::<Option<String>, AppError>(Some(p)),
            None => r matches Err(AppError::Unauthorized(m)) && m@ == "Password not provided"@,
        },
{
    if send.password_hash.is_none() {
        return Ok(None);
    }
    match password {
        Some(p) => Ok(Some(p)),
        None => Err(AppError::Unauthorized(owned("Password not provided"))),
    }
}

/// The answer when a send password does not check out.
pub fn require_send_password(valid: bool) -> (r: Result<(), AppError>)
    ensures
        valid <==> r is Ok,
        !valid ==> (r matches Err(AppError::Unauthorized(m)) && m@ == "Invalid password"@),
{
    if !valid {
        return Err(AppError::Unauthorized(owned("Invalid password")));
    }
    Ok(())
}

/// The user whose email a recipient is shown: the creator, unless the
/// send hides it.
pub fn creator_to_show(send: &DbSend) -> (r: Option<&String>)
    ensures
        send.hide_email ==> r is None,
        !send.hide_email ==> r == match send.user_uuid {
            Some(u) => Some(&u),
            None => None::<&String>,
        },
{
    if send.hide_email {
        None
    } else {
        match &send.user_uuid {
            Some(u) => Some(u),
            None => None,
        }
    }
}

/// What `serde_json` makes of `text` and its top-level member `key`:
/// `None` when the text is not JSON; `Some(None)` when it has no such
/// member (or is not an object); `Some(Some(None))` when the member is not
/// a string; else the member's text.
pub uninterp spec fn json_member(text: Seq<char>, key: Seq<char>) -> Option<Option<Option<Seq<char>>>>;

/// Parses `text` with `serde_json::from_str::<serde_json::Value>` and looks
/// up member `key` (`Value::get`), reading it as a string (`Value::as_str`).
/// On a parse error, the error's message.
#[verifier::external_body]
fn json_member_text(text: &str, key: &str) -> (r: Result<Option<Option<String>>, String>)
    ensures
        match r {
            Ok(None) => json_member(text@, key@) == Some(None::<Option<Seq<char>>>),
            Ok(Some(t)) => json_member(text@, key@) == Some(Some(opt_view(t))),
            Err(_) => json_member(text@, key@) is None,
        },
{
    match serde_json::from_str::<serde_json::Value>(text) {
        Ok(v) => Ok(v.get(key).map(|x| x.as_str().map(|t| t.to_string()))),
        Err(e) => Err(e.to_string()),
    }
}

/// The file id recorded in a file send's data (its `id` member).
pub fn extract_file_id(data: &str) -> (r: Result<String, AppError>)
    ensures
        match json_member(data@, "id"@) {
            Some(Some(Some(id))) => r matches Ok(s) && s@ == id,
            Some(_) => r matches Err(AppError::Internal(m)) && m@ == "Missing file id in send data"@,
            None => r matches Err(AppError::Internal(_)),
        },
{
    match json_member_text(data, "id") {
        Ok(Some(Some(id))) => Ok(id),
        Ok(_) => Err(AppError::Internal(owned("Missing file id in send data"))),
        Err(e) => Err(AppError::Internal(concat("Invalid send data: ", e.as_str()))),
    }
}

/// The object-store key of a stored send's file, for the file id under
/// member `id` of its data; `None` when the data holds no such text.
pub fn stored_file_key(send: &DbSend) -> (r: Option<String>)
    ensures
        match json_member(send.data@, "id"@) {
            Some(Some(Some(id))) => r matches Some(k) && k@ == "sends/"@ + send.uuid@.push('/') + id,
            _ => r is None,
        },
{
    match json_member_text(send.data.as_str(), "id") {
        Ok(Some(Some(id))) => Some(send_file_key(send.uuid.as_str(), id.as_str())),
        _ => None,
    }
}

/// The object-store key of a send's file when its account is deleted: the
/// file id is member `Id` of the data, or `id` when there is no `Id`
/// member at all.
pub fn account_file_key(send: &DbSend) -> (r: Option<String>)
    ensures
        match json_member(send.data@, "Id"@) {
            Some(Some(Some(id))) => r matches Some(k) && k@ == "sends/"@ + send.uuid@.push('/') + id,
            Some(None) => match json_member(send.data@, "id"@) {
                Some(Some(Some(id))) => r matches Some(k) && k@ == "sends/"@ + send.uuid@.push('/') + id,
                _ => r is None,
            },
            _ => r is None,
        },
{
    match json_member_text(send.data.as_str(), "Id") {
        Ok(Some(Some(id))) => Some(send_file_key(send.uuid.as_str(), id.as_str())),
        Ok(None) => stored_file_key(send),
        _ => None,
    }
}

#[verifier::external_type_specification]
#[verifier::external_body]
pub struct ExJsonValue(serde_json::Value);

#[verifier::external_type_specification]
#[verifier::external_body]
#[verifier::reject_recursive_types(K)]
#[verifier::reject_recursive_types(V)]
pub struct ExJsonMap<K, V>(serde_json::Map<K, V>);

/// The members of a JSON object held by `serde_json`: each key with the
/// JSON text `serde_json` writes for its value.
pub uninterp spec fn json_map_members(m: serde_json::Map<String, serde_json::Value>) -> Map<Seq<char>, Seq<char>>;

/// The members of the object `serde_json::from_str::<serde_json::Value>`
/// reads from `text`; `None` when the text is not JSON or not an object.
pub uninterp spec fn json_object_members(text: Seq<char>) -> Option<Map<Seq<char>, Seq<char>>>;

/// The JSON text `serde_json` writes for the string `s`.
pub uninterp spec fn json_string_text(s: Seq<char>) -> Seq<char>;

/// The text `serde_json::to_string` writes for an object with `members`
/// (its map keeps keys sorted, so the text depends on the members alone).
pub uninterp spec fn json_object_text(members: Map<Seq<char>, Seq<char>>) -> Seq<char>;

/// `serde_json::from_str::<serde_json::Value>`, keeping the map of an
/// object; any other value, and text that is not JSON, gives `None`.
#[verifier::external_body]
fn parse_json_object(text: &str) -> (r: Option<serde_json::Map<String, serde_json::Value>>)
    ensures
        match r {
            Some(m) => json_object_members(text@) == Some(json_map_members(m)),
            None => json_object_members(text@) is None,
        },
{
    match serde_json::from_str::<serde_json::Value>(text) {
        Ok(serde_json::Value::Object(m)) => Some(m),
        Ok(_) => None,
        Err(_) => None,
    }
}

/// `Map::insert` of `key` with the value `Value::String(value)`.
#[verifier::external_body]
fn insert_text_member(m: &mut serde_json::Map<String, serde_json::Value>, key: &str, value: &str)
    ensures
        json_map_members(*final(m)) == json_map_members(*old(m)).insert(key@, json_string_text(value@)),
{
    m.insert(key.to_string(), serde_json::Value::String(value.to_string()));
}

/// `serde_json::to_string` of the object with map `m`. serde_json fails
/// only for a map with non-string keys or a value whose serializer fails,
/// and a `Value` has neither.
#[verifier::external_body]
fn serialize_json_object(m: serde_json::Map<String, serde_json::Value>) -> (r: Result<String, String>)
    ensures
        r is Ok,
        r matches Ok(t) ==> t@ == json_object_text(json_map_members(m)),
{
    serde_json::to_string(&serde_json::Value::Object(m)).map_err(|e| e.to_string())
}

/// The members of a new file send's file object: the client's members with
/// the file's `id`, and, when its length was given, its `size` in bytes and
/// its human-readable `sizeName`, each as a JSON string.
pub open spec fn file_members(members: Map<Seq<char>, Seq<char>>, file_id: Seq<char>, file_length: Option<i64>) -> Map<
    Seq<char>,
    Seq<char>,
> {
    let with_id = members.insert("id"@, json_string_text(file_id));
    match file_length {
        None => with_id,
        Some(n) => with_id.insert("size"@, json_string_text(signed_decimal(n as int))).insert(
            "sizeName"@,
            json_string_text(size_name(n)),
        ),
    }
}

/// The data of a new file send: the client's file object with the new
/// file's `id` and, when the client gave the file's length, its `size` and
/// `sizeName`. JSON that is not an object is stored as it came.
pub fn file_send_data(file_json: &str, file_id: &str, file_length: Option<i64>) -> (r: String)
    ensures
        match json_object_members(file_json@) {
            None => r@ == file_json@,
            Some(members) => r@ == json_object_text(file_members(members, file_id@, file_length)),
        },
{
    let mut obj = match parse_json_object(file_json) {
        Some(m) => m,
        None => return owned(file_json),
    };
    insert_text_member(&mut obj, "id", file_id);
    if let Some(n) = file_length {
        let size = i64_to_decimal(n);
        insert_text_member(&mut obj, "size", size.as_str());
        let name = format_size(n);
        insert_text_member(&mut obj, "sizeName", name.as_str());
    }
    match serialize_json_object(obj) {
        Ok(t) => t,
        Err(_) => String::new(),
    }
}

// --- file sizes ---

/// Two to the power `e`.
pub open spec fn pow2n(e: nat) -> nat
    decreases e,
{
    if e == 0 {
        1
    } else {
        2 * pow2n((e - 1) as nat)
    }
}

/// The number of binary digits of `n`.
pub open spec fn bit_length(n: nat) -> nat
    decreases n,
{
    if n == 0 {
        0
    } else {
        1 + bit_length(n / 2)
    }
}

/// The spacing of 64-bit floats around `n`: 1 up to 53 bits, doubling with
/// each further bit.
pub open spec fn float_spacing(n: nat) -> nat {
    if bit_length(n) > 53 {
        pow2n((bit_length(n) - 53) as nat)
    } else {
        1
    }
}

/// `n` as a 64-bit float holds it: rounded to the nearest multiple of the
/// spacing, ties to the even multiple.
pub open spec fn as_float(n: nat) -> nat {
    let p = float_spacing(n);
    let q = n / p;
    let r = n % p;
    if p > 1 && (2 * r > p || (2 * r == p && q % 2 == 1)) {
        (q + 1) * p
    } else {
        q * p
    }
}

/// `m / d` in tenths, rounded to the nearest tenth, ties to even.
pub open spec fn tenths(m: nat, d: nat) -> nat {
    let t = m * 10 / d;
    let r = m * 10 % d;
    if 2 * r > d || (2 * r == d && t % 2 == 1) {
        t + 1
    } else {
        t
    }
}

/// A number of tenths with one decimal place.
pub open spec fn one_decimal(t: nat) -> Seq<char> {
    decimal(t / 10) + seq!['.', digit_char((t % 10) as int)]
}

pub const KB: i64 = 1024;
pub const MB: i64 = 1048576;
pub const GB: i64 = 1073741824;

/// A file size for people: bytes below a kilobyte, else kilobytes,
/// megabytes or gigabytes (of 1024) with one decimal, computed as the
/// 64-bit float quotient, to the nearest tenth.
pub open spec fn size_name(bytes: i64) -> Seq<char> {
    if bytes >= GB {
        one_decimal(tenths(as_float(bytes as nat), GB as nat)) + " GB"@
    } else if bytes >= MB {
        one_decimal(tenths(as_float(bytes as nat), MB as nat)) + " MB"@
    } else if bytes >= KB {
        one_decimal(tenths(as_float(bytes as nat), KB as nat)) + " KB"@
    } else {
        signed_decimal(bytes as int) + " Bytes"@
    }
}

proof fn lemma_bit_length_bound(n: nat, e: nat)
    requires
        n < pow2n(e),
    ensures
        bit_length(n) <= e,
    decreases e,
{
    if n > 0 {
        assert(e > 0);
        lemma_bit_length_bound(n / 2, (e - 1) as nat);
    }
}

fn bit_length_exec(n: u64) -> (r: u32)
    ensures
        r == bit_length(n as nat),
        r <= 64,
{
    let mut cur = n;
    let mut count: u32 = 0;
    proof {
        lemma_pow2n_64();
    }
    while cur > 0
        invariant
            count + bit_length(cur as nat) == bit_length(n as nat),
            count <= 64,
            cur < pow2n((64 - count) as nat),
        decreases cur,
    {
        proof {
            assert(pow2n((64 - count) as nat) == 2 * pow2n((64 - count - 1) as nat));
        }
        cur = cur / 2;
        count = count + 1;
    }
    proof {
        lemma_pow2n_64();
        lemma_bit_length_bound(n as nat, 64);
    }
    count
}

proof fn lemma_pow2n_64()
    ensures
        pow2n(64) == 0x1_0000_0000_0000_0000,
        pow2n(53) == 0x20_0000_0000_0000,
{
    reveal_with_fuel(pow2n, 65);
}

fn pow2_exec(e: u32) -> (r: u128)
    requires
        e <= 64,
    ensures
        r == pow2n(e as nat),
        r <= 0x1_0000_0000_0000_0000,
{
    let mut r: u128 = 1;
    let mut j: u32 = 0;
    while j < e
        invariant
            j <= e <= 64,
            r == pow2n(j as nat),
            r <= pow2n(j as nat),
            pow2n(j as nat) <= pow2n(64) ==> r <= 0x1_0000_0000_0000_0000,
        decreases e - j,
    {
        proof {
            lemma_pow2n_mono(j as nat + 1, 64);
            lemma_pow2n_64();
        }
        r = r * 2;
        j = j + 1;
    }
    proof {
        lemma_pow2n_mono(e as nat, 64);
        lemma_pow2n_64();
    }
    r
}

proof fn lemma_pow2n_mono(a: nat, b: nat)
    requires
        a <= b,
    ensures
        1 <= pow2n(a) <= pow2n(b),
    decreases b,
{
    if b > 0 {
        if a < b {
            lemma_pow2n_mono(a, (b - 1) as nat);
        } else {
            lemma_pow2n_mono((b - 1) as nat, (b - 1) as nat);
        }
    }
}

/// `n` as a 64-bit float holds it.
fn as_float_exec(n: u64) -> (r: u128)
    ensures
        r == as_float(n as nat),
        r <= 0x1_0000_0000_0000_0000 + 0x1_0000_0000_0000_0000,
{
    let b = bit_length_exec(n);
    let p: u128 = if b > 53 {
        pow2_exec(b - 53)
    } else {
        1
    };
    proof {
        if b > 53 {
            lemma_pow2n_mono((b - 53) as nat, 64);
        }
    }
    let nn = n as u128;
    let q = nn / p;
    let r = nn % p;
    assert(q * p <= nn) by (nonlinear_arith)
        requires
            q == nn / p,
            p >= 1,
    ;
    if p > 1 && (2 * r > p || (2 * r == p && q % 2 == 1)) {
        assert((q + 1) * p <= nn + p) by (nonlinear_arith)
            requires
                q * p <= nn,
        ;
        (q + 1) * p
    } else {
        q * p
    }
}

fn push_one_decimal(s: &mut String, t: u128)
    requires
        t / 10 <= u64::MAX,
    ensures
        final(s)@ == old(s)@ + one_decimal(t as nat),
{
    push_decimal(s, (t / 10) as u64);
    push_char(s, '.');
    push_char(s, digit_char_exec((t % 10) as u64));
    assert(final(s)@ =~= old(s)@ + one_decimal(t as nat));
}

fn tenths_exec(m: u128, d: u128) -> (r: u128)
    requires
        0 < d <= 0x1_0000_0000,
        m <= 0x2_0000_0000_0000_0000,
    ensures
        r == tenths(m as nat, d as nat),
        r <= (m * 10) as int / (d as int) + 1,
{
    let t = m * 10 / d;
    let rem = m * 10 % d;
    if 2 * rem > d || (2 * rem == d && t % 2 == 1) {
        t + 1
    } else {
        t
    }
}

/// The human-readable size of a file of `bytes` bytes.
pub fn format_size(bytes: i64) -> (r: String)
    ensures
        r@ == size_name(bytes),
{
    if bytes < KB {
        let mut r = i64_to_decimal(bytes);
        r.append(" Bytes");
        return r;
    }
    let d: i64 = if bytes >= GB {
        GB
    } else if bytes >= MB {
        MB
    } else {
        KB
    };
    let m = as_float_exec(bytes as u64);
    let t = tenths_exec(m, d as u128);
    assert((m * 10) as int / (d as int) <= (m * 10) as int / 1024) by (nonlinear_arith)
        requires
            d >= 1024,
            m * 10 >= 0,
    ;
    let mut r = String::new();
    push_one_decimal(&mut r, t);
    if bytes >= GB {
        r.append(" GB");
    } else if bytes >= MB {
        r.append(" MB");
    } else {
        r.append(" KB");
    }
    r
}

} // verus!
