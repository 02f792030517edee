//! Sends: the owner's view, the anonymous recipient's view, and requests.

use vstd::prelude::*;
use crate::db::models::Send as DbSend;
use crate::text::owned;
use crate::util::{base64url_encode, base64url_text};
use vstd::utf8::encode_utf8;

verus! {

/// Send type constants.
pub const SEND_TYPE_TEXT: i32 = 0;
pub const SEND_TYPE_FILE: i32 = 1;

/// Which of the `text` and `file` fields a send's stored data fills:
/// `text` for text sends, `file` for file sends, neither otherwise.
pub open spec fn spec_send_payload(atype: i32, data: Seq<char>) -> (Option<Seq<char>>, Option<Seq<char>>) {
    if atype == SEND_TYPE_TEXT {
        (Some(data), None)
    } else if atype == SEND_TYPE_FILE {
        (None, Some(data))
    } else {
        (None, None)
    }
}

/// A text send (type 0) shows its data as text and no file; a file send
/// (type 1) shows its data as a file and no text; any other type shows
/// neither.
pub proof fn law_send_shows_data_by_type(atype: i32, data: Seq<char>)
    ensures
        atype == 0 ==> spec_send_payload(atype, data) == (Some(data), None::<Seq<char>>),
        atype == 1 ==> spec_send_payload(atype, data) == (None::<Seq<char>>, Some(data)),
        atype != 0 && atype != 1 ==> spec_send_payload(atype, data) == (None::<Seq<char>>, None::<Seq<char>>),
{
}

pub open spec fn opt_view(o: Option<String>) -> Option<Seq<char>> {
    match o {
        Some(s) => Some(s@),
        None => None,
    }
}

/// Split a send's data into its `(text, file)` fields by send type. The
/// JSON text is parsed where the response is rendered; text that does not
/// parse renders as absent.
pub fn send_payload(atype: i32, data: &str) -> (r: (Option<String>, Option<String>))
    ensures
        (opt_view(r.0), opt_view(r.1)) == spec_send_payload(atype, data@),
{
    if atype == SEND_TYPE_TEXT {
        (Some(owned(data)), None)
    } else if atype == SEND_TYPE_FILE {
        (None, Some(owned(data)))
    } else {
        (None, None)
    }
}

/// The owner's view of a send.
pub struct SendResponse {
    pub id: String,
    pub access_id: String,
    pub typ: i32,
    pub name: String,
    pub notes: Option<String>,
    /// JSON text of the file object
    pub file: Option<String>,
    /// JSON text of the text object
    pub text: Option<String>,
    pub key: String,
    pub max_access_count: Option<i32>,
    pub access_count: i32,
    pub password: Option<String>,
    pub disabled: bool,
    pub hide_email: bool,
    pub revision_date: String,
    pub expiration_date: Option<String>,
    pub deletion_date: String,
    pub object: String,
}

/// The public id recipients use: the send's UUID in URL-safe base64.
pub open spec fn spec_access_id(uuid: Seq<char>) -> Seq<char> {
    base64url_text(encode_utf8(uuid))
}

pub fn send_access_id(uuid: &str) -> (r: String)
    ensures
        r@ == spec_access_id(uuid@),
{
    base64url_encode(uuid.as_bytes())
}

impl SendResponse {
    pub fn from_db(s: &DbSend) -> (r: SendResponse)
        ensures
            r.id == s.uuid,
            r.access_id@ == spec_access_id(s.uuid@),
            r.typ == s.atype,
            r.name == s.name,
            r.notes == s.notes,
            (opt_view(r.text), opt_view(r.file)) == spec_send_payload(s.atype, s.data@),
            r.key == s.akey,
            r.max_access_count == s.max_access_count,
            r.access_count == s.access_count,
            // Clients use the presence of this field to know a send is password-protected.
            match s.password_hash {
                Some(h) => r.password matches Some(p) && p@ == base64url_text(encode_utf8(h@)),
                None => r.password is None,
            },
            r.disabled == s.disabled,
            r.hide_email == s.hide_email,
            r.revision_date == s.updated_at,
            r.expiration_date == s.expiration_date,
            r.deletion_date == s.deletion_date,
            r.object@ == "send"@,
    {
        let access_id = send_access_id(s.uuid.as_str());
        let (text, file) = send_payload(s.atype, s.data.as_str());
        let password = match &s.password_hash {
            Some(h) => Some(base64url_encode(h.as_str().as_bytes())),
            None => None,
        };
        SendResponse {
            id: s.uuid.clone(),
            access_id,
            typ: s.atype,
            name: s.name.clone(),
            notes: s.notes.clone(),
            file,
            text,
            key: s.akey.clone(),
            max_access_count: s.max_access_count,
            access_count: s.access_count,
            password,
            disabled: s.disabled,
            hide_email: s.hide_email,
            revision_date: s.updated_at.clone(),
            expiration_date: s.expiration_date.clone(),
            deletion_date: s.deletion_date.clone(),
            object: owned("send"),
        }
    }
}

/// What an anonymous recipient sees of a send.
pub struct SendAccessResponse {
    pub id: String,
    pub typ: i32,
    pub name: String,
    pub text: Option<String>,
    pub file: Option<String>,
    pub expiration_date: Option<String>,
    pub creator_identifier: Option<String>,
    pub object: String,
}

impl SendAccessResponse {
    pub fn from_db(s: &DbSend, creator_email: Option<&str>) -> (r: SendAccessResponse)
        ensures
            r.id == s.uuid,
            r.typ == s.atype,
            r.name == s.name,
            (opt_view(r.text), opt_view(r.file)) == spec_send_payload(s.atype, s.data@),
            r.expiration_date == s.expiration_date,
            s.hide_email ==> r.creator_identifier is None,
            !s.hide_email ==> match creator_email {
                Some(e) => r.creator_identifier matches Some(c) && c@ == e@,
                None => r.creator_identifier is None,
            },
            r.object@ == "send-access"@,
    {
        let (text, file) = send_payload(s.atype, s.data.as_str());
        let creator_identifier = if s.hide_email {
            None
        } else {
            match creator_email {
                Some(e) => Some(owned(e)),
                None => None,
            }
        };
        SendAccessResponse {
            id: s.uuid.clone(),
            typ: s.atype,
            name: s.name.clone(),
            text,
            file,
            expiration_date: s.expiration_date.clone(),
            creator_identifier,
            object: owned("send-access"),
        }
    }
}

/// File upload response for v2 file sends.
pub struct SendFileUploadResponse {
    pub file_upload_type: i32,
    pub object: String,
    pub url: String,
    pub send_response: SendResponse,
}

/// File download response for anonymous file access.
pub struct SendFileDownloadResponse {
    pub id: String,
    pub url: String,
    pub object: String,
}

/// Request body for creating or updating a send. `text` and `file` hold
/// the JSON text of the client's objects.
pub struct SendRequest {
    pub typ: i32,
    pub key: String,
    pub name: String,
    pub notes: Option<String>,
    pub text: Option<String>,
    pub file: Option<String>,
    pub file_length: Option<i64>,
    pub password: Option<String>,
    pub max_access_count: Option<i32>,
    pub expiration_date: Option<String>,
    pub deletion_date: String,
    pub disabled: Option<bool>,
    pub hide_email: Option<bool>,
}

/// Request body for anonymous send access.
pub struct SendAccessRequest {
    pub password: Option<String>,
}

} // verus!
