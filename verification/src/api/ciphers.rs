//! Who may read or change a cipher, and how requests turn into cipher rows.

use vstd::prelude::*;
use crate::db::models::{Attachment, Cipher, Membership, UserCollection, STATUS_CONFIRMED};
use crate::api::sends::{format_size, size_name};
use crate::error::AppError;
use crate::models::cipher::{spec_data_json, CipherRequest};
use crate::models::send::opt_view;
use crate::text::{concat, owned, str_eq};

verus! {

/// Whether a caller needs read-only access or the ability to change a
/// cipher. `Write` additionally excludes members whose only collection
/// grants are read-only.
#[derive(Clone, Copy, PartialEq, Eq, Structural)]
pub enum Access {
    Read,
    Write,
}

/// Whether `user` has `access` to `cipher`, given the user's membership in
/// the cipher's organization (if any) and the user's grants on collections
/// that contain the cipher:
/// 1. a personal cipher of the user: full access;
/// 2. an organization cipher and a confirmed membership that is Owner or
///    Admin or has `access_all`: full access;
/// 3. otherwise at least one grant, and for `Write` at least one grant that
///    is not read-only.
pub open spec fn spec_cipher_access(
    user: Seq<char>,
    cipher: Cipher,
    membership: Option<Membership>,
    grants: Seq<UserCollection>,
    access: Access,
) -> bool {
    if cipher.user_uuid matches Some(u) && u@ == user {
        true
    } else if cipher.organization_uuid is None {
        false
    } else {
        match membership {
            None => false,
            Some(m) => if m.status != STATUS_CONFIRMED {
                false
            } else if m.atype <= 1 || m.access_all {
                true
            } else if grants.len() == 0 {
                false
            } else {
                match access {
                    Access::Read => true,
                    Access::Write => exists|i: int| 0 <= i < grants.len() && !(#[trigger] grants[i]).read_only,
                }
            },
        }
    }
}

/// For an organization cipher that is not the user's own: without a
/// membership, or with one that is not confirmed (status 2), there is no
/// access; a confirmed Owner (role 0) or Admin (role 1), or a confirmed
/// member with access to all collections, has full access whatever its
/// grants; any other confirmed member needs a collection grant, may read
/// exactly when it holds one, and has no access at all without one.
pub proof fn law_org_cipher_access_by_role(
    user: Seq<char>,
    cipher: Cipher,
    m: Membership,
    grants: Seq<UserCollection>,
    access: Access,
)
    requires
        !(cipher.user_uuid matches Some(u) && u@ == user),
        cipher.organization_uuid is Some,
    ensures
        !spec_cipher_access(user, cipher, None, grants, access),
        m.status != 2 ==> !spec_cipher_access(user, cipher, Some(m), grants, access),
        m.status == 2 && (m.atype == 0 || m.atype == 1 || m.access_all) ==> spec_cipher_access(
            user,
            cipher,
            Some(m),
            grants,
            access,
        ),
        m.status == 2 && m.atype >= 2 && !m.access_all ==> (spec_cipher_access(
            user,
            cipher,
            Some(m),
            grants,
            Access::Read,
        ) <==> grants.len() > 0),
        m.status == 2 && m.atype >= 2 && !m.access_all && grants.len() == 0 ==> !spec_cipher_access(
            user,
            cipher,
            Some(m),
            grants,
            access,
        ),
        m.status == 2 && m.atype >= 2 && !m.access_all ==> (spec_cipher_access(
            user,
            cipher,
            Some(m),
            grants,
            Access::Write,
        ) <==> exists|i: int| 0 <= i < grants.len() && !(#[trigger] grants[i]).read_only),
{
}

/// A personal cipher is open, for reading and changing, to the user it
/// belongs to, whatever membership and grants are given.
pub proof fn law_own_cipher_is_open(
    user: Seq<char>,
    cipher: Cipher,
    membership: Option<Membership>,
    grants: Seq<UserCollection>,
    access: Access,
)
    requires
        cipher.user_uuid matches Some(u) && u@ == user,
    ensures
        spec_cipher_access(user, cipher, membership, grants, access),
{
}

/// Whoever may change a cipher may read it.
pub proof fn law_write_access_implies_read(
    user: Seq<char>,
    cipher: Cipher,
    membership: Option<Membership>,
    grants: Seq<UserCollection>,
)
    requires
        spec_cipher_access(user, cipher, membership, grants, Access::Write),
    ensures
        spec_cipher_access(user, cipher, membership, grants, Access::Read),
{
}

/// Decide cipher access. `membership` is the user's membership in the
/// cipher's organization and `grants` the user's collection grants covering
/// the cipher; neither is consulted for a personal cipher.
pub fn has_cipher_access(
    user_uuid: &str,
    cipher: &Cipher,
    membership: Option<&Membership>,
    grants: &Vec<UserCollection>,
    access: Access,
) -> (r: bool)
    ensures
        r == spec_cipher_access(
            user_uuid@,
            *cipher,
            match membership {
                Some(m) => Some(*m),
                None => None,
            },
            grants@,
            access,
        ),
{
    if let Some(u) = &cipher.user_uuid {
        if str_eq(u.as_str(), user_uuid) {
            return true;
        }
    }
    if cipher.organization_uuid.is_none() {
        return false;
    }
    let m = match membership {
        None => return false,
        Some(m) => m,
    };
    if m.status != STATUS_CONFIRMED {
        return false;
    }
    if m.atype <= 1 || m.access_all {
        return true;
    }
    if grants.len() == 0 {
        return false;
    }
    match access {
        Access::Read => true,
        Access::Write => any_writable(grants),
    }
}

/// Whether some grant in `grants` is not read-only.
fn any_writable(grants: &Vec<UserCollection>) -> (r: bool)
    ensures
        r == exists|i: int| 0 <= i < grants@.len() && !(#[trigger] grants@[i]).read_only,
{
    let n = grants.len();
    for i in 0..n
        invariant
            n == grants@.len(),
            forall|j: int| 0 <= j < i ==> (#[trigger] grants@[j]).read_only,
    {
        if !grants[i].read_only {
            assert(!grants@[i as int].read_only);
            return true;
        }
    }
    false
}

/// The answer to a cipher request: the cipher must exist and the caller
/// must have the access the request needs.
pub fn require_cipher_access(found: bool, granted: bool) -> (r: Result<(), AppError>)
    ensures
        !found ==> (r matches Err(AppError::NotFound(m)) && m@ == "Cipher not found"@),
        found && !granted ==> (r matches Err(AppError::Forbidden(m)) && m@ == "Not your cipher"@),
        found && granted ==> r is Ok,
{
    if !found {
        return Err(AppError::NotFound(owned("Cipher not found")));
    }
    if !granted {
        return Err(AppError::Forbidden(owned("Not your cipher")));
    }
    Ok(())
}

/// Whether the cipher is the user's personal cipher (bulk move and sharing
/// only act on these).
pub fn owns_cipher(cipher: &Cipher, user_uuid: &str) -> (r: bool)
    ensures
        r == (cipher.user_uuid matches Some(u) && u@ == user_uuid@),
{
    match &cipher.user_uuid {
        Some(u) => str_eq(u.as_str(), user_uuid),
        None => false,
    }
}

/// A new personal cipher from a create or import request.
pub fn cipher_from_request(uuid: String, user_uuid: &str, body: &CipherRequest, now: &str) -> (c: Cipher)
    ensures
        c.uuid == uuid,
        c.user_uuid matches Some(u) && u@ == user_uuid@,
        c.organization_uuid is None,
        c.atype == body.typ,
        c.name == body.name,
        c.notes == body.notes,
        c.fields == body.fields,
        c.data@ == spec_data_json(*body),
        c.key == body.key,
        c.password_history == body.password_history,
        c.reprompt == body.reprompt,
        c.deleted_at is None,
        c.created_at@ == now@,
        c.updated_at@ == now@,
{
    Cipher {
        uuid,
        user_uuid: Some(owned(user_uuid)),
        organization_uuid: None,
        atype: body.typ,
        name: body.name.clone(),
        notes: body.notes.clone(),
        fields: body.fields.clone(),
        data: body.data_json(),
        key: body.key.clone(),
        password_history: body.password_history.clone(),
        reprompt: body.reprompt,
        deleted_at: None,
        created_at: owned(now),
        updated_at: owned(now),
    }
}

/// Applies an update request: content fields follow the request, identity,
/// ownership, type and creation time stay.
pub fn apply_cipher_update(cipher: &mut Cipher, body: &CipherRequest, now: String)
    ensures
        final(cipher).uuid == old(cipher).uuid,
        final(cipher).user_uuid == old(cipher).user_uuid,
        final(cipher).organization_uuid == old(cipher).organization_uuid,
        final(cipher).atype == old(cipher).atype,
        final(cipher).name == body.name,
        final(cipher).notes == body.notes,
        final(cipher).fields == body.fields,
        final(cipher).data@ == spec_data_json(*body),
        final(cipher).key == body.key,
        final(cipher).password_history == body.password_history,
        final(cipher).reprompt == body.reprompt,
        final(cipher).deleted_at == old(cipher).deleted_at,
        final(cipher).created_at == old(cipher).created_at,
        final(cipher).updated_at == now,
{
    cipher.name = body.name.clone();
    cipher.notes = body.notes.clone();
    cipher.fields = body.fields.clone();
    cipher.data = body.data_json();
    cipher.key = body.key.clone();
    cipher.password_history = body.password_history.clone();
    cipher.reprompt = body.reprompt;
    cipher.updated_at = now;
}

/// The favorite flag a request sets (absent means not a favorite).
pub fn requested_favorite(body: &CipherRequest) -> (r: bool)
    ensures
        r == (body.favorite == Some(true)),
{
    match body.favorite {
        Some(f) => f,
        None => false,
    }
}

/// One folder relationship of an import: cipher `key` goes into folder `value`.
pub struct FolderRelationship {
    pub key: usize,
    pub value: usize,
}

/// The relationships of an import that name an imported cipher and an
/// imported folder, in request order; the others are ignored.
pub open spec fn valid_links(rels: Seq<FolderRelationship>, n_ciphers: nat, n_folders: nat) -> Seq<(usize, usize)>
    decreases rels.len(),
{
    if rels.len() == 0 {
        Seq::empty()
    } else {
        let rest = valid_links(rels.drop_last(), n_ciphers, n_folders);
        let r = rels.last();
        if r.key < n_ciphers && r.value < n_folders {
            rest.push((r.key, r.value))
        } else {
            rest
        }
    }
}

pub fn import_folder_links(rels: &Vec<FolderRelationship>, n_ciphers: usize, n_folders: usize) -> (r: Vec<(usize, usize)>)
    ensures
        r@ == valid_links(rels@, n_ciphers as nat, n_folders as nat),
        forall|i: int| 0 <= i < r@.len() ==> (#[trigger] r@[i]).0 < n_ciphers && r@[i].1 < n_folders,
{
    let mut r: Vec<(usize, usize)> = Vec::new();
    let n = rels.len();
    for i in 0..n
        invariant
            n == rels@.len(),
            r@ == valid_links(rels@.subrange(0, i as int), n_ciphers as nat, n_folders as nat),
            forall|j: int| 0 <= j < r@.len() ==> (#[trigger] r@[j]).0 < n_ciphers && r@[j].1 < n_folders,
    {
        proof {
            let s = rels@.subrange(0, i + 1);
            assert(s.drop_last() =~= rels@.subrange(0, i as int));
        }
        let rel = &rels[i];
        if rel.key < n_ciphers && rel.value < n_folders {
            r.push((rel.key, rel.value));
        }
    }
    proof {
        assert(rels@.subrange(0, n as int) =~= rels@);
    }
    r
}

/// Sharing moves a personal cipher into an organization: it must be the
/// caller's own cipher and name the target organization.
pub fn check_share(cipher: &Cipher, user_uuid: &str, organization_id: Option<&String>) -> (r: Result<String, AppError>)
    ensures
        !(cipher.user_uuid matches Some(u) && u@ == user_uuid@) ==> (r matches Err(AppError::Forbidden(m)) && m@
            == "Not your cipher"@),
        (cipher.user_uuid matches Some(u) && u@ == user_uuid@) && organization_id is None ==> (r matches Err(
            AppError::BadRequest(m),
        ) && m@ == "Organization ID is required"@),
        (cipher.user_uuid matches Some(u) && u@ == user_uuid@) && organization_id is Some ==> (r matches Ok(o)
            && o == *organization_id->0),
{
    if !owns_cipher(cipher, user_uuid) {
        return Err(AppError::Forbidden(owned("Not your cipher")));
    }
    match organization_id {
        None => Err(AppError::BadRequest(owned("Organization ID is required"))),
        Some(o) => Ok(o.clone()),
    }
}

/// The cipher after it was shared into `org_uuid`: it leaves the user and
/// takes the shared data, name and key.
pub fn share_into_org(cipher: &mut Cipher, org_uuid: String, body: &CipherRequest, now: String)
    ensures
        final(cipher).uuid == old(cipher).uuid,
        final(cipher).user_uuid is None,
        final(cipher).organization_uuid == Some(org_uuid),
        final(cipher).data@ == spec_data_json(*body),
        final(cipher).name == body.name,
        final(cipher).key == body.key,
        final(cipher).atype == old(cipher).atype,
        final(cipher).notes == old(cipher).notes,
        final(cipher).fields == old(cipher).fields,
        final(cipher).password_history == old(cipher).password_history,
        final(cipher).reprompt == old(cipher).reprompt,
        final(cipher).deleted_at == old(cipher).deleted_at,
        final(cipher).created_at == old(cipher).created_at,
        final(cipher).updated_at == now,
{
    cipher.user_uuid = None;
    cipher.organization_uuid = Some(org_uuid);
    cipher.data = body.data_json();
    cipher.name = body.name.clone();
    cipher.key = body.key.clone();
    cipher.updated_at = now;
}

/// An attachment may only be used through the cipher it belongs to.
pub fn check_attachment(attachment: &Attachment, cipher_uuid: &str) -> (r: Result<(), AppError>)
    ensures
        attachment.cipher_uuid@ == cipher_uuid@ ==> r is Ok,
        attachment.cipher_uuid@ != cipher_uuid@ ==> (r matches Err(AppError::Forbidden(m)) && m@
            == "Attachment does not belong to this cipher"@),
{
    if str_eq(attachment.cipher_uuid.as_str(), cipher_uuid) {
        Ok(())
    } else {
        Err(AppError::Forbidden(owned("Attachment does not belong to this cipher")))
    }
}

/// The object-store key of an attachment: `attachments/{cipher}/{attachment}`.
pub fn attachment_key(cipher_uuid: &str, att_id: &str) -> (r: String)
    ensures
        r@ == "attachments/"@ + cipher_uuid@.push('/') + att_id@,
{
    let mut r = concat("attachments/", cipher_uuid);
    crate::text::push_char(&mut r, '/');
    r.append(att_id);
    proof {
        assert(r@ =~= "attachments/"@ + cipher_uuid@.push('/') + att_id@);
    }
    r
}

/// Where an attachment's content is uploaded:
/// `{domain}/api/ciphers/{cipher}/attachment/{attachment}`.
pub fn attachment_upload_url(domain: &str, cipher_uuid: &str, att_id: &str) -> (r: String)
    ensures
        r@ == domain@ + "/api/ciphers/"@ + cipher_uuid@ + "/attachment/"@ + att_id@,
{
    let mut r = concat(domain, "/api/ciphers/");
    r.append(cipher_uuid);
    r.append("/attachment/");
    r.append(att_id);
    r
}

/// Where an attachment is downloaded: the upload URL followed by `/download`.
pub fn attachment_download_url(domain: &str, cipher_uuid: &str, att_id: &str) -> (r: String)
    ensures
        r@ == domain@ + "/api/ciphers/"@ + cipher_uuid@ + "/attachment/"@ + att_id@ + "/download"@,
{
    let mut r = attachment_upload_url(domain, cipher_uuid, att_id);
    r.append("/download");
    r
}

/// An attachment as the API shows it; its size is also given for people.
pub struct AttachmentResponse {
    pub id: String,
    pub file_name: Option<String>,
    pub size: Option<i64>,
    pub size_name: String,
    pub key: Option<String>,
    pub url: String,
    pub object: String,
}

/// Where to upload a new attachment's content.
pub struct AttachmentUploadResponse {
    pub attachment_id: String,
    pub url: String,
    pub file_upload_type: i32,
    pub cipher_id: String,
    pub cipher_mini_response: Option<String>,
    pub object: String,
}

/// The attachment row a v2 upload request creates.
pub fn new_attachment(id: String, cipher_uuid: String, file_name: String, file_size: i64, key: Option<String>) -> (r:
    Attachment)
    ensures
        r.id == id && r.cipher_uuid == cipher_uuid,
        r.file_name == Some(file_name) && r.file_size == Some(file_size) && r.akey == key,
{
    Attachment { id, cipher_uuid, file_name: Some(file_name), file_size: Some(file_size), akey: key }
}

pub fn attachment_response(a: Attachment, url: String) -> (r: AttachmentResponse)
    ensures
        r.id == a.id && r.file_name == a.file_name && r.size == a.file_size && r.key == a.akey,
        r.size_name@ == size_name(
            match a.file_size {
                Some(s) => s,
                None => 0,
            },
        ),
        r.url == url,
        r.object@ == "attachment"@,
{
    let size = match a.file_size {
        Some(s) => s,
        None => 0,
    };
    AttachmentResponse {
        id: a.id,
        file_name: a.file_name,
        size: a.file_size,
        size_name: format_size(size),
        key: a.akey,
        url,
        object: owned("attachment"),
    }
}

pub fn attachment_upload_response(attachment_id: String, url: String, cipher_id: String) -> (r:
    AttachmentUploadResponse)
    ensures
        r.attachment_id == attachment_id && r.url == url && r.cipher_id == cipher_id,
        r.file_upload_type == 0 && r.cipher_mini_response is None,
        r.object@ == "attachment-upload"@,
{
    AttachmentUploadResponse {
        attachment_id,
        url,
        file_upload_type: 0,
        cipher_id,
        cipher_mini_response: None,
        object: owned("attachment-upload"),
    }
}

} // verus!
