//! Folders: each belongs to one user, who alone may change it.

use vstd::prelude::*;
use crate::db::models::Folder;
use crate::error::AppError;
use crate::text::{owned, str_eq};

verus! {

/// A new folder of `user_uuid`, created and last changed at `now`.
pub fn new_folder(uuid: String, user_uuid: String, name: String, now: String) -> (r: Folder)
    ensures
        r.uuid == uuid && r.user_uuid == user_uuid && r.name == name,
        r.created_at == now && r.updated_at == now,
{
    Folder { uuid, user_uuid, name, created_at: now.clone(), updated_at: now }
}

/// A folder addressed by id must exist and belong to the caller.
pub fn owned_folder(found: Option<Folder>, user_uuid: &str) -> (r: Result<Folder, AppError>)
    ensures
        match found {
            None => r matches Err(AppError::NotFound(m)) && m@ == "Folder not found"@,
            Some(f) => if f.user_uuid@ == user_uuid@ {
                r == Ok::<Folder, AppError>(f)
            } else {
                r matches Err(AppError::Forbidden(m)) && m@ == "Not your folder"@
            },
        },
{
    match found {
        None => Err(AppError::NotFound(owned("Folder not found"))),
        Some(f) => if str_eq(f.user_uuid.as_str(), user_uuid) {
            Ok(f)
        } else {
            Err(AppError::Forbidden(owned("Not your folder")))
        },
    }
}

/// Rename a folder at `now`; nothing else changes.
pub fn rename_folder(folder: &mut Folder, name: String, now: String)
    ensures
        final(folder).name == name,
        final(folder).updated_at == now,
        final(folder).uuid == old(folder).uuid,
        final(folder).user_uuid == old(folder).user_uuid,
        final(folder).created_at == old(folder).created_at,
{
    folder.name = name;
    folder.updated_at = now;
}

} // verus!
