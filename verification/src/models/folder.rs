//! Folder shapes of the API.

use vstd::prelude::*;
use crate::db::models::Folder;
use crate::text::owned;

verus! {

/// A folder as the API shows it; its revision date is its last update.
pub struct FolderResponse {
    pub id: String,
    pub name: String,
    pub revision_date: String,
    pub object: String,
}

impl FolderResponse {
    pub fn from_db(f: &Folder) -> (r: FolderResponse)
        ensures
            r.id == f.uuid,
            r.name == f.name,
            r.revision_date == f.updated_at,
            r.object@ == "folder"@,
    {
        FolderResponse {
            id: f.uuid.clone(),
            name: f.name.clone(),
            revision_date: f.updated_at.clone(),
            object: owned("folder"),
        }
    }
}

/// Folder create or rename; the name is encrypted by the client.
pub struct FolderRequest {
    pub name: String,
}

} // verus!
