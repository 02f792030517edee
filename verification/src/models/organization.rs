//! Organization, member and collection shapes of the API.

use vstd::prelude::*;
use crate::db::models::{Collection, Membership, Organization, User, UserCollection};
use crate::models::send::opt_view;
use crate::text::owned;

verus! {

/// An organization as the API shows it.
pub struct OrganizationResponse {
    pub id: String,
    pub name: String,
    pub use_policies: bool,
    pub use_sso: bool,
    pub use_groups: bool,
    pub use_directory: bool,
    pub use_events: bool,
    pub use_totp: bool,
    pub seats: Option<i32>,
    pub max_collections: Option<i32>,
    pub max_storage_gb: Option<i32>,
    pub self_host: bool,
    pub has_public_and_private_keys: bool,
    pub plan_product_type: i32,
    pub object: String,
}

/// The plan reported for every organization: self-hosted, unlimited.
pub const PLAN_ENTERPRISE: i32 = 3;

impl OrganizationResponse {
    /// The response for a stored organization. Seats, collections and
    /// storage are unlimited; the organization has key material when both
    /// halves of its key pair are stored.
    pub fn from_db(org: &Organization) -> (r: OrganizationResponse)
        ensures
            r.id@ == org.uuid@,
            r.name@ == org.name@,
            r.has_public_and_private_keys == (org.private_key is Some && org.public_key is Some),
            r.use_policies && r.use_groups && r.use_events && r.use_totp && r.self_host,
            !r.use_sso && !r.use_directory,
            r.seats is None && r.max_collections is None && r.max_storage_gb is None,
            r.plan_product_type == PLAN_ENTERPRISE,
            r.object@ == "organization"@,
    {
        OrganizationResponse {
            id: org.uuid.clone(),
            name: org.name.clone(),
            use_policies: true,
            use_sso: false,
            use_groups: true,
            use_directory: false,
            use_events: true,
            use_totp: true,
            seats: None,
            max_collections: None,
            max_storage_gb: None,
            self_host: true,
            has_public_and_private_keys: org.private_key.is_some() && org.public_key.is_some(),
            plan_product_type: PLAN_ENTERPRISE,
            object: owned("organization"),
        }
    }
}

/// The key pair a client sends with a new organization.
pub struct OrgKeys {
    pub encrypted_private_key: String,
    pub public_key: String,
}

/// `POST /organizations`.
pub struct OrgCreateRequest {
    pub name: String,
    pub billing_email: String,
    /// The organization key, encrypted for the creating user.
    pub key: String,
    pub keys: Option<OrgKeys>,
    pub collection_name: Option<String>,
}

/// A grant on a collection, as sent by clients when inviting or editing a
/// member or a collection. `id` names the collection or the user.
pub struct CollectionSelection {
    pub id: String,
    pub read_only: bool,
    pub hide_passwords: bool,
    pub manage: bool,
}

/// A grant on a collection, as answered to clients.
pub struct CollectionSelectionResponse {
    pub id: String,
    pub read_only: bool,
    pub hide_passwords: bool,
    pub manage: bool,
}

/// `POST /organizations/{org}/users/invite`. `atype` is the JSON `type`.
pub struct InviteRequest {
    pub emails: Vec<String>,
    pub atype: i32,
    pub access_all: bool,
    pub collections: Vec<CollectionSelection>,
}

/// `PUT /organizations/{org}/users/{member}`. `atype` is the JSON `type`.
pub struct UpdateMemberRequest {
    pub atype: i32,
    pub access_all: bool,
    pub collections: Vec<CollectionSelection>,
}

/// `POST /organizations/{org}/users/{member}/confirm`.
pub struct ConfirmRequest {
    pub key: String,
}

/// `POST /organizations/{org}/collections`.
pub struct CollectionCreateRequest {
    pub name: String,
    pub external_id: Option<String>,
}

/// A member of an organization as the API shows it. `atype` is the JSON
/// `type`.
pub struct MemberResponse {
    pub id: String,
    pub user_id: String,
    pub name: Option<String>,
    pub email: Option<String>,
    pub atype: i32,
    pub status: i32,
    pub access_all: bool,
    pub collections: Option<Vec<CollectionSelectionResponse>>,
    pub object: String,
}

/// A collection in a sync response, with the caller's grant on it.
pub struct CollectionDetailsResponse {
    pub id: String,
    pub organization_id: String,
    pub name: String,
    pub external_id: Option<String>,
    pub read_only: bool,
    pub hide_passwords: bool,
    pub manage: bool,
    pub object: String,
}

/// A collection as the API shows it.
pub struct CollectionResponse {
    pub id: String,
    pub organization_id: String,
    pub name: String,
    pub external_id: Option<String>,
    pub object: String,
}

impl CollectionResponse {
    pub fn from_db(col: &Collection) -> (r: CollectionResponse)
        ensures
            r.id@ == col.uuid@,
            r.organization_id@ == col.org_uuid@,
            r.name@ == col.name@,
            opt_view(r.external_id) == opt_view(col.external_id),
            r.object@ == "collection"@,
    {
        CollectionResponse {
            id: col.uuid.clone(),
            organization_id: col.org_uuid.clone(),
            name: col.name.clone(),
            external_id: clone_opt(&col.external_id),
            object: owned("collection"),
        }
    }
}

/// A copy of an optional text.
pub fn clone_opt(s: &Option<String>) -> (r: Option<String>)
    ensures
        r == *s,
{
    match s {
        Some(x) => Some(x.clone()),
        None => None,
    }
}

/// The grant of a user on a collection, answered under the collection's id.
pub fn selection_for_collection(uc: &UserCollection) -> (r: CollectionSelectionResponse)
    ensures
        r.id@ == uc.collection_uuid@,
        r.read_only == uc.read_only,
        r.hide_passwords == uc.hide_passwords,
        r.manage == uc.manage,
{
    CollectionSelectionResponse {
        id: uc.collection_uuid.clone(),
        read_only: uc.read_only,
        hide_passwords: uc.hide_passwords,
        manage: uc.manage,
    }
}

/// The grant of a user on a collection, answered under the user's id.
pub fn selection_for_user(uc: &UserCollection) -> (r: CollectionSelectionResponse)
    ensures
        r.id@ == uc.user_uuid@,
        r.read_only == uc.read_only,
        r.hide_passwords == uc.hide_passwords,
        r.manage == uc.manage,
{
    CollectionSelectionResponse {
        id: uc.user_uuid.clone(),
        read_only: uc.read_only,
        hide_passwords: uc.hide_passwords,
        manage: uc.manage,
    }
}

impl MemberResponse {
    /// The member `m`, with the name and email of its user where that user
    /// still exists.
    pub fn from_membership(
        m: &Membership,
        user: Option<&User>,
        collections: Option<Vec<CollectionSelectionResponse>>,
    ) -> (r: MemberResponse)
        ensures
            r.id@ == m.uuid@,
            r.user_id@ == m.user_uuid@,
            match user {
                Some(u) => r.name matches Some(n) && n@ == u.name@,
                None => r.name is None,
            },
            match user {
                Some(u) => r.email matches Some(e) && e@ == u.email@,
                None => r.email is None,
            },
            r.atype == m.atype,
            r.status == m.status,
            r.access_all == m.access_all,
            r.collections == collections,
            r.object@ == "organizationUser"@,
    {
        let (name, email) = match user {
            Some(u) => (Some(u.name.clone()), Some(u.email.clone())),
            None => (None, None),
        };
        MemberResponse {
            id: m.uuid.clone(),
            user_id: m.user_uuid.clone(),
            name,
            email,
            atype: m.atype,
            status: m.status,
            access_all: m.access_all,
            collections,
            object: owned("organizationUser"),
        }
    }
}

/// An organization as the caller's profile lists it: the organization,
/// the caller's key to it, role and state.
pub struct ProfileOrganizationResponse {
    pub id: String,
    pub name: String,
    pub key: Option<String>,
    pub atype: i32,
    pub status: i32,
    pub enabled: bool,
    pub use_policies: bool,
    pub use_groups: bool,
    pub use_events: bool,
    pub use_totp: bool,
    pub self_host: bool,
    pub has_public_and_private_keys: bool,
    pub object: String,
}

impl ProfileOrganizationResponse {
    pub fn from_membership(org: &Organization, m: &Membership) -> (r: ProfileOrganizationResponse)
        ensures
            r.id == org.uuid && r.name == org.name,
            r.key == m.akey && r.atype == m.atype && r.status == m.status,
            r.enabled && r.use_policies && r.use_groups && r.use_events && r.use_totp && r.self_host,
            r.has_public_and_private_keys == (org.private_key is Some && org.public_key is Some),
            r.object@ == "profileOrganization"@,
    {
        ProfileOrganizationResponse {
            id: org.uuid.clone(),
            name: org.name.clone(),
            key: clone_opt(&m.akey),
            atype: m.atype,
            status: m.status,
            enabled: true,
            use_policies: true,
            use_groups: true,
            use_events: true,
            use_totp: true,
            self_host: true,
            has_public_and_private_keys: org.private_key.is_some() && org.public_key.is_some(),
            object: owned("profileOrganization"),
        }
    }
}

} // verus!
