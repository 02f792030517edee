//! Organization rules: who may act on an organization, how members join and
//! change roles, and which rows a new organization starts with.

use vstd::prelude::*;
use crate::db::models::{
    Collection, Membership, Organization, UserCollection, ROLE_OWNER, STATUS_ACCEPTED,
    STATUS_CONFIRMED,
};
use crate::error::AppError;
use crate::models::organization::{
    selection_for_collection, CollectionSelectionResponse, InviteRequest, OrgCreateRequest,
};
use crate::text::{concat, contains_str, lowercase_of, owned, str_eq, to_lowercase, trim, trimmed};

verus! {

// --- who may act ---

/// The caller's membership must exist and be confirmed.
pub fn require_member(found: Option<Membership>) -> (r: Result<Membership, AppError>)
    ensures
        match found {
            None => r matches Err(AppError::Forbidden(msg)) && msg@ == "Not a member"@,
            Some(m) => if m.status != STATUS_CONFIRMED {
                r matches Err(AppError::Forbidden(msg)) && msg@ == "Membership not confirmed"@
            } else {
                r == Ok::<Membership, AppError>(m)
            },
        },
{
    match found {
        None => Err(AppError::Forbidden(owned("Not a member"))),
        Some(m) => if m.status != STATUS_CONFIRMED {
            Err(AppError::Forbidden(owned("Membership not confirmed")))
        } else {
            Ok(m)
        },
    }
}

/// The caller's membership must be confirmed and be Owner or Admin.
pub fn require_admin(found: Option<Membership>) -> (r: Result<Membership, AppError>)
    ensures
        match found {
            None => r matches Err(AppError::Forbidden(msg)) && msg@ == "Not a member"@,
            Some(m) => if m.status != STATUS_CONFIRMED {
                r matches Err(AppError::Forbidden(msg)) && msg@ == "Membership not confirmed"@
            } else if m.atype > 1 {
                r matches Err(AppError::Forbidden(msg)) && msg@ == "Admin access required"@
            } else {
                r == Ok::<Membership, AppError>(m)
            },
        },
{
    let m = require_member(found)?;
    if m.atype > 1 {
        return Err(AppError::Forbidden(owned("Admin access required")));
    }
    Ok(m)
}

/// Only an owner may delete an organization.
pub fn check_org_delete(requester: &Membership) -> (r: Result<(), AppError>)
    ensures
        requester.atype == ROLE_OWNER <==> r is Ok,
        requester.atype != ROLE_OWNER ==> (r matches Err(AppError::Forbidden(msg)) && msg@
            == "Only owner can delete"@),
{
    if requester.atype != ROLE_OWNER {
        return Err(AppError::Forbidden(owned("Only owner can delete")));
    }
    Ok(())
}

/// A collection addressed under an organization must exist and belong to it.
pub fn check_collection_in_org(col: Option<&Collection>, org_id: &str) -> (r: Result<(), AppError>)
    ensures
        col is None ==> (r matches Err(AppError::NotFound(msg)) && msg@ == "Collection not found"@),
        col matches Some(c) && c.org_uuid@ != org_id@ ==> (r matches Err(AppError::Forbidden(msg))
            && msg@ == "Collection not in this org"@),
        col matches Some(c) && c.org_uuid@ == org_id@ ==> r is Ok,
{
    match col {
        None => Err(AppError::NotFound(owned("Collection not found"))),
        Some(c) => if str_eq(c.org_uuid.as_str(), org_id) {
            Ok(())
        } else {
            Err(AppError::Forbidden(owned("Collection not in this org")))
        },
    }
}

/// A membership addressed under an organization must exist and belong to
/// it; otherwise it is answered as not found.
pub fn check_membership_in_org(found: Option<&Membership>, org_id: &str) -> (r: Result<(), AppError>)
    ensures
        (found matches Some(m) && m.org_uuid@ == org_id@) <==> r is Ok,
        r is Err ==> (r matches Err(AppError::NotFound(msg)) && msg@ == "Membership not found"@),
{
    match found {
        Some(m) => if str_eq(m.org_uuid.as_str(), org_id) {
            Ok(())
        } else {
            Err(AppError::NotFound(owned("Membership not found")))
        },
        None => Err(AppError::NotFound(owned("Membership not found"))),
    }
}

/// A user accepts an invitation: it must be theirs, in this organization,
/// and still invited or accepted.
pub fn check_accept_invite(found: Option<&Membership>, org_id: &str, user_uuid: &str) -> (r: Result<
    (),
    AppError,
>)
    ensures
        !(found matches Some(m) && m.org_uuid@ == org_id@) ==> (r matches Err(
            AppError::NotFound(msg),
        ) && msg@ == "Membership not found"@),
        found matches Some(m) && m.org_uuid@ == org_id@ && m.user_uuid@ != user_uuid@ ==> (r matches Err(
            AppError::Forbidden(msg),
        ) && msg@ == "Not your invitation"@),
        found matches Some(m) && m.org_uuid@ == org_id@ && m.user_uuid@ == user_uuid@ && m.status
            != 0 && m.status != STATUS_ACCEPTED ==> (r matches Err(AppError::BadRequest(msg))
            && msg@ == "Already accepted"@),
        found matches Some(m) && m.org_uuid@ == org_id@ && m.user_uuid@ == user_uuid@ && (m.status
            == 0 || m.status == STATUS_ACCEPTED) ==> r is Ok,
{
    check_membership_in_org(found, org_id)?;
    let m = found.unwrap();
    if !str_eq(m.user_uuid.as_str(), user_uuid) {
        return Err(AppError::Forbidden(owned("Not your invitation")));
    }
    if m.status != 0 && m.status != STATUS_ACCEPTED {
        return Err(AppError::BadRequest(owned("Already accepted")));
    }
    Ok(())
}

/// An admin confirms a member, who must have accepted first.
pub fn check_confirm(found: Option<&Membership>, org_id: &str) -> (r: Result<(), AppError>)
    ensures
        !(found matches Some(m) && m.org_uuid@ == org_id@) ==> (r matches Err(
            AppError::NotFound(msg),
        ) && msg@ == "Membership not found"@),
        found matches Some(m) && m.org_uuid@ == org_id@ && m.status != STATUS_ACCEPTED ==> (r matches Err(
            AppError::BadRequest(msg),
        ) && msg@ == "Member must be in Accepted state to confirm"@),
        found matches Some(m) && m.org_uuid@ == org_id@ && m.status == STATUS_ACCEPTED ==> r is Ok,
{
    check_membership_in_org(found, org_id)?;
    if found.unwrap().status != STATUS_ACCEPTED {
        return Err(AppError::BadRequest(owned("Member must be in Accepted state to confirm")));
    }
    Ok(())
}

// --- roles and the last owner ---

/// 1 for an owner, 0 otherwise.
pub open spec fn owner_weight(m: Membership) -> nat {
    if m.atype == ROLE_OWNER {
        1
    } else {
        0
    }
}

/// The number of owners among `members`.
pub open spec fn owners(members: Seq<Membership>) -> nat
    decreases members.len(),
{
    if members.len() == 0 {
        0
    } else {
        owners(members.drop_last()) + owner_weight(members.last())
    }
}

/// Count the owners among an organization's memberships.
pub fn count_owners(members: &Vec<Membership>) -> (r: u64)
    ensures
        r == owners(members@),
{
    let n = members.len();
    let mut count: u64 = 0;
    assert(members@.subrange(0, 0) =~= Seq::<Membership>::empty());
    for i in 0..n
        invariant
            n == members@.len(),
            count == owners(members@.subrange(0, i as int)),
            count <= i,
    {
        assert(members@.subrange(0, i + 1).drop_last() =~= members@.subrange(0, i as int));
        if members[i].atype == ROLE_OWNER {
            count = count + 1;
        }
    }
    assert(members@.subrange(0, n as int) =~= members@);
    count
}

/// `m` with the role `atype`.
pub open spec fn with_role(m: Membership, atype: i32) -> Membership {
    Membership { atype, ..m }
}

/// The first rule of a role change that refuses it, if any:
/// 1. only owners edit owners;
/// 2. only owners grant or take away the Owner or Admin role;
/// 3. the last owner cannot be demoted.
pub open spec fn owner_only_edit(requester: i32, member: i32) -> bool {
    member == ROLE_OWNER && requester != ROLE_OWNER
}

pub open spec fn owner_only_grant(requester: i32, member: i32, new_type: i32) -> bool {
    new_type != member && (member <= 1 || new_type <= 1) && requester != ROLE_OWNER
}

pub open spec fn demotes_last_owner(member: i32, new_type: i32, owner_count: int) -> bool {
    member == ROLE_OWNER && new_type != ROLE_OWNER && owner_count <= 1
}

/// A role change is allowed when none of the rules refuses it.
pub open spec fn member_update_allowed(
    requester: i32,
    member: i32,
    new_type: i32,
    owner_count: int,
) -> bool {
    !owner_only_edit(requester, member) && !owner_only_grant(requester, member, new_type)
        && !demotes_last_owner(member, new_type, owner_count)
}

/// Decide whether a member with role `requester_type` may set the role of a
/// member with role `member_type` to `new_type`; `owner_count` is the
/// number of owners of the organization.
pub fn check_member_update(
    requester_type: i32,
    member_type: i32,
    new_type: i32,
    owner_count: u64,
) -> (r: Result<(), AppError>)
    ensures
        r is Ok <==> member_update_allowed(requester_type, member_type, new_type, owner_count as int),
        owner_only_edit(requester_type, member_type) ==> (r matches Err(AppError::Forbidden(msg))
            && msg@ == "Only Owners can edit Owner users"@),
        !owner_only_edit(requester_type, member_type) && owner_only_grant(
            requester_type,
            member_type,
            new_type,
        ) ==> (r matches Err(AppError::Forbidden(msg)) && msg@
            == "Only Owners can grant or remove Owner or Admin privileges"@),
        !owner_only_edit(requester_type, member_type) && !owner_only_grant(
            requester_type,
            member_type,
            new_type,
        ) && demotes_last_owner(member_type, new_type, owner_count as int) ==> (r matches Err(
            AppError::BadRequest(msg),
        ) && msg@ == "Cannot demote the last owner"@),
{
    if member_type == ROLE_OWNER && requester_type != ROLE_OWNER {
        return Err(AppError::Forbidden(owned("Only Owners can edit Owner users")));
    }
    if new_type != member_type && (member_type <= 1 || new_type <= 1) && requester_type
        != ROLE_OWNER {
        return Err(
            AppError::Forbidden(owned("Only Owners can grant or remove Owner or Admin privileges")),
        );
    }
    if member_type == ROLE_OWNER && new_type != ROLE_OWNER && owner_count <= 1 {
        return Err(AppError::BadRequest(owned("Cannot demote the last owner")));
    }
    Ok(())
}

/// A removal is allowed unless it removes an owner and the requester is not
/// an owner, or it removes the last owner.
pub open spec fn member_removal_allowed(requester: i32, member: i32, owner_count: int) -> bool {
    !owner_only_edit(requester, member) && !(member == ROLE_OWNER && owner_count <= 1)
}

/// Decide whether a member with role `requester_type` may remove a member
/// with role `member_type`; `owner_count` is the number of owners.
pub fn check_member_removal(requester_type: i32, member_type: i32, owner_count: u64) -> (r: Result<
    (),
    AppError,
>)
    ensures
        r is Ok <==> member_removal_allowed(requester_type, member_type, owner_count as int),
        owner_only_edit(requester_type, member_type) ==> (r matches Err(AppError::Forbidden(msg))
            && msg@ == "Only Owners can remove Owner users"@),
        !owner_only_edit(requester_type, member_type) && member_type == ROLE_OWNER && owner_count
            <= 1 ==> (r matches Err(AppError::BadRequest(msg)) && msg@
            == "Cannot remove the last owner"@),
{
    if member_type == ROLE_OWNER && requester_type != ROLE_OWNER {
        return Err(AppError::Forbidden(owned("Only Owners can remove Owner users")));
    }
    if member_type == ROLE_OWNER && owner_count <= 1 {
        return Err(AppError::BadRequest(owned("Cannot remove the last owner")));
    }
    Ok(())
}

proof fn lemma_owners_update(s: Seq<Membership>, k: int, m: Membership)
    requires
        0 <= k < s.len(),
    ensures
        owners(s.update(k, m)) + owner_weight(s[k]) == owners(s) + owner_weight(m),
    decreases s.len(),
{
    let t = s.update(k, m);
    if k == s.len() - 1 {
        assert(t.drop_last() =~= s.drop_last());
    } else {
        assert(t.drop_last() =~= s.drop_last().update(k, m));
        lemma_owners_update(s.drop_last(), k, m);
    }
}

proof fn lemma_owners_remove(s: Seq<Membership>, k: int)
    requires
        0 <= k < s.len(),
    ensures
        owners(s.remove(k)) + owner_weight(s[k]) == owners(s),
    decreases s.len(),
{
    let t = s.remove(k);
    if k == s.len() - 1 {
        assert(t =~= s.drop_last());
    } else {
        assert(t.drop_last() =~= s.drop_last().remove(k));
        assert(t.last() == s.last());
        lemma_owners_remove(s.drop_last(), k);
    }
}

/// An organization that has an owner keeps one through every role change
/// that `check_member_update` allows, when it is given the organization's
/// owner count.
pub proof fn law_role_change_keeps_an_owner(
    members: Seq<Membership>,
    k: int,
    requester_type: i32,
    new_type: i32,
)
    requires
        0 <= k < members.len(),
        owners(members) >= 1,
        member_update_allowed(requester_type, members[k].atype, new_type, owners(members) as int),
    ensures
        owners(members.update(k, with_role(members[k], new_type))) >= 1,
{
    lemma_owners_update(members, k, with_role(members[k], new_type));
}

/// An organization that has an owner keeps one through every removal that
/// `check_member_removal` allows, when it is given the owner count.
pub proof fn law_removal_keeps_an_owner(members: Seq<Membership>, k: int, requester_type: i32)
    requires
        0 <= k < members.len(),
        owners(members) >= 1,
        member_removal_allowed(requester_type, members[k].atype, owners(members) as int),
    ensures
        owners(members.remove(k)) >= 1,
{
    lemma_owners_remove(members, k);
}

/// Only an owner can make a member an Owner or Admin, take that role away,
/// or change an owner's role at all.
pub proof fn law_only_owners_change_privileged_roles(
    requester_type: i32,
    member_type: i32,
    new_type: i32,
    owner_count: int,
)
    requires
        member_update_allowed(requester_type, member_type, new_type, owner_count),
        new_type != member_type,
        member_type <= 1 || new_type <= 1,
    ensures
        requester_type == ROLE_OWNER,
{
}

// --- new organizations and members ---

/// The organization row for `POST /organizations`.
pub fn organization_from_request(uuid: String, body: &OrgCreateRequest) -> (r: Organization)
    ensures
        r.uuid == uuid,
        r.name@ == body.name@,
        r.billing_email@ == body.billing_email@,
        match body.keys {
            Some(k) => (r.private_key matches Some(p) && p@ == k.encrypted_private_key@) && (
            r.public_key matches Some(q) && q@ == k.public_key@),
            None => r.private_key is None && r.public_key is None,
        },
{
    let (private_key, public_key) = match &body.keys {
        Some(k) => (Some(k.encrypted_private_key.clone()), Some(k.public_key.clone())),
        None => (None, None),
    };
    Organization {
        uuid,
        name: body.name.clone(),
        billing_email: body.billing_email.clone(),
        private_key,
        public_key,
    }
}

/// The creator's membership of a new organization: a confirmed owner with
/// access to all collections, holding the organization key.
pub fn owner_membership(uuid: String, user_uuid: &str, org_uuid: &str, key: &str) -> (r: Membership)
    ensures
        r.uuid == uuid,
        r.user_uuid@ == user_uuid@,
        r.org_uuid@ == org_uuid@,
        r.akey matches Some(k) && k@ == key@,
        r.atype == ROLE_OWNER,
        r.status == STATUS_CONFIRMED,
        r.access_all,
        r.external_id is None,
        r.reset_password_key is None,
{
    Membership {
        uuid,
        user_uuid: owned(user_uuid),
        org_uuid: owned(org_uuid),
        akey: Some(owned(key)),
        atype: ROLE_OWNER,
        status: STATUS_CONFIRMED,
        access_all: true,
        external_id: None,
        reset_password_key: None,
    }
}

/// The first collection of a new organization, when the request names one
/// that is not empty.
pub fn initial_collection(uuid: String, org_uuid: &str, name: &Option<String>) -> (r: Option<
    Collection,
>)
    ensures
        match name {
            Some(n) if n@.len() > 0 => r matches Some(c) && c.uuid == uuid && c.org_uuid@
                == org_uuid@ && c.name@ == n@ && c.external_id is None,
            _ => r is None,
        },
{
    match name {
        Some(n) => if n.as_str().unicode_len() > 0 {
            Some(
                Collection {
                    uuid,
                    org_uuid: owned(org_uuid),
                    name: n.clone(),
                    external_id: None,
                },
            )
        } else {
            None
        },
        None => None,
    }
}

/// The membership an invitation creates for an existing user: accepted,
/// waiting for an admin to confirm it, with the role and collection access
/// of the invitation and no key yet.
pub fn invited_membership(uuid: String, user_uuid: String, org_uuid: &str, body: &InviteRequest) -> (r:
    Membership)
    ensures
        r.uuid == uuid,
        r.user_uuid == user_uuid,
        r.org_uuid@ == org_uuid@,
        r.akey is None,
        r.atype == body.atype,
        r.status == STATUS_ACCEPTED,
        r.access_all == body.access_all,
        r.external_id is None,
        r.reset_password_key is None,
{
    Membership {
        uuid,
        user_uuid,
        org_uuid: owned(org_uuid),
        akey: None,
        atype: body.atype,
        status: STATUS_ACCEPTED,
        access_all: body.access_all,
        external_id: None,
        reset_password_key: None,
    }
}

/// An invited address as it is looked up: trimmed and lowercased; a blank
/// entry invites no one.
pub fn invite_email(raw: &str) -> (r: Option<String>)
    ensures
        lowercase_of(trimmed(raw@)).len() == 0 ==> r is None,
        lowercase_of(trimmed(raw@)).len() > 0 ==> (r matches Some(e) && e@ == lowercase_of(trimmed(raw@))),
{
    let email = to_lowercase(trim(raw).as_str());
    if email.as_str().unicode_len() == 0 {
        None
    } else {
        Some(email)
    }
}

/// Invitations go only to registered users: there is no mail to carry an
/// invitation to anyone else.
pub fn not_registered(email: &str) -> (r: AppError)
    ensures
        r matches AppError::BadRequest(msg) && msg@ == "User "@ + email@
            + " has not registered yet \u{2014} ask them to create an account before inviting."@,
{
    let head = concat("User ", email);
    AppError::BadRequest(
        concat(
            head.as_str(),
            " has not registered yet \u{2014} ask them to create an account before inviting.",
        ),
    )
}

// --- grants shown for a member ---

/// The grants among `grants` on collections of the organization whose
/// collection ids are `org_collections`, in order, each answered under the
/// collection's id.
pub open spec fn member_grants(grants: Seq<UserCollection>, org_collections: Seq<Seq<char>>) -> Seq<
    UserCollection,
>
    decreases grants.len(),
{
    if grants.len() == 0 {
        Seq::empty()
    } else {
        let rest = member_grants(grants.drop_last(), org_collections);
        if org_collections.contains(grants.last().collection_uuid@) {
            rest.push(grants.last())
        } else {
            rest
        }
    }
}

/// The selection answered for a grant.
pub open spec fn selection_matches(r: CollectionSelectionResponse, uc: UserCollection) -> bool {
    r.id@ == uc.collection_uuid@ && r.read_only == uc.read_only && r.hide_passwords
        == uc.hide_passwords && r.manage == uc.manage
}

/// A member's grants on the collections of one organization.
pub fn member_collections(grants: &Vec<UserCollection>, org_collections: &Vec<String>) -> (r: Vec<
    CollectionSelectionResponse,
>)
    ensures
        r@.len() == member_grants(grants@, org_collections@.map_values(|s: String| s@)).len(),
        forall|i: int|
            0 <= i < r@.len() ==> selection_matches(
                #[trigger] r@[i],
                member_grants(grants@, org_collections@.map_values(|s: String| s@))[i],
            ),
{
    let ghost ids = org_collections@.map_values(|s: String| s@);
    let mut out: Vec<CollectionSelectionResponse> = Vec::new();
    let n = grants.len();
    assert(grants@.subrange(0, 0) =~= Seq::<UserCollection>::empty());
    for i in 0..n
        invariant
            n == grants@.len(),
            ids == org_collections@.map_values(|s: String| s@),
            out@.len() == member_grants(grants@.subrange(0, i as int), ids).len(),
            forall|j: int|
                0 <= j < out@.len() ==> selection_matches(
                    #[trigger] out@[j],
                    member_grants(grants@.subrange(0, i as int), ids)[j],
                ),
    {
        let uc = &grants[i];
        assert(grants@.subrange(0, i + 1).drop_last() =~= grants@.subrange(0, i as int));
        let inside = contains_str(org_collections, uc.collection_uuid.as_str());
        proof {
            if inside {
                let w = choose|w: int|
                    0 <= w < org_collections@.len() && (#[trigger] org_collections@[w])@
                        == uc.collection_uuid@;
                assert(ids[w] == uc.collection_uuid@);
            } else {
                if ids.contains(uc.collection_uuid@) {
                    let w = choose|w: int| 0 <= w < ids.len() && ids[w] == uc.collection_uuid@;
                    assert(org_collections@[w]@ == uc.collection_uuid@);
                }
            }
        }
        if inside {
            out.push(selection_for_collection(uc));
        }
    }
    assert(grants@.subrange(0, n as int) =~= grants@);
    out
}

} // verus!
