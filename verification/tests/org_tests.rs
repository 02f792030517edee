use orangevault::api::organizations::{
    check_accept_invite, check_collection_in_org, check_confirm, check_member_removal,
    check_member_update, check_membership_in_org, count_owners, initial_collection,
    invite_email, invited_membership, member_collections, not_registered, organization_from_request,
    owner_membership, require_admin, require_member,
};
use orangevault::api::sync::{collection_details, confirmed_memberships, filter_accessible_links};
use orangevault::db::models::{CipherCollection, Collection, Membership, UserCollection};
use orangevault::error::AppError;
use orangevault::models::organization::{InviteRequest, OrgCreateRequest, OrgKeys, OrganizationResponse};

fn member(uuid: &str, atype: i32, status: i32) -> Membership {
    Membership {
        uuid: uuid.to_string(),
        user_uuid: format!("user-{uuid}"),
        org_uuid: "org".to_string(),
        akey: None,
        atype,
        status,
        access_all: false,
        external_id: None,
        reset_password_key: None,
    }
}

fn grant(col: &str, read_only: bool) -> UserCollection {
    UserCollection {
        user_uuid: "u".to_string(),
        collection_uuid: col.to_string(),
        read_only,
        hide_passwords: false,
        manage: true,
    }
}

fn forbidden(r: Result<(), AppError>) -> String {
    match r {
        Err(AppError::Forbidden(m)) => m,
        _ => panic!("expected forbidden"),
    }
}

fn bad_request(r: Result<(), AppError>) -> String {
    match r {
        Err(AppError::BadRequest(m)) => m,
        _ => panic!("expected bad request"),
    }
}

#[test]
fn membership_requirements() {
    assert!(matches!(require_member(None), Err(AppError::Forbidden(m)) if m == "Not a member"));
    assert!(matches!(require_member(Some(member("a", 2, 1))), Err(AppError::Forbidden(m)) if m == "Membership not confirmed"));
    assert_eq!(require_member(Some(member("a", 2, 2))).ok().unwrap().uuid, "a");
    assert!(matches!(require_admin(Some(member("a", 2, 2))), Err(AppError::Forbidden(m)) if m == "Admin access required"));
    assert!(matches!(require_admin(Some(member("a", 3, 2))), Err(AppError::Forbidden(_))));
    assert!(require_admin(Some(member("a", 1, 2))).is_ok());
    assert!(require_admin(Some(member("a", 0, 2))).is_ok());
}

#[test]
fn only_owners_edit_owners() {
    assert_eq!(forbidden(check_member_update(1, 0, 0, 2)), "Only Owners can edit Owner users");
    assert!(check_member_update(0, 0, 0, 2).is_ok());
}

#[test]
fn only_owners_grant_or_revoke_privileged_roles() {
    let msg = "Only Owners can grant or remove Owner or Admin privileges";
    assert_eq!(forbidden(check_member_update(1, 2, 1, 3)), msg);
    assert_eq!(forbidden(check_member_update(1, 2, 0, 3)), msg);
    assert_eq!(forbidden(check_member_update(1, 1, 2, 3)), msg);
    // Admins may move members between User and Manager.
    assert!(check_member_update(1, 2, 3, 3).is_ok());
    // Keeping an admin an admin is not a change of privilege.
    assert!(check_member_update(1, 1, 1, 3).is_ok());
    assert!(check_member_update(0, 2, 1, 3).is_ok());
}

#[test]
fn the_last_owner_stays() {
    assert_eq!(bad_request(check_member_update(0, 0, 1, 1)), "Cannot demote the last owner");
    assert!(check_member_update(0, 0, 1, 2).is_ok());
    assert_eq!(bad_request(check_member_removal(0, 0, 1)), "Cannot remove the last owner");
    assert!(check_member_removal(0, 0, 2).is_ok());
    assert_eq!(forbidden(check_member_removal(1, 0, 5)), "Only Owners can remove Owner users");
    assert!(check_member_removal(1, 2, 1).is_ok());
}

#[test]
fn owners_are_counted() {
    let ms = vec![member("a", 0, 2), member("b", 1, 2), member("c", 0, 1), member("d", 2, 2)];
    assert_eq!(count_owners(&ms), 2);
    assert_eq!(count_owners(&vec![]), 0);
}

#[test]
fn owner_kept_through_allowed_changes() {
    // Walk through every change the checks allow on a small organization and
    // see that an owner is left each time.
    let ms = vec![member("a", 0, 2), member("b", 0, 2), member("c", 1, 2), member("d", 2, 2)];
    for k in 0..ms.len() {
        for requester in 0..4 {
            for new_type in 0..4 {
                let n = count_owners(&ms);
                if check_member_update(requester, ms[k].atype, new_type, n).is_ok() {
                    let mut after = ms.clone();
                    after[k].atype = new_type;
                    assert!(count_owners(&after) >= 1);
                }
            }
            if check_member_removal(requester, ms[k].atype, count_owners(&ms)).is_ok() {
                let mut after = ms.clone();
                after.remove(k);
                assert!(count_owners(&after) >= 1);
            }
        }
    }
}

#[test]
fn addressed_rows_belong_to_the_org() {
    let col = Collection { uuid: "c".into(), org_uuid: "org".into(), name: "n".into(), external_id: None };
    assert!(check_collection_in_org(Some(&col), "org").is_ok());
    assert!(matches!(check_collection_in_org(Some(&col), "other"), Err(AppError::Forbidden(m)) if m == "Collection not in this org"));
    assert!(matches!(check_collection_in_org(None, "org"), Err(AppError::NotFound(m)) if m == "Collection not found"));
    let m = member("a", 2, 1);
    assert!(check_membership_in_org(Some(&m), "org").is_ok());
    assert!(matches!(check_membership_in_org(Some(&m), "x"), Err(AppError::NotFound(s)) if s == "Membership not found"));
}

#[test]
fn invitations_are_accepted_then_confirmed() {
    let invited = member("a", 2, 0);
    assert!(check_accept_invite(Some(&invited), "org", "user-a").is_ok());
    assert!(matches!(check_accept_invite(Some(&invited), "org", "user-b"), Err(AppError::Forbidden(m)) if m == "Not your invitation"));
    let confirmed = member("a", 2, 2);
    assert!(matches!(check_accept_invite(Some(&confirmed), "org", "user-a"), Err(AppError::BadRequest(m)) if m == "Already accepted"));
    assert!(matches!(check_confirm(Some(&invited), "org"), Err(AppError::BadRequest(m)) if m == "Member must be in Accepted state to confirm"));
    assert!(check_confirm(Some(&member("a", 2, 1)), "org").is_ok());
    assert!(matches!(check_confirm(None, "org"), Err(AppError::NotFound(_))));
}

#[test]
fn new_organization_rows() {
    let body = OrgCreateRequest {
        name: "Acme".into(),
        billing_email: "b@acme.test".into(),
        key: "orgkey".into(),
        keys: Some(OrgKeys { encrypted_private_key: "priv".into(), public_key: "pub".into() }),
        collection_name: Some("Default".into()),
    };
    let org = organization_from_request("o1".into(), &body);
    assert_eq!(org.private_key.as_deref(), Some("priv"));
    assert_eq!(org.public_key.as_deref(), Some("pub"));
    let resp = OrganizationResponse::from_db(&org);
    assert!(resp.has_public_and_private_keys);
    assert_eq!(resp.object, "organization");
    let m = owner_membership("m1".into(), "u1", "o1", "orgkey");
    assert_eq!((m.atype, m.status, m.access_all), (0, 2, true));
    assert_eq!(m.akey.as_deref(), Some("orgkey"));
    assert_eq!(initial_collection("c1".into(), "o1", &Some("Default".into())).map(|c| c.name), Some("Default".to_string()));
    assert!(initial_collection("c1".into(), "o1", &Some(String::new())).is_none());
    assert!(initial_collection("c1".into(), "o1", &None).is_none());
}

#[test]
fn invited_members_wait_for_confirmation() {
    let body = InviteRequest { emails: vec!["x@y.z".into()], atype: 2, access_all: true, collections: vec![] };
    let m = invited_membership("m".into(), "u".into(), "o", &body);
    assert_eq!((m.atype, m.status, m.access_all), (2, 1, true));
    assert!(m.akey.is_none());
    match not_registered("x@y.z") {
        AppError::BadRequest(msg) => assert_eq!(msg, "User x@y.z has not registered yet \u{2014} ask them to create an account before inviting."),
        _ => panic!("expected bad request"),
    }
}

#[test]
fn member_grants_are_limited_to_the_org() {
    let grants = vec![grant("c1", true), grant("x", false), grant("c2", false)];
    let sel = member_collections(&grants, &vec!["c1".to_string(), "c2".to_string()]);
    let ids: Vec<&str> = sel.iter().map(|s| s.id.as_str()).collect();
    assert_eq!(ids, vec!["c1", "c2"]);
    assert!(sel[0].read_only && !sel[1].read_only);
}

#[test]
fn sync_shows_collections_by_role_or_grant() {
    let col = Collection { uuid: "c1".into(), org_uuid: "org".into(), name: "n".into(), external_id: None };
    let user = member("a", 2, 2);
    assert!(collection_details(&col, &user, &vec![]).is_none());
    let d = collection_details(&col, &user, &vec![grant("c1", true)]).unwrap();
    assert!(d.read_only && d.manage);
    let admin = member("b", 1, 2);
    let d = collection_details(&col, &admin, &vec![]).unwrap();
    assert!(!d.read_only && !d.hide_passwords && d.manage);
    assert_eq!(d.object, "collectionDetails");
    let mut all = member("c", 2, 2);
    all.access_all = true;
    assert!(collection_details(&col, &all, &vec![]).is_some());
}

#[test]
fn sync_keeps_confirmed_memberships_and_accessible_links() {
    let ms = vec![member("a", 2, 2), member("b", 2, 1), member("c", 0, 2)];
    let kept: Vec<String> = confirmed_memberships(&ms).into_iter().map(|m| m.uuid).collect();
    assert_eq!(kept, vec!["a", "c"]);
    let links = vec![
        CipherCollection { cipher_uuid: "x".into(), collection_uuid: "c1".into() },
        CipherCollection { cipher_uuid: "y".into(), collection_uuid: "c1".into() },
        CipherCollection { cipher_uuid: "x".into(), collection_uuid: "c2".into() },
    ];
    let kept = filter_accessible_links(&links, &vec!["x".to_string()]);
    let cols: Vec<&str> = kept.iter().map(|l| l.collection_uuid.as_str()).collect();
    assert_eq!(cols, vec!["c1", "c2"]);
}

#[test]
fn invite_emails_are_trimmed_and_lowercased() {
    assert_eq!(invite_email("  Alice@Example.COM \n"), Some("alice@example.com".to_string()));
    assert_eq!(invite_email(" \t "), None);
    assert_eq!(invite_email(""), None);
}
