//! What a sync shows of a user's organizations: confirmed memberships, the
//! collections each membership sees with the user's grants, and the
//! collection links of the ciphers the user may read.

use vstd::prelude::*;
use crate::api::ciphers::{spec_cipher_access, Access};
use crate::db::models::{Cipher, CipherCollection, Collection, Membership, UserCollection, STATUS_CONFIRMED};
use crate::models::organization::{clone_opt, CollectionDetailsResponse};
use crate::text::{contains_str, owned, str_eq};

verus! {

/// The confirmed memberships among `ms`, in order.
pub open spec fn confirmed(ms: Seq<Membership>) -> Seq<Membership>
    decreases ms.len(),
{
    if ms.len() == 0 {
        ms
    } else if ms.last().status == STATUS_CONFIRMED {
        confirmed(ms.drop_last()).push(ms.last())
    } else {
        confirmed(ms.drop_last())
    }
}

pub fn copy_membership(m: &Membership) -> (r: Membership)
    ensures
        r == *m,
{
    Membership {
        uuid: m.uuid.clone(),
        user_uuid: m.user_uuid.clone(),
        org_uuid: m.org_uuid.clone(),
        akey: clone_opt(&m.akey),
        atype: m.atype,
        status: m.status,
        access_all: m.access_all,
        external_id: clone_opt(&m.external_id),
        reset_password_key: clone_opt(&m.reset_password_key),
    }
}

/// Only confirmed memberships give access to an organization's data.
pub fn confirmed_memberships(ms: &Vec<Membership>) -> (r: Vec<Membership>)
    ensures
        r@ == confirmed(ms@),
{
    let mut out: Vec<Membership> = Vec::new();
    let n = ms.len();
    assert(ms@.subrange(0, 0) =~= Seq::<Membership>::empty());
    for i in 0..n
        invariant
            n == ms@.len(),
            out@ == confirmed(ms@.subrange(0, i as int)),
    {
        assert(ms@.subrange(0, i + 1).drop_last() =~= ms@.subrange(0, i as int));
        if ms[i].status == STATUS_CONFIRMED {
            out.push(copy_membership(&ms[i]));
        }
    }
    assert(ms@.subrange(0, n as int) =~= ms@);
    out
}

/// The user's first grant on collection `col`.
pub open spec fn first_grant(grants: Seq<UserCollection>, col: Seq<char>) -> Option<UserCollection>
    decreases grants.len(),
{
    if grants.len() == 0 {
        None
    } else if grants[0].collection_uuid@ == col {
        Some(grants[0])
    } else {
        first_grant(grants.drop_first(), col)
    }
}

fn find_grant<'a>(grants: &'a Vec<UserCollection>, col: &str) -> (r: Option<&'a UserCollection>)
    ensures
        match r {
            Some(g) => first_grant(grants@, col@) == Some(*g),
            None => first_grant(grants@, col@) is None,
        },
{
    let n = grants.len();
    let mut i: usize = 0;
    assert(grants@.subrange(0, n as int) =~= grants@);
    while i < n
        invariant
            n == grants@.len(),
            i <= n,
            first_grant(grants@, col@) == first_grant(grants@.subrange(i as int, n as int), col@),
        decreases n - i,
    {
        if str_eq(grants[i].collection_uuid.as_str(), col) {
            return Some(&grants[i]);
        }
        assert(grants@.subrange(i as int, n as int).drop_first() =~= grants@.subrange(
            i + 1,
            n as int,
        ));
        i = i + 1;
    }
    None
}

/// Whether a membership sees every collection of its organization: Owners,
/// Admins and members with `access_all`.
pub open spec fn sees_all(m: Membership) -> bool {
    m.access_all || m.atype <= 1
}

/// An Owner (role 0), an Admin (role 1) or a member with access to all
/// collections sees every collection of the organization; a member of any
/// other role without access to all sees only the collections it holds a
/// grant on, and a collection without one is left out of its sync.
pub proof fn law_who_sees_every_collection(m: Membership, grants: Seq<UserCollection>, col: Seq<char>)
    ensures
        m.atype == 0 || m.atype == 1 || m.access_all ==> sees_all(m),
        m.atype >= 2 && !m.access_all ==> !sees_all(m),
        m.atype >= 2 && !m.access_all && first_grant(grants, col) is None ==> !(sees_all(m) || first_grant(
            grants,
            col,
        ) is Some),
{
}

/// What a sync shows agrees with access control: a confirmed membership
/// sees every collection exactly when it may read and change every cipher
/// of its organization without any collection grant.
pub proof fn law_seeing_all_is_full_cipher_access(user: Seq<char>, cipher: Cipher, m: Membership)
    requires
        !(cipher.user_uuid matches Some(u) && u@ == user),
        cipher.organization_uuid is Some,
        m.status == STATUS_CONFIRMED,
    ensures
        sees_all(m) <==> spec_cipher_access(user, cipher, Some(m), Seq::empty(), Access::Write),
        sees_all(m) <==> spec_cipher_access(user, cipher, Some(m), Seq::empty(), Access::Read),
{
}

/// The sync entry for collection `col` of membership `m`: shown when the
/// membership sees every collection or the user has a grant on it. The
/// grant's flags are shown; without one, nothing is read-only or hidden,
/// and the collection is managed exactly when the membership sees all.
pub fn collection_details(col: &Collection, m: &Membership, grants: &Vec<UserCollection>) -> (r:
    Option<CollectionDetailsResponse>)
    ensures
        match first_grant(grants@, col.uuid@) {
            Some(g) => r matches Some(d) && d.read_only == g.read_only && d.hide_passwords
                == g.hide_passwords && d.manage == g.manage,
            None => if sees_all(*m) {
                r matches Some(d) && !d.read_only && !d.hide_passwords && d.manage
            } else {
                r is None
            },
        },
        r matches Some(d) ==> d.id == col.uuid && d.organization_id == col.org_uuid && d.name
            == col.name && d.external_id == col.external_id && d.object@ == "collectionDetails"@,
{
    let g = find_grant(grants, col.uuid.as_str());
    let all = m.access_all || m.atype <= 1;
    if !all && g.is_none() {
        return None;
    }
    let (read_only, hide_passwords, manage) = match g {
        Some(u) => (u.read_only, u.hide_passwords, u.manage),
        None => (false, false, all),
    };
    Some(
        CollectionDetailsResponse {
            id: col.uuid.clone(),
            organization_id: col.org_uuid.clone(),
            name: col.name.clone(),
            external_id: clone_opt(&col.external_id),
            read_only,
            hide_passwords,
            manage,
            object: owned("collectionDetails"),
        },
    )
}

/// The links among `links` whose cipher is one of `accessible`, in order.
pub open spec fn accessible_links(links: Seq<CipherCollection>, accessible: Seq<Seq<char>>) -> Seq<
    CipherCollection,
>
    decreases links.len(),
{
    if links.len() == 0 {
        links
    } else if accessible.contains(links.last().cipher_uuid@) {
        accessible_links(links.drop_last(), accessible).push(links.last())
    } else {
        accessible_links(links.drop_last(), accessible)
    }
}

fn copy_link(l: &CipherCollection) -> (r: CipherCollection)
    ensures
        r == *l,
{
    CipherCollection { cipher_uuid: l.cipher_uuid.clone(), collection_uuid: l.collection_uuid.clone() }
}

/// Keep the collection links of the ciphers the user may read, so that a
/// sync does not reveal which collections hold other ciphers.
pub fn filter_accessible_links(links: &Vec<CipherCollection>, accessible: &Vec<String>) -> (r: Vec<
    CipherCollection,
>)
    ensures
        r@ == accessible_links(links@, accessible@.map_values(|s: String| s@)),
{
    let ghost ids = accessible@.map_values(|s: String| s@);
    let mut out: Vec<CipherCollection> = Vec::new();
    let n = links.len();
    assert(links@.subrange(0, 0) =~= Seq::<CipherCollection>::empty());
    for i in 0..n
        invariant
            n == links@.len(),
            ids == accessible@.map_values(|s: String| s@),
            out@ == accessible_links(links@.subrange(0, i as int), ids),
    {
        let l = &links[i];
        assert(links@.subrange(0, i + 1).drop_last() =~= links@.subrange(0, i as int));
        let inside = contains_str(accessible, l.cipher_uuid.as_str());
        proof {
            if inside {
                let w = choose|w: int|
                    0 <= w < accessible@.len() && (#[trigger] accessible@[w])@ == l.cipher_uuid@;
                assert(ids[w] == l.cipher_uuid@);
            } else if ids.contains(l.cipher_uuid@) {
                let w = choose|w: int| 0 <= w < ids.len() && ids[w] == l.cipher_uuid@;
                assert(accessible@[w]@ == l.cipher_uuid@);
            }
        }
        if inside {
            out.push(copy_link(l));
        }
    }
    assert(links@.subrange(0, n as int) =~= links@);
    out
}

} // verus!
