//! The full-vault sync response and the equivalent-domain lists.

use vstd::prelude::*;
use crate::models::cipher::CipherResponse;
use crate::models::folder::FolderResponse;
use crate::models::organization::CollectionDetailsResponse;
use crate::models::send::SendResponse;
use crate::models::user::ProfileResponse;
use crate::text::owned;

verus! {

/// Everything a client needs to rebuild its vault. `policies` holds JSON
/// text.
pub struct SyncResponse {
    pub profile: ProfileResponse,
    pub ciphers: Vec<CipherResponse>,
    pub folders: Vec<FolderResponse>,
    pub collections: Vec<CollectionDetailsResponse>,
    pub policies: Vec<String>,
    pub sends: Vec<SendResponse>,
    pub domains: DomainsResponse,
    pub object: String,
}

/// A user's equivalent domains: their own groups, and the built-in groups
/// each marked excluded or not.
pub struct DomainsResponse {
    pub equivalent_domains: Vec<Vec<String>>,
    pub global_equivalent_domains: Vec<GlobalDomain>,
    pub object: String,
}

/// A built-in group of domains that share logins. `atype` is the JSON
/// `type`.
pub struct GlobalDomain {
    pub atype: i32,
    pub domains: Vec<String>,
    pub excluded: bool,
}

/// The characters of each text.
pub open spec fn views(v: Seq<String>) -> Seq<Seq<char>> {
    v.map_values(|s: String| s@)
}

/// The domains of built-in group `t`.
pub open spec fn global_domain_names(t: int) -> Seq<Seq<char>> {
    if t == 0 {
        seq!["google.com"@, "youtube.com"@, "gmail.com"@, "googlemail.com"@]
    } else if t == 1 {
        seq!["apple.com"@, "icloud.com"@, "me.com"@]
    } else if t == 2 {
        seq![
            "live.com"@,
            "microsoft.com"@,
            "microsoftonline.com"@,
            "outlook.com"@,
            "hotmail.com"@,
        ]
    } else {
        seq![
            "amazon.com"@,
            "amazon.co.uk"@,
            "amazon.ca"@,
            "amazon.de"@,
            "amazon.in"@,
            "amazon.co.jp"@,
        ]
    }
}

/// The number of built-in groups.
pub const GLOBAL_DOMAIN_GROUPS: usize = 4;

/// Built-in group `t` holds exactly its domains.
pub open spec fn is_global_group(g: GlobalDomain, t: int) -> bool {
    g.atype == t && views(g.domains@) == global_domain_names(t)
}

fn texts(names: &[&str]) -> (r: Vec<String>)
    ensures
        r@.len() == names@.len(),
        forall|i: int| 0 <= i < names@.len() ==> (#[trigger] r@[i])@ == names@[i]@,
{
    let mut r: Vec<String> = Vec::new();
    let n = names.len();
    for i in 0..n
        invariant
            n == names@.len(),
            r@.len() == i,
            forall|j: int| 0 <= j < i ==> (#[trigger] r@[j])@ == names@[j]@,
    {
        r.push(owned(names[i]));
    }
    r
}

/// The built-in groups, none excluded.
pub fn default_global_domains() -> (r: Vec<GlobalDomain>)
    ensures
        r@.len() == GLOBAL_DOMAIN_GROUPS,
        forall|t: int| 0 <= t < r@.len() ==> is_global_group(#[trigger] r@[t], t) && !r@[t].excluded,
{
    let g0 = texts(&["google.com", "youtube.com", "gmail.com", "googlemail.com"]);
    assert(views(g0@) =~= global_domain_names(0));
    let g1 = texts(&["apple.com", "icloud.com", "me.com"]);
    assert(views(g1@) =~= global_domain_names(1));
    let g2 = texts(
        &["live.com", "microsoft.com", "microsoftonline.com", "outlook.com", "hotmail.com"],
    );
    assert(views(g2@) =~= global_domain_names(2));
    let g3 = texts(
        &["amazon.com", "amazon.co.uk", "amazon.ca", "amazon.de", "amazon.in", "amazon.co.jp"],
    );
    assert(views(g3@) =~= global_domain_names(3));
    let mut r: Vec<GlobalDomain> = Vec::new();
    r.push(GlobalDomain { atype: 0, domains: g0, excluded: false });
    r.push(GlobalDomain { atype: 1, domains: g1, excluded: false });
    r.push(GlobalDomain { atype: 2, domains: g2, excluded: false });
    r.push(GlobalDomain { atype: 3, domains: g3, excluded: false });
    r
}

} // verus!
