//! Account endpoints: prelogin, profile, master-password checks, API keys
//! and equivalent domains.

use vstd::prelude::*;
use crate::crypto::random::is_random_failure;
use crate::crypto::random::random_bytes;
use crate::crypto::DEFAULT_CLIENT_KDF_ITERATIONS;
use crate::db::models::User;
use crate::error::AppError;
use crate::models::send::opt_view;
use crate::models::sync::{default_global_domains, is_global_group, DomainsResponse, GlobalDomain, GLOBAL_DOMAIN_GROUPS};
use crate::models::user::{ApiKeyResponse, PreloginResponse, ProfileResponse};
use crate::text::owned;
use crate::util::{hex_encode, hex_text};

verus! {

/// The KDF settings a client derives its master key with. An unknown email
/// gets the defaults, so that prelogin does not reveal which accounts
/// exist.
pub fn prelogin_response(user: Option<&User>) -> (r: PreloginResponse)
    ensures
        match user {
            Some(u) => r.kdf == u.client_kdf_type && r.kdf_iterations == u.client_kdf_iter
                && r.kdf_memory == u.client_kdf_memory && r.kdf_parallelism
                == u.client_kdf_parallelism,
            None => r.kdf == 0 && r.kdf_iterations == DEFAULT_CLIENT_KDF_ITERATIONS && r.kdf_memory
                is None && r.kdf_parallelism is None,
        },
{
    match user {
        Some(u) => PreloginResponse {
            kdf: u.client_kdf_type,
            kdf_iterations: u.client_kdf_iter,
            kdf_memory: u.client_kdf_memory,
            kdf_parallelism: u.client_kdf_parallelism,
        },
        None => PreloginResponse {
            kdf: 0,
            kdf_iterations: DEFAULT_CLIENT_KDF_ITERATIONS,
            kdf_memory: None,
            kdf_parallelism: None,
        },
    }
}

/// Account changes go ahead only when the master password hash checked out.
pub fn require_master_password(valid: bool) -> (r: Result<(), AppError>)
    ensures
        valid <==> r is Ok,
        !valid ==> (r matches Err(AppError::BadRequest(m)) && m@ == "Invalid master password"@),
{
    if !valid {
        return Err(AppError::BadRequest(owned("Invalid master password")));
    }
    Ok(())
}

/// The profile of `user`. `organizations` holds the JSON of the user's
/// confirmed organizations; `two_factor_count` is the number of second
/// factors the user has.
pub fn build_profile_from_user(
    user: &User,
    organizations: Vec<String>,
    two_factor_count: usize,
    premium: bool,
) -> (r: ProfileResponse)
    ensures
        r.id == user.uuid,
        r.name == user.name,
        r.email == user.email,
        r.email_verified == user.email_verified,
        r.premium == premium,
        r.master_password_hint is None,
        r.culture@ == "en-US"@,
        r.two_factor_enabled == (two_factor_count > 0),
        r.key@ == match user.akey {
            Some(k) => k@,
            None => Seq::empty(),
        },
        opt_view(r.private_key) == opt_view(user.private_key),
        r.security_stamp == user.security_stamp,
        r.organizations == organizations,
        r.providers@.len() == 0,
        !r.force_password_reset,
        opt_view(r.avatar_color) == opt_view(user.avatar_color),
        r.object@ == "profile"@,
{
    ProfileResponse {
        id: user.uuid.clone(),
        name: user.name.clone(),
        email: user.email.clone(),
        email_verified: user.email_verified,
        premium,
        master_password_hint: None,
        culture: owned("en-US"),
        two_factor_enabled: two_factor_count > 0,
        key: match &user.akey {
            Some(k) => k.clone(),
            None => String::new(),
        },
        private_key: match &user.private_key {
            Some(k) => Some(k.clone()),
            None => None,
        },
        security_stamp: user.security_stamp.clone(),
        organizations,
        providers: Vec::new(),
        force_password_reset: false,
        avatar_color: match &user.avatar_color {
            Some(c) => Some(c.clone()),
            None => None,
        },
        object: owned("profile"),
    }
}

/// The name a profile update leaves: the requested one, else the current.
pub fn profile_name(requested: Option<String>, current: &String) -> (r: String)
    ensures
        match requested {
            Some(n) => r == n,
            None => r == *current,
        },
{
    match requested {
        Some(n) => n,
        None => current.clone(),
    }
}

/// Bytes of randomness in an API key.
pub const API_KEY_BYTES: usize = 30;

/// A fresh API key: random bytes in lowercase hex.
pub fn new_api_key() -> (r: Result<String, AppError>)
    ensures
        r matches Ok(k) ==> exists|b: Seq<u8>| b.len() == API_KEY_BYTES && k@ == hex_text(b),
        r matches Err(e) ==> is_random_failure(e),
{
    let bytes = random_bytes(API_KEY_BYTES)?;
    let k = hex_encode(bytes.as_slice());
    assert(bytes@.len() == API_KEY_BYTES && k@ == hex_text(bytes@));
    Ok(k)
}

/// The user's API key, made on first request. The flag says whether the
/// key is new and must be stored.
pub fn api_key_or_new(existing: Option<String>) -> (r: Result<(String, bool), AppError>)
    ensures
        match existing {
            Some(k) => r == Ok::<(String, bool), AppError>((k, false)),
            None => match r {
                Ok((k, fresh)) => fresh && exists|b: Seq<u8>| b.len() == API_KEY_BYTES && k@ == hex_text(b),
                Err(e) => is_random_failure(e),
            },
        },
{
    match existing {
        Some(k) => Ok((k, false)),
        None => {
            let k = new_api_key()?;
            Ok((k, true))
        },
    }
}

pub fn api_key_response(api_key: String) -> (r: ApiKeyResponse)
    ensures
        r.api_key == api_key,
        r.object@ == "apiKey"@,
{
    ApiKeyResponse { api_key, object: owned("apiKey") }
}

/// Whether `v` holds `x`.
pub fn contains_i32(v: &Vec<i32>, x: i32) -> (r: bool)
    ensures
        r == v@.contains(x),
{
    let n = v.len();
    for i in 0..n
        invariant
            n == v@.len(),
            forall|j: int| 0 <= j < i ==> v@[j] != x,
    {
        if v[i] == x {
            assert(v@[i as int] == x);
            return true;
        }
    }
    false
}

/// What `serde_json::from_str::<Vec<i32>>` makes of `text`; `None` when it
/// refuses the text.
pub uninterp spec fn json_int_list(text: Seq<char>) -> Option<Seq<i32>>;

/// What `serde_json::from_str::<Vec<Vec<String>>>` makes of `text`; `None`
/// when it refuses the text.
pub uninterp spec fn json_text_groups(text: Seq<char>) -> Option<Seq<Seq<Seq<char>>>>;

/// `serde_json::from_str::<Vec<i32>>(text).ok()`.
#[verifier::external_body]
fn parse_int_list(text: &str) -> (r: Option<Vec<i32>>)
    ensures
        match r {
            Some(v) => json_int_list(text@) == Some(v@),
            None => json_int_list(text@) is None,
        },
{
    serde_json::from_str(text).ok()
}

/// `serde_json::from_str::<Vec<Vec<String>>>(text).ok()`.
#[verifier::external_body]
fn parse_text_groups(text: &str) -> (r: Option<Vec<Vec<String>>>)
    ensures
        match r {
            Some(v) => json_text_groups(text@) == Some(v.deep_view()),
            None => json_text_groups(text@) is None,
        },
{
    serde_json::from_str(text).ok()
}

/// The excluded built-in groups a stored setting holds: its JSON list, or
/// none when the setting is missing or unreadable.
pub open spec fn stored_exclusions(text: Option<Seq<char>>) -> Seq<i32> {
    match text {
        Some(t) => match json_int_list(t) {
            Some(v) => v,
            None => Seq::empty(),
        },
        None => Seq::empty(),
    }
}

/// The user's own groups a stored setting holds: its JSON list of lists,
/// or none when the setting is missing or unreadable.
pub open spec fn stored_groups(text: Option<Seq<char>>) -> Seq<Seq<Seq<char>>> {
    match text {
        Some(t) => match json_text_groups(t) {
            Some(v) => v,
            None => Seq::empty(),
        },
        None => Seq::empty(),
    }
}

/// The domain settings as stored: the excluded built-in group types and
/// the user's own groups; unreadable text counts as empty.
pub fn stored_domain_settings(global: &Option<String>, custom: &Option<String>) -> (r: (Vec<i32>, Vec<Vec<String>>))
    ensures
        r.0@ == stored_exclusions(opt_view(*global)),
        r.1.deep_view() == stored_groups(opt_view(*custom)),
{
    let excluded = match global {
        Some(t) => match parse_int_list(t.as_str()) {
            Some(v) => v,
            None => Vec::new(),
        },
        None => Vec::new(),
    };
    let groups = match custom {
        Some(t) => match parse_text_groups(t.as_str()) {
            Some(v) => v,
            None => Vec::new(),
        },
        None => Vec::new(),
    };
    (excluded, groups)
}

/// The domains response: the user's own groups as given, and every
/// built-in group, excluded exactly when its type is in `excluded_globals`.
pub fn build_domains_response_from_data(excluded_globals: &Vec<i32>, custom_domains: Vec<Vec<String>>) -> (r:
    DomainsResponse)
    ensures
        r.equivalent_domains == custom_domains,
        r.global_equivalent_domains@.len() == GLOBAL_DOMAIN_GROUPS,
        forall|t: int|
            0 <= t < GLOBAL_DOMAIN_GROUPS ==> is_global_group(
                #[trigger] r.global_equivalent_domains@[t],
                t,
            ) && r.global_equivalent_domains@[t].excluded == excluded_globals@.contains(t as i32),
        r.object@ == "domains"@,
{
    let mut rest = default_global_domains();
    let ghost original = rest@;
    // Take the groups out front to back, marking each.
    let mut k: usize = 0;
    let mut taken: Vec<GlobalDomain> = Vec::new();
    while rest.len() > 0
        invariant
            original.len() == GLOBAL_DOMAIN_GROUPS,
            forall|t: int| 0 <= t < original.len() ==> is_global_group(#[trigger] original[t], t),
            k + rest@.len() == GLOBAL_DOMAIN_GROUPS,
            rest@ == original.subrange(k as int, GLOBAL_DOMAIN_GROUPS as int),
            taken@.len() == k,
            forall|t: int|
                0 <= t < k ==> is_global_group(#[trigger] taken@[t], t) && taken@[t].excluded
                    == excluded_globals@.contains(t as i32),
        decreases rest@.len(),
    {
        let mut g = rest.remove(0);
        assert(g == original[k as int]);
        g.excluded = contains_i32(excluded_globals, g.atype);
        taken.push(g);
        k = k + 1;
        assert(rest@ =~= original.subrange(k as int, GLOBAL_DOMAIN_GROUPS as int));
    }
    DomainsResponse {
        equivalent_domains: custom_domains,
        global_equivalent_domains: taken,
        object: owned("domains"),
    }
}

} // verus!
