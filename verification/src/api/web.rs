//! The FIDO2 trusted-facets list served with the web vault.

use vstd::prelude::*;
use crate::error::AppError;
use crate::text::owned;

verus! {

/// The facets trusted besides the server's own origin: the official iOS
/// and Android apps.
pub open spec fn mobile_facets() -> Seq<Seq<char>> {
    seq![
        "ios:bundle-id:com.8bit.bitwarden"@,
        "android:apk-key-hash:dUGFzUzf3lmHSLBDBIv+WaFyZMI"@,
        "android:apk-key-hash:-UqPJA7QUVi4M_F4UQDyI8AtQwE"@,
    ]
}

/// The ids of the trusted-facets list: the server's origin, so that
/// credentials are scoped to this deployment, then the mobile apps. With
/// the web vault disabled there is no list.
pub fn trusted_facet_ids(web_vault_enabled: bool, origin: &str) -> (r: Result<Vec<String>, AppError>)
    ensures
        web_vault_enabled ==> (r matches Ok(ids) && ids@.map_values(|s: String| s@) == seq![origin@]
            + mobile_facets()),
        !web_vault_enabled ==> (r matches Err(AppError::NotFound(m)) && m@ == "Web vault disabled"@),
{
    if !web_vault_enabled {
        return Err(AppError::NotFound(owned("Web vault disabled")));
    }
    let mut ids: Vec<String> = Vec::new();
    ids.push(owned(origin));
    ids.push(owned("ios:bundle-id:com.8bit.bitwarden"));
    ids.push(owned("android:apk-key-hash:dUGFzUzf3lmHSLBDBIv+WaFyZMI"));
    ids.push(owned("android:apk-key-hash:-UqPJA7QUVi4M_F4UQDyI8AtQwE"));
    assert(ids@.map_values(|s: String| s@) =~= seq![origin@] + mobile_facets());
    Ok(ids)
}

} // verus!
