//! The server configuration clients fetch before logging in.

use vstd::prelude::*;
use crate::text::{concat, owned};

verus! {

/// `GET /api/config`. `feature_states` holds JSON text.
pub struct ConfigResponse {
    pub version: String,
    pub git_hash: String,
    pub server: ServerInfo,
    pub environment: EnvironmentUrls,
    pub feature_states: String,
    pub object: String,
}

pub struct ServerInfo {
    pub name: String,
    pub url: String,
}

/// Where clients find each service.
pub struct EnvironmentUrls {
    pub api: String,
    pub identity: String,
    pub notifications: String,
    pub sso: String,
}

/// The server version clients are told, which decides the features they
/// use.
pub const SERVER_VERSION: &'static str = "2024.1.0";

impl ConfigResponse {
    /// The configuration of a server reached at `domain` (its origin, with
    /// no trailing slash): every service lives under it, with no SSO and no
    /// feature flags.
    pub fn for_domain(domain: &str) -> (r: ConfigResponse)
        ensures
            r.version@ == SERVER_VERSION@,
            r.git_hash@ == ""@,
            r.server.name@ == "orangevault"@,
            r.server.url@ == ""@,
            r.environment.api@ == domain@ + "/api"@,
            r.environment.identity@ == domain@ + "/identity"@,
            r.environment.notifications@ == domain@ + "/notifications"@,
            r.environment.sso@ == ""@,
            r.feature_states@ == "{}"@,
            r.object@ == "config"@,
    {
        ConfigResponse {
            version: owned(SERVER_VERSION),
            git_hash: owned(""),
            server: ServerInfo { name: owned("orangevault"), url: owned("") },
            environment: EnvironmentUrls {
                api: concat(domain, "/api"),
                identity: concat(domain, "/identity"),
                notifications: concat(domain, "/notifications"),
                sso: owned(""),
            },
            feature_states: owned("{}"),
            object: owned("config"),
        }
    }
}

} // verus!
