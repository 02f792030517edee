//! Response headers: which browser origins may call the API, and the
//! headers that harden every response.

use vstd::prelude::*;
use crate::config::{parse_origin, url_origin};
use crate::text::{eq_ignore_ascii_case, eq_ignore_ascii_case_str, owned};

verus! {

/// The methods and headers cross-origin callers may use, and how long a
/// preflight answer may be cached.
pub const ALLOWED_METHODS: &'static str = "GET, POST, PUT, DELETE, OPTIONS";
pub const ALLOWED_HEADERS: &'static str = "Authorization, Content-Type, Accept, Device-Type, Bitwarden-Client-Name, Bitwarden-Client-Version";
pub const MAX_AGE: &'static str = "86400";

/// A request's `Origin` is echoed back only when it is the origin of the
/// configured domain, ignoring ASCII case; otherwise the browser blocks the
/// call.
pub open spec fn origin_allowed(origin: Seq<char>, domain: Option<Seq<char>>) -> bool {
    domain matches Some(d) && url_origin(d) matches Some(o) && eq_ignore_ascii_case(origin, o)
}

pub fn resolve_allowed_origin(origin: Option<&str>, domain: Option<&str>) -> (r: Option<String>)
    ensures
        match origin {
            Some(o) => if origin_allowed(
                o@,
                match domain {
                    Some(d) => Some(d@),
                    None => None,
                },
            ) {
                r matches Some(s) && s@ == o@
            } else {
                r is None
            },
            None => r is None,
        },
{
    let o = match origin {
        Some(o) => o,
        None => return None,
    };
    let d = match domain {
        Some(d) => d,
        None => return None,
    };
    let allowed = match parse_origin(d) {
        Ok(x) => eq_ignore_ascii_case_str(o, x.as_str()),
        Err(_) => false,
    };
    if allowed {
        Some(owned(o))
    } else {
        None
    }
}

/// A header name and value.
pub open spec fn header(name: Seq<char>, value: Seq<char>) -> (Seq<char>, Seq<char>) {
    (name, value)
}

pub open spec fn header_views(h: Seq<(String, String)>) -> Seq<(Seq<char>, Seq<char>)> {
    h.map_values(|p: (String, String)| (p.0@, p.1@))
}

/// The CORS headers of a response: the approved origin (if any) with
/// credentials allowed, then the allowed methods and headers, then, for a
/// preflight answer, how long it may be cached.
pub open spec fn cors_header_list(approved: Option<Seq<char>>, preflight: bool) -> Seq<(Seq<char>, Seq<char>)> {
    let origin_part = match approved {
        Some(o) => seq![
            header("Access-Control-Allow-Origin"@, o),
            header("Vary"@, "Origin"@),
            header("Access-Control-Allow-Credentials"@, "true"@),
        ],
        None => Seq::empty(),
    };
    let common = origin_part + seq![
        header("Access-Control-Allow-Methods"@, ALLOWED_METHODS@),
        header("Access-Control-Allow-Headers"@, ALLOWED_HEADERS@),
    ];
    if preflight {
        common.push(header("Access-Control-Max-Age"@, MAX_AGE@))
    } else {
        common
    }
}

fn pair(name: &str, value: &str) -> (r: (String, String))
    ensures
        r.0@ == name@ && r.1@ == value@,
{
    (owned(name), owned(value))
}

pub fn cors_headers(approved: Option<&str>, preflight: bool) -> (r: Vec<(String, String)>)
    ensures
        header_views(r@) == cors_header_list(
            match approved {
                Some(o) => Some(o@),
                None => None,
            },
            preflight,
        ),
{
    let mut r: Vec<(String, String)> = Vec::new();
    if let Some(o) = approved {
        r.push(pair("Access-Control-Allow-Origin", o));
        r.push(pair("Vary", "Origin"));
        r.push(pair("Access-Control-Allow-Credentials", "true"));
    }
    r.push(pair("Access-Control-Allow-Methods", ALLOWED_METHODS));
    r.push(pair("Access-Control-Allow-Headers", ALLOWED_HEADERS));
    if preflight {
        r.push(pair("Access-Control-Max-Age", MAX_AGE));
    }
    assert(header_views(r@) =~= cors_header_list(
        match approved {
            Some(o) => Some(o@),
            None => None,
        },
        preflight,
    ));
    r
}

/// The hardening headers on every response that is not a WebSocket
/// upgrade: HTTPS only for two years, no MIME sniffing, no referrer, and
/// no framing.
pub open spec fn security_header_list() -> Seq<(Seq<char>, Seq<char>)> {
    seq![
        header("Strict-Transport-Security"@, "max-age=63072000; includeSubDomains"@),
        header("X-Content-Type-Options"@, "nosniff"@),
        header("Referrer-Policy"@, "no-referrer"@),
        header("X-Frame-Options"@, "DENY"@),
        header("Content-Security-Policy"@, "frame-ancestors 'none'"@),
    ]
}

pub fn security_headers() -> (r: Vec<(String, String)>)
    ensures
        header_views(r@) == security_header_list(),
{
    let mut r: Vec<(String, String)> = Vec::new();
    r.push(pair("Strict-Transport-Security", "max-age=63072000; includeSubDomains"));
    r.push(pair("X-Content-Type-Options", "nosniff"));
    r.push(pair("Referrer-Policy", "no-referrer"));
    r.push(pair("X-Frame-Options", "DENY"));
    r.push(pair("Content-Security-Policy", "frame-ancestors 'none'"));
    assert(header_views(r@) =~= security_header_list());
    r
}

} // verus!
