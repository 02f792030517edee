//! Favicon proxy: which hostnames may be fetched.

use vstd::prelude::*;
use crate::error::AppError;
use crate::text::{ascii_lower, chars_eq_str, chars_of, ends_with, has_suffix, owned, string_of};

verus! {

/// A character allowed in a hostname: ASCII letter or digit, `.` or `-`.
pub open spec fn hostname_char(c: char) -> bool {
    let u = c as u32;
    (48 <= u <= 57) || (65 <= u <= 90) || (97 <= u <= 122) || c == '.' || c == '-'
}

pub open spec fn is_ascii_digit(c: char) -> bool {
    48 <= (c as u32) <= 57
}

/// The labels after the last dot, when there is a dot.
pub open spec fn last_dot(s: Seq<char>) -> Option<int> {
    if exists|i: int| 0 <= i < s.len() && s[i] == '.' {
        Some(choose|i: int| 0 <= i < s.len() && s[i] == '.' && forall|j: int| i < j < s.len() ==> s[j] != '.')
    } else {
        None
    }
}

/// Suffixes of names that only resolve inside a private network.
pub open spec fn private_name(s: Seq<char>) -> bool {
    s == "localhost"@ || has_suffix(s, ".localhost"@) || has_suffix(s, ".local"@) || has_suffix(s, ".internal"@)
        || has_suffix(s, ".intranet"@) || has_suffix(s, ".cluster.local"@)
}

/// A plain registrable hostname (already lowercased): 1 to 253 characters
/// from `[a-z0-9.-]`, no leading or trailing dot, no leading hyphen, no empty
/// label, at least one dot, a top-level label that is not all digits (so no
/// IPv4 literal), and not a private-network name.
pub open spec fn plain_hostname(s: Seq<char>) -> bool {
    &&& 1 <= s.len() <= 253
    &&& forall|i: int| 0 <= i < s.len() ==> hostname_char(#[trigger] s[i])
    &&& s[0] != '.' && s[s.len() - 1] != '.' && s[0] != '-'
    &&& forall|i: int| 0 <= i < s.len() - 1 ==> !(#[trigger] s[i] == '.' && s[i + 1] == '.')
    &&& last_dot(s) matches Some(d) && !(forall|j: int| d < j < s.len() ==> is_ascii_digit(#[trigger] s[j]))
    &&& !private_name(s)
}

/// Reject anything that is not a plain hostname (SSRF guard for the icon
/// proxy); on success, the lowercased name.
pub fn validate_icon_domain(raw: &str) -> (r: Result<String, AppError>)
    ensures
        plain_hostname(raw@.map_values(|c: char| ascii_lower(c))) ==> (r matches Ok(d) && d@ == raw@.map_values(
            |c: char| ascii_lower(c),
        )),
        !plain_hostname(raw@.map_values(|c: char| ascii_lower(c))) ==> (r matches Err(AppError::BadRequest(m))
            && m@ == "Invalid domain"@),
{
    let ghost lowered = raw@.map_values(|c: char| ascii_lower(c));
    let chars = chars_of(raw);
    let n = chars.len();
    let mut lower: Vec<char> = Vec::new();
    for i in 0..n
        invariant
            n == chars@.len(),
            chars@ == raw@,
            lower@ == raw@.subrange(0, i as int).map_values(|c: char| ascii_lower(c)),
    {
        let c = chars[i];
        let u = c as u32;
        let l = if 65 <= u && u <= 90 {
            char_from_ascii(u + 32)
        } else {
            c
        };
        lower.push(l);
        assert(lower@ =~= raw@.subrange(0, i + 1).map_values(|c: char| ascii_lower(c)));
    }
    assert(lower@ =~= lowered);
    if n == 0 || n > 253 {
        return Err(invalid_domain());
    }
    let mut all_ok = true;
    let mut double_dot = false;
    let mut dot: Option<usize> = None;
    for i in 0..n
        invariant
            n == lower@.len(),
            n >= 1,
            all_ok == (forall|j: int| 0 <= j < i ==> hostname_char(#[trigger] lower@[j])),
            double_dot == (exists|j: int| 0 <= j < i && j + 1 < n && #[trigger] lower@[j] == '.' && lower@[j + 1] == '.'),
            dot is None ==> forall|j: int| 0 <= j < i ==> lower@[j] != '.',
            dot matches Some(d) ==> (d < i && lower@[d as int] == '.' && forall|j: int| d < j < i ==> lower@[j] != '.'),
    {
        let c = lower[i];
        let u = c as u32;
        if !((48 <= u && u <= 57) || (65 <= u && u <= 90) || (97 <= u && u <= 122) || c == '.' || c == '-') {
            all_ok = false;
        }
        if c == '.' {
            if i + 1 < n && lower[i + 1] == '.' {
                double_dot = true;
            }
            dot = Some(i);
        }
    }
    if !all_ok || lower[0] == '.' || lower[n - 1] == '.' || lower[0] == '-' || double_dot {
        proof {
            if double_dot {
                let j = choose|j: int| 0 <= j < n && j + 1 < n && #[trigger] lower@[j] == '.' && lower@[j + 1] == '.';
                assert(lower@[j] == '.' && lower@[j + 1] == '.');
            }
        }
        return Err(invalid_domain());
    }
    let d = match dot {
        None => {
            proof {
                assert(!(exists|i: int| 0 <= i < lower@.len() && lower@[i] == '.'));
            }
            return Err(invalid_domain());
        },
        Some(d) => d,
    };
    proof {
        assert(last_dot(lower@) == Some(d as int)) by {
            let k = choose|i: int| 0 <= i < lower@.len() && lower@[i] == '.' && forall|j: int| i < j < lower@.len() ==> lower@[j] != '.';
            if k < d {
                assert(lower@[d as int] == '.');
            }
            if k > d {
                assert(lower@[k] == '.');
            }
        }
    }
    let mut all_digits = true;
    let mut j = d + 1;
    while j < n
        invariant
            d < n,
            j >= d + 1,
            j <= n,
            n == lower@.len(),
            all_digits == (forall|k: int| d < k < j ==> is_ascii_digit(#[trigger] lower@[k])),
        decreases n - j,
    {
        let u = lower[j] as u32;
        if !(48 <= u && u <= 57) {
            all_digits = false;
        }
        j = j + 1;
    }
    if all_digits {
        return Err(invalid_domain());
    }
    proof {
        reveal_strlit("localhost");
    }
    if chars_eq_str(&lower, "localhost") || ends_with(&lower, ".localhost") || ends_with(&lower, ".local")
        || ends_with(&lower, ".internal") || ends_with(&lower, ".intranet") || ends_with(&lower, ".cluster.local") {
        return Err(invalid_domain());
    }
    proof {
        assert forall|i: int| 0 <= i < lower@.len() - 1 implies !(#[trigger] lower@[i] == '.' && lower@[i + 1] == '.') by {
            if lower@[i] == '.' && lower@[i + 1] == '.' {
                assert(i < n && i + 1 < n);
            }
        }
    }
    Ok(string_of(&lower))
}

fn invalid_domain() -> (e: AppError)
    ensures
        e matches AppError::BadRequest(m) && m@ == "Invalid domain"@,
{
    AppError::BadRequest(owned("Invalid domain"))
}

/// The character with the given code, for codes of ASCII letters.
fn char_from_ascii(u: u32) -> (c: char)
    requires
        97 <= u <= 122,
    ensures
        c == u as char,
{
    (u as u8) as char
}

/// The KV key an icon is cached under.
pub fn icon_cache_key(domain: &str) -> (r: String)
    ensures
        r@ == "icon:"@ + domain@,
{
    crate::text::concat("icon:", domain)
}

/// Where the favicon of a validated domain is fetched from.
pub fn favicon_url(domain: &str) -> (r: String)
    ensures
        r@ == "https://"@ + domain@ + "/favicon.ico"@,
{
    let mut r = crate::text::concat("https://", domain);
    r.append("/favicon.ico");
    r
}

/// How long an icon is cached, in the KV store and by clients (a week).
pub const ICON_CACHE_SECS: u64 = 604800;
pub const ICON_CONTENT_TYPE: &'static str = "image/x-icon";
pub const ICON_CACHE_CONTROL: &'static str = "public, max-age=604800";

/// The parts of a parsed URL that the favicon fetch checks.
pub struct UrlParts {
    pub scheme: String,
    pub host: Option<String>,
    pub has_port: bool,
    pub username: String,
    pub has_password: bool,
}

/// The parts `url::Url::parse` finds in `s` (`scheme`, `host_str`,
/// `port().is_some()`, `username`, `password().is_some()`), when it parses.
pub uninterp spec fn url_parts(s: Seq<char>) -> Option<UrlParts>;

/// Parses `s` with `url::Url::parse` and reads off the checked parts; the
/// result depends on `s` alone.
#[verifier::external_body]
fn parse_url_parts(s: &str) -> (r: Option<UrlParts>)
    ensures
        r == url_parts(s@),
{
    match worker::Url::parse(s) {
        Ok(u) => Some(UrlParts {
            scheme: u.scheme().to_string(),
            host: u.host_str().map(|h| h.to_string()),
            has_port: u.port().is_some(),
            username: u.username().to_string(),
            has_password: u.password().is_some(),
        }),
        Err(_) => None,
    }
}

/// The parsed favicon URL must still be plain HTTPS to exactly the
/// validated host, with no port and no credentials: parsing normalizes and
/// could accept shapes the text check missed.
pub open spec fn safe_favicon_url(parts: Option<UrlParts>, domain: Seq<char>) -> bool {
    match parts {
        Some(p) => {
            &&& p.host matches Some(h) && h@ == domain
            &&& !p.has_port
            &&& p.username@.len() == 0
            &&& !p.has_password
            &&& p.scheme@ == "https"@
        },
        None => false,
    }
}

/// Check the favicon URL of a validated domain before fetching it.
pub fn check_favicon_url(url: &str, domain: &str) -> (r: Result<(), AppError>)
    ensures
        safe_favicon_url(url_parts(url@), domain@) <==> r is Ok,
        r is Err ==> (r matches Err(AppError::BadRequest(m)) && m@ == "Invalid domain URL"@),
{
    let parts = parse_url_parts(url);
    let safe = match &parts {
        Some(p) => {
            let host_ok = match &p.host {
                Some(h) => crate::text::str_eq(h.as_str(), domain),
                None => false,
            };
            host_ok && !p.has_port && p.username.as_str().unicode_len() == 0 && !p.has_password
                && crate::text::str_eq(p.scheme.as_str(), "https")
        },
        None => false,
    };
    if !safe {
        return Err(AppError::BadRequest(owned("Invalid domain URL")));
    }
    Ok(())
}

/// A favicon fetch answers with the icon only on status 200.
pub fn check_icon_status(status: u16) -> (r: Result<(), AppError>)
    ensures
        status == 200 <==> r is Ok,
        r is Err ==> (r matches Err(AppError::NotFound(m)) && m@ == "Icon not found"@),
{
    if status != 200 {
        return Err(AppError::NotFound(owned("Icon not found")));
    }
    Ok(())
}

} // verus!
