//! RS256 JSON Web Tokens: the signing input, the claim sets each token kind
//! carries, and the checks a token's registered claims must pass.
//! Serializing claims and the RSA operations happen outside the library; it
//! handles the text around them.

use vstd::prelude::*;
use vstd::utf8::encode_utf8;
use crate::auth::claims::{LoginClaims, RefreshClaims, RegisterVerifyClaims, SendAccessClaims};
use crate::db::models::User;
use crate::error::AppError;
use crate::models::send::opt_view;
use crate::text::{char_count_bound, concat, join_with, lacks, owned, str_eq};
use crate::util::{base64url_decode, base64url_encode, base64url_text, is_base64url_char};

verus! {

pub const JWT_HEADER: &'static str = "{\"alg\":\"RS256\",\"typ\":\"JWT\"}";
pub const ISSUER: &'static str = "|orangevault|";
/// Seconds an access token stays valid (2 hours).
pub const ACCESS_TOKEN_EXPIRY: i64 = 7200;
/// Seconds a refresh token stays valid (30 days).
pub const REFRESH_TOKEN_EXPIRY: i64 = 2592000;
/// Seconds a registration-verification token stays valid (30 minutes).
pub const REGISTER_VERIFY_EXPIRY: i64 = 1800;
/// Accept tokens issued up to this many seconds in the future.
pub const CLOCK_SKEW_TOLERANCE: i64 = 5;

pub const TYPE_ACCESS: &'static str = "access_token";
pub const TYPE_REFRESH: &'static str = "refresh_token";
pub const TYPE_REGISTER_VERIFY: &'static str = "register_verify";
pub const TYPE_SEND_ACCESS: &'static str = "send_access";

/// The three dot-separated segments of a token.
pub struct JwtParts {
    pub header: String,
    pub payload: String,
    pub signature: String,
}

/// `token` is `a.b.c` where neither `a` nor `b` contains a dot (`c` may):
/// what `token.splitn(3, '.')` yields.
pub open spec fn jwt_split_of(token: Seq<char>, a: Seq<char>, b: Seq<char>, c: Seq<char>) -> bool {
    token == a.push('.') + b.push('.') + c && lacks(a, '.') && lacks(b, '.')
}

/// The token contains at least two dots.
pub open spec fn has_two_dots(s: Seq<char>) -> bool {
    exists|i: int, j: int| 0 <= i < j < s.len() && s[i] == '.' && s[j] == '.'
}

/// Splits a token into header, payload and signature; a token with fewer
/// than three segments is malformed.
pub fn split_jwt(token: &str) -> (r: Result<JwtParts, AppError>)
    ensures
        r matches Ok(p) ==> jwt_split_of(token@, p.header@, p.payload@, p.signature@),
        r is Err <==> !has_two_dots(token@),
        r matches Err(e) ==> (e matches AppError::Unauthorized(m) && m@ == "Malformed JWT"@),
{
    let bound = char_count_bound(token);
    let mut first: Option<usize> = None;
    let mut second: Option<usize> = None;
    let mut pos: usize = 0;
    for c in it: token.chars()
        invariant
            it.seq() == token@,
            pos == it.index(),
            token@.len() <= bound,
            first matches Some(i) ==> (i < pos && token@[i as int] == '.' && forall|j: int|
                0 <= j < i ==> token@[j] != '.'),
            first is None ==> second is None && forall|j: int| 0 <= j < pos ==> token@[j] != '.',
            second matches Some(k) ==> (first matches Some(i) && i < k < pos && token@[k as int] == '.'
                && forall|j: int| i < j < k ==> token@[j] != '.'),
            second is None ==> (first matches Some(i) ==> forall|j: int| i < j < pos ==> token@[j]
                != '.'),
    {
        if c == '.' {
            if first.is_none() {
                first = Some(pos);
            } else if second.is_none() {
                second = Some(pos);
            }
        }
        pos = pos + 1;
    }
    match (first, second) {
        (Some(i), Some(k)) => {
            let header = token.substring_char(0, i);
            let payload = token.substring_char(i + 1, k);
            let signature = token.substring_char(k + 1, pos);
            let p = JwtParts { header: owned(header), payload: owned(payload), signature: owned(signature) };
            assert(token@ =~= p.header@.push('.') + p.payload@.push('.') + p.signature@);
            Ok(p)
        },
        _ => {
            proof {
                if has_two_dots(token@) {
                    let (i, j) = choose|i: int, j: int| 0 <= i < j < token@.len() && token@[i] == '.' && token@[j] == '.';
                    assert(token@[i] == '.');
                    assert(token@[j] == '.');
                }
            }
            Err(AppError::Unauthorized(owned("Malformed JWT")))
        },
    }
}

/// The error, if any, a token's registered claims earn at time `now`:
/// expiry first, then not-before (with the clock-skew tolerance), then the
/// issuer, then the token type.
pub open spec fn claims_error(
    exp: Option<i64>,
    nbf: Option<i64>,
    iss: Option<Seq<char>>,
    typ: Option<Seq<char>>,
    now: int,
    expected_type: Seq<char>,
) -> Option<Seq<char>> {
    match exp {
        None => Some("Missing exp claim"@),
        Some(e) => if e < now {
            Some("JWT expired"@)
        } else if nbf matches Some(n) && n > now + 5 {
            Some("JWT not yet valid"@)
        } else {
            match iss {
                None => Some("Missing iss claim"@),
                Some(i) => if i != ISSUER@ {
                    Some("JWT issuer mismatch"@)
                } else {
                    match typ {
                        None => Some("Missing type claim"@),
                        Some(t) => if t != expected_type {
                            Some("JWT type mismatch"@)
                        } else {
                            None
                        },
                    }
                },
            }
        },
    }
}

/// `Option<&str>` as an optional character sequence.
pub open spec fn opt_text(o: Option<&str>) -> Option<Seq<char>> {
    match o {
        Some(s) => Some(s@),
        None => None,
    }
}

/// Checks the registered claims of a token whose signature has been
/// verified, so that a refresh token cannot pass as an access token (or
/// the reverse) and expired or foreign tokens are refused.
pub fn check_registered_claims(
    exp: Option<i64>,
    nbf: Option<i64>,
    iss: Option<&str>,
    typ: Option<&str>,
    now: i64,
    expected_type: &str,
) -> (r: Result<(), AppError>)
    requires
        now <= i64::MAX - 5,
    ensures
        match claims_error(exp, nbf, opt_text(iss), opt_text(typ), now as int, expected_type@) {
            None => r is Ok,
            Some(m) => r matches Err(AppError::Unauthorized(x)) && x@ == m,
        },
{
    proof {
        reveal_strlit("|orangevault|");
    }
    let e = match exp {
        None => return Err(AppError::Unauthorized(owned("Missing exp claim"))),
        Some(e) => e,
    };
    if e < now {
        return Err(AppError::Unauthorized(owned("JWT expired")));
    }
    if let Some(n) = nbf {
        if n > now + CLOCK_SKEW_TOLERANCE {
            return Err(AppError::Unauthorized(owned("JWT not yet valid")));
        }
    }
    let i = match iss {
        None => return Err(AppError::Unauthorized(owned("Missing iss claim"))),
        Some(i) => i,
    };
    if !str_eq(i, ISSUER) {
        return Err(AppError::Unauthorized(owned("JWT issuer mismatch")));
    }
    let t = match typ {
        None => return Err(AppError::Unauthorized(owned("Missing type claim"))),
        Some(t) => t,
    };
    if !str_eq(t, expected_type) {
        return Err(AppError::Unauthorized(owned("JWT type mismatch")));
    }
    Ok(())
}

/// `base64url(header) "." base64url(claims)`: the text an RS256 signature covers.
pub open spec fn spec_signing_input(claims_json: Seq<u8>) -> Seq<char> {
    base64url_text(encode_utf8(JWT_HEADER@)).push('.') + base64url_text(claims_json)
}

/// Two dot-free segments joined by a dot, as a signing input is.
pub open spec fn dot_free_pair(s: Seq<char>) -> bool {
    exists|h: Seq<char>, p: Seq<char>| s == h.push('.') + p && lacks(h, '.') && lacks(p, '.')
}

/// Base64url text holds no dot.
proof fn lemma_base64url_lacks_dot(s: Seq<char>)
    requires
        forall|i: int| 0 <= i < s.len() ==> is_base64url_char(#[trigger] s[i]),
    ensures
        lacks(s, '.'),
{
    assert forall|i: int| 0 <= i < s.len() implies s[i] != '.' by {
        assert(is_base64url_char(s[i]));
    }
}

/// The signing input for serialized claims: the base64url header and
/// claims, each free of dots, joined by a dot.
pub fn jwt_signing_input(claims_json: &[u8]) -> (r: String)
    ensures
        r@ == spec_signing_input(claims_json@),
        dot_free_pair(r@),
{
    let header_b64 = base64url_encode(JWT_HEADER.as_bytes());
    let claims_b64 = base64url_encode(claims_json);
    proof {
        lemma_base64url_lacks_dot(header_b64@);
        lemma_base64url_lacks_dot(claims_b64@);
    }
    let r = join_with(header_b64.as_str(), '.', claims_b64.as_str());
    assert(r@ == header_b64@.push('.') + claims_b64@);
    r
}

/// If `x.y == x2.y2` (each joined by a dot) and neither `x` nor `x2` holds a
/// dot, the two splits are the same.
proof fn lemma_dot_split_unique(x: Seq<char>, y: Seq<char>, x2: Seq<char>, y2: Seq<char>)
    requires
        lacks(x, '.'),
        lacks(x2, '.'),
        x.push('.') + y == x2.push('.') + y2,
    ensures
        x == x2,
        y == y2,
{
    let t = x.push('.') + y;
    assert(t[x.len() as int] == '.');
    assert(t[x2.len() as int] == '.');
    if x.len() < x2.len() {
        assert(t[x.len() as int] == x2[x.len() as int]);
    } else if x2.len() < x.len() {
        assert(t[x2.len() as int] == x[x2.len() as int]);
    }
    assert(x =~= x2) by {
        assert forall|i: int| 0 <= i < x.len() implies x[i] == x2[i] by {
            assert(t[i] == x[i]);
        }
    }
    let t2 = x2.push('.') + y2;
    assert(t.len() == t2.len());
    assert(y.len() == y2.len());
    assert(y =~= y2) by {
        assert forall|i: int| 0 <= i < y.len() implies y[i] == y2[i] by {
            assert(t[x.len() + 1 + i] == y[i]);
            assert(t2[x2.len() + 1 + i] == y2[i]);
        }
    }
}

/// A token issued from a signing input of two dot-free segments splits
/// back into exactly those segments and the signature text: its signature
/// is checked against exactly the text that was signed.
pub proof fn law_issued_token_splits(
    signing_input: Seq<char>,
    signature: Seq<char>,
    header: Seq<char>,
    payload: Seq<char>,
    sig: Seq<char>,
)
    requires
        dot_free_pair(signing_input),
        jwt_split_of(signing_input.push('.') + signature, header, payload, sig),
    ensures
        header.push('.') + payload == signing_input,
        sig == signature,
{
    let (h, p) = choose|h: Seq<char>, p: Seq<char>|
        signing_input == h.push('.') + p && lacks(h, '.') && lacks(p, '.');
    let token = signing_input.push('.') + signature;
    assert(token == h.push('.') + (p.push('.') + signature));
    assert(token == header.push('.') + (payload.push('.') + sig));
    lemma_dot_split_unique(h, p.push('.') + signature, header, payload.push('.') + sig);
    lemma_dot_split_unique(p, signature, payload, sig);
}

/// A complete token: the signing input, a dot, and the base64url signature.
pub fn jwt_with_signature(signing_input: &str, signature: &[u8]) -> (r: String)
    ensures
        r@ == signing_input@.push('.') + base64url_text(signature@),
{
    let sig_b64 = base64url_encode(signature);
    join_with(signing_input, '.', sig_b64.as_str())
}

/// The text a token's signature is checked against: its first two
/// segments joined by a dot.
pub fn signed_part(parts: &JwtParts) -> (r: String)
    ensures
        r@ == parts.header@.push('.') + parts.payload@,
{
    join_with(parts.header.as_str(), '.', parts.payload.as_str())
}

/// Claims of a fresh access token for `user` on `device_uuid`, issued at `now`.
pub fn access_claims(user: &User, device_uuid: &str, now: i64) -> (c: LoginClaims)
    requires
        now <= i64::MAX - ACCESS_TOKEN_EXPIRY,
    ensures
        c.nbf == now,
        c.exp == now + ACCESS_TOKEN_EXPIRY,
        c.iss@ == ISSUER@,
        c.sub@ == user.uuid@,
        c.typ@ == TYPE_ACCESS@,
        c.premium,
        c.name@ == user.name@,
        c.email@ == user.email@,
        c.email_verified == user.email_verified,
        c.sstamp@ == user.security_stamp@,
        c.device@ == device_uuid@,
        c.scope@.len() == 2 && c.scope@[0]@ == "api"@ && c.scope@[1]@ == "offline_access"@,
        c.orgowner@.len() == 0 && c.orgadmin@.len() == 0 && c.orguser@.len() == 0
            && c.orgmanager@.len() == 0,
{
    let mut scope = Vec::new();
    scope.push(owned("api"));
    scope.push(owned("offline_access"));
    LoginClaims {
        nbf: now,
        exp: now + ACCESS_TOKEN_EXPIRY,
        iss: owned(ISSUER),
        sub: user.uuid.clone(),
        typ: owned(TYPE_ACCESS),
        premium: true,
        name: user.name.clone(),
        email: user.email.clone(),
        email_verified: user.email_verified,
        sstamp: user.security_stamp.clone(),
        device: owned(device_uuid),
        scope,
        orgowner: Vec::new(),
        orgadmin: Vec::new(),
        orguser: Vec::new(),
        orgmanager: Vec::new(),
    }
}

/// Claims of a fresh refresh token; `jti` makes each token distinct.
pub fn refresh_claims(user_uuid: &str, device_uuid: &str, jti: String, now: i64) -> (c: RefreshClaims)
    requires
        now <= i64::MAX - REFRESH_TOKEN_EXPIRY,
    ensures
        c.nbf == now,
        c.exp == now + REFRESH_TOKEN_EXPIRY,
        c.iss@ == ISSUER@,
        c.sub@ == user_uuid@,
        c.typ@ == TYPE_REFRESH@,
        c.token@ == device_uuid@,
        c.jti == jti,
{
    RefreshClaims {
        nbf: now,
        exp: now + REFRESH_TOKEN_EXPIRY,
        iss: owned(ISSUER),
        sub: owned(user_uuid),
        typ: owned(TYPE_REFRESH),
        token: owned(device_uuid),
        jti,
    }
}

/// Claims of a registration-verification token for `email`.
pub fn register_verify_claims(email: &str, name: Option<String>, verified: bool, now: i64) -> (c:
    RegisterVerifyClaims)
    requires
        now <= i64::MAX - REGISTER_VERIFY_EXPIRY,
    ensures
        c.nbf == now,
        c.exp == now + REGISTER_VERIFY_EXPIRY,
        c.iss@ == ISSUER@,
        c.sub@ == email@,
        c.typ@ == TYPE_REGISTER_VERIFY@,
        c.name == name,
        c.verified == verified,
{
    RegisterVerifyClaims {
        nbf: now,
        exp: now + REGISTER_VERIFY_EXPIRY,
        iss: owned(ISSUER),
        sub: owned(email),
        typ: owned(TYPE_REGISTER_VERIFY),
        name,
        verified,
    }
}

/// The subject a send-file download token is bound to: `"{send_id}/{file_id}"`.
pub fn send_access_subject(send_id: &str, file_id: &str) -> (r: String)
    ensures
        r@ == send_id@.push('/') + file_id@,
{
    join_with(send_id, '/', file_id)
}

/// Lifetime of a send-file download token, in seconds.
pub const SEND_ACCESS_EXPIRY: i64 = 120;

/// Claims of a download token for file `file_id` of send `send_id`, issued
/// at `now`; the token is bound to that one file.
pub fn send_access_claims(send_id: &str, file_id: &str, now: i64) -> (c: SendAccessClaims)
    requires
        now <= i64::MAX - SEND_ACCESS_EXPIRY,
    ensures
        c.nbf == now,
        c.exp == now + SEND_ACCESS_EXPIRY,
        c.iss@ == ISSUER@,
        c.sub@ == send_id@.push('/') + file_id@,
        c.typ@ == TYPE_SEND_ACCESS@,
{
    SendAccessClaims {
        nbf: now,
        exp: now + SEND_ACCESS_EXPIRY,
        iss: owned(ISSUER),
        sub: send_access_subject(send_id, file_id),
        typ: owned(TYPE_SEND_ACCESS),
    }
}

/// A token minted at `now` with type `kind` passes the claim checks as
/// that kind at any time `t` from the skew tolerance before `now` up to its
/// expiry, and is refused as any other kind.
pub proof fn law_fresh_token_accepted(now: int, lifetime: int, t: int, kind: Seq<char>, other: Seq<char>)
    requires
        lifetime >= 0,
        now - 5 <= t <= now + lifetime,
        now + lifetime <= i64::MAX,
        i64::MIN <= now,
        other != kind,
    ensures
        claims_error(Some((now + lifetime) as i64), Some(now as i64), Some(ISSUER@), Some(kind), t, kind)
            is None,
        claims_error(Some((now + lifetime) as i64), Some(now as i64), Some(ISSUER@), Some(kind), t, other)
            == Some("JWT type mismatch"@),
{
}

/// What `serde_json::from_slice::<serde_json::Value>` makes of a token's
/// payload bytes, read as its registered claims: `exp` and `nbf` as `i64`
/// (`Value::as_i64`), `iss` and `type` as text (`Value::as_str`), each
/// `None` where the member is missing or of another kind. `None` when the
/// bytes are not JSON.
pub uninterp spec fn payload_claims(payload: Seq<u8>) -> Option<
    (Option<i64>, Option<i64>, Option<Seq<char>>, Option<Seq<char>>),
>;

/// Parses the payload with `serde_json::from_slice::<serde_json::Value>`
/// and reads `exp`, `nbf` (`get`, `as_i64`), `iss` and `type` (`get`,
/// `as_str`). On a parse error, the error's message.
#[verifier::external_body]
fn read_payload_claims(payload: &[u8]) -> (r: Result<
    (Option<i64>, Option<i64>, Option<String>, Option<String>),
    String,
>)
    ensures
        match r {
            Err(_) => payload_claims(payload@) is None,
            Ok((e, n, i, t)) => payload_claims(payload@) == Some((e, n, opt_view(i), opt_view(t))),
        },
{
    let v: serde_json::Value = match serde_json::from_slice(payload) {
        Ok(v) => v,
        Err(e) => return Err(e.to_string()),
    };
    let exp = v.get("exp").and_then(serde_json::Value::as_i64);
    let nbf = v.get("nbf").and_then(serde_json::Value::as_i64);
    let iss = v.get("iss").and_then(serde_json::Value::as_str).map(String::from);
    let typ = v.get("type").and_then(serde_json::Value::as_str).map(String::from);
    Ok((exp, nbf, iss, typ))
}

/// `Option<String>` borrowed as `Option<&str>`.
fn opt_str(o: &Option<String>) -> (r: Option<&str>)
    ensures
        opt_text(r) == opt_view(*o),
{
    match o {
        Some(s) => Some(s.as_str()),
        None => None,
    }
}

/// The claims refusal of a payload that is not JSON: `Invalid JWT claims: `
/// and the parser's message.
pub open spec fn is_invalid_claims(e: AppError) -> bool {
    e matches AppError::Unauthorized(m) && exists|d: Seq<char>| m@ == "Invalid JWT claims: "@ + d
}

/// Checks the registered claims a token's payload bytes carry at time `now`:
/// a payload that is not JSON is refused, and otherwise the claims are
/// judged as `check_registered_claims` judges them.
pub fn check_payload_claims(payload: &[u8], now: i64, expected_type: &str) -> (r: Result<(), AppError>)
    requires
        now <= i64::MAX - 5,
    ensures
        match payload_claims(payload@) {
            None => r matches Err(e) && is_invalid_claims(e),
            Some((e, n, i, t)) => match claims_error(e, n, i, t, now as int, expected_type@) {
                None => r is Ok,
                Some(m) => r matches Err(AppError::Unauthorized(x)) && x@ == m,
            },
        },
{
    match read_payload_claims(payload) {
        Err(d) => Err(AppError::Unauthorized(concat("Invalid JWT claims: ", d.as_str()))),
        Ok((exp, nbf, iss, typ)) => check_registered_claims(exp, nbf, opt_str(&iss), opt_str(&typ), now, expected_type),
    }
}

/// What a token whose signature check gave `signature_valid` earns at time
/// `now` as a token of `expected_type`, after its segments were split.
/// A bad signature is refused first; then the payload must be base64url
/// (else a bad request) and its claims must pass. On success, the payload
/// bytes, for reading the claims.
pub fn accept_verified_jwt(parts: &JwtParts, signature_valid: bool, now: i64, expected_type: &str) -> (r: Result<
    Vec<u8>,
    AppError,
>)
    requires
        now <= i64::MAX - 5,
    ensures
        !signature_valid ==> (r matches Err(AppError::Unauthorized(m)) && m@ == "Invalid JWT signature"@),
        signature_valid && (forall|b: Seq<u8>| #[trigger] base64url_text(b) != parts.payload@) ==> (r matches Err(e)
            && e is BadRequest),
        signature_valid ==> forall|b: Seq<u8>| #[trigger] base64url_text(b) == parts.payload@ ==> match payload_claims(b) {
            None => r matches Err(e) && is_invalid_claims(e),
            Some((e, n, i, t)) => match claims_error(e, n, i, t, now as int, expected_type@) {
                None => r matches Ok(v) && v@ == b,
                Some(m) => r matches Err(AppError::Unauthorized(x)) && x@ == m,
            },
        },
{
    if !signature_valid {
        return Err(AppError::Unauthorized(owned("Invalid JWT signature")));
    }
    let payload = base64url_decode(parts.payload.as_str())?;
    check_payload_claims(payload.as_slice(), now, expected_type)?;
    Ok(payload)
}

} // verus!
