//! Upload limits, identifiers, clock, and the base64 and hex encodings.

use vstd::prelude::*;
use crate::digits::{digit_text, digits_value};
use crate::error::AppError;
use crate::text::{concat, owned, push_digits};
use base64::Engine;

verus! {

/// Upper bound we accept for uploaded file bodies (send files, cipher
/// attachments), so that an over-sized payload gets a deterministic 413.
pub const MAX_UPLOAD_BYTES: usize = 100 * 1024 * 1024;

/// The error every over-sized upload is answered with.
pub open spec fn is_too_large(e: AppError) -> bool {
    e matches AppError::PayloadTooLarge(m) && m@ == "Upload exceeds 104857600 byte limit"@
}

pub fn too_large() -> (e: AppError)
    ensures
        is_too_large(e),
{
    AppError::PayloadTooLarge(owned("Upload exceeds 104857600 byte limit"))
}

/// A decimal digit character's value.
pub open spec fn decimal_digit(c: char) -> Option<int> {
    if 48 <= (c as u32) <= 57 {
        Some((c as u32) - 48)
    } else {
        None
    }
}

/// The value `str::parse` gives an unsigned decimal numeral: an optional
/// `+` followed by one or more ASCII digits, with no other character.
pub open spec fn unsigned_numeral_value(s: Seq<char>) -> Option<int> {
    let body = numeral_body(s);
    if body.len() > 0 && all_decimal(body) {
        Some(digits_value(body.map_values(|c: char| decimal_digit(c)->0), 10))
    } else {
        None
    }
}

/// A numeral without its optional leading `+`.
pub open spec fn numeral_body(s: Seq<char>) -> Seq<char> {
    if s.len() > 0 && s[0] == '+' {
        s.skip(1)
    } else {
        s
    }
}

/// Every character is an ASCII digit.
pub open spec fn all_decimal(t: Seq<char>) -> bool {
    forall|i: int| 0 <= i < t.len() ==> decimal_digit(#[trigger] t[i]) is Some
}

/// The value of an unsigned decimal numeral when it is at most `max`, as
/// `str::parse` gives it for an unsigned type whose largest value is `max`.
fn parse_unsigned(s: &str, max: u64) -> (r: Option<u64>)
    ensures
        r == (match unsigned_numeral_value(s@) {
            Some(v) => if v <= max {
                Some(v as u64)
            } else {
                None
            },
            None => None,
        }),
        r matches Some(n) ==> unsigned_numeral_value(s@) == Some(n as int),
{
    let ghost body = if s@.len() > 0 && s@[0] == '+' {
        s@.skip(1)
    } else {
        s@
    };
    let ghost vals = body.map_values(|c: char| decimal_digit(c)->0);
    let mut acc: u64 = 0;
    let mut overflow = false;
    let mut has_body = false;
    let mut bad = false;
    let mut first = true;
    let ghost mut seen: int = 0;
    let ghost mut exact: int = 0;
    let ghost start: int = if s@.len() > 0 && s@[0] == '+' {
        1
    } else {
        0
    };
    for c in it: s.chars()
        invariant
            it.seq() == s@,
            body == s@.skip(start),
            body == (if s@.len() > 0 && s@[0] == '+' { s@.skip(1) } else { s@ }),
            vals == body.map_values(|c: char| decimal_digit(c)->0),
            start == (if s@.len() > 0 && s@[0] == '+' { 1int } else { 0int }),
            it.index() <= s@.len(),
            first == (it.index() == 0),
            seen == (if it.index() as int <= start { 0 } else { it.index() - start }),
            has_body == (seen > 0),
            bad == (exists|i: int| 0 <= i < seen && decimal_digit(#[trigger] body[i]) is None),
            !bad ==> exact == digits_value(vals.subrange(0, seen), 10),
            !bad ==> (overflow == (exact > max)),
            !bad && !overflow ==> acc == exact,
            exact >= 0,
    {
        if first && c == '+' {
        } else {
            let u = c as u32;
            proof {
                assert(body[seen] == c);
                assert(vals.subrange(0, seen + 1).drop_last() =~= vals.subrange(0, seen));
            }
            if 48 <= u && u <= 57 {
                let d = (u - 48) as u64;
                proof {
                    if !bad {
                        exact = exact * 10 + d;
                    }
                }
                if !overflow {
                    match acc.checked_mul(10) {
                        Some(m) => match m.checked_add(d) {
                            Some(v) => if v <= max {
                                acc = v;
                            } else {
                                overflow = true;
                            },
                            None => overflow = true,
                        },
                        None => overflow = true,
                    }
                }
            } else {
                bad = true;
            }
            has_body = true;
            proof {
                seen = seen + 1;
            }
        }
        first = false;
    }
    proof {
        assert(seen == body.len());
        assert(vals.subrange(0, seen) =~= vals);
        assert(body == numeral_body(s@));
        if !bad {
            assert(all_decimal(body));
        }
    }
    if bad || !has_body || overflow {
        proof {
            if !bad && has_body {
                assert(unsigned_numeral_value(s@) == Some(exact));
            }
            if bad {
                let i = choose|i: int| 0 <= i < seen && decimal_digit(#[trigger] body[i]) is None;
                assert(!all_decimal(body));
                assert(unsigned_numeral_value(s@) is None);
            }
            if !has_body {
                assert(body.len() == 0);
                assert(unsigned_numeral_value(s@) is None);
            }
        }
        None
    } else {
        proof {
            assert(unsigned_numeral_value(s@) == Some(exact));
        }
        Some(acc)
    }
}

/// `s.parse::<usize>()`: the numeral's value, `None` when it is malformed
/// or does not fit.
pub fn parse_usize(s: &str) -> (r: Option<usize>)
    ensures
        r == (match unsigned_numeral_value(s@) {
            Some(v) => if v <= usize::MAX {
                Some(v as usize)
            } else {
                None
            },
            None => None,
        }),
        r matches Some(n) ==> unsigned_numeral_value(s@) == Some(n as int),
{
    match parse_unsigned(s, usize::MAX as u64) {
        Some(v) => Some(v as usize),
        None => None,
    }
}

/// `s.parse::<u64>()`: the numeral's value, `None` when it is malformed or
/// does not fit.
pub fn parse_u64(s: &str) -> (r: Option<u64>)
    ensures
        r == (match unsigned_numeral_value(s@) {
            Some(v) => if v <= u64::MAX {
                Some(v as u64)
            } else {
                None
            },
            None => None,
        }),
{
    parse_unsigned(s, u64::MAX)
}

/// A Content-Length header that parses as a `usize` above the upload limit.
pub open spec fn over_limit(content_length: Option<&str>) -> bool {
    content_length matches Some(h) && unsigned_numeral_value(h@) matches Some(v) && MAX_UPLOAD_BYTES < v
        <= usize::MAX
}

/// Reject a request before draining its body if the declared
/// Content-Length is already over the limit. A missing or unparsable header
/// falls through to the post-read check.
pub fn enforce_content_length(content_length: Option<&str>) -> (r: Result<(), AppError>)
    ensures
        over_limit(content_length) ==> (r matches Err(e) && is_too_large(e)),
        !over_limit(content_length) ==> r is Ok,
{
    match content_length {
        None => Ok(()),
        Some(h) => match parse_usize(h) {
            None => {
                assert(unsigned_numeral_value(h@) matches Some(v) ==> v > usize::MAX);
                Ok(())
            },
            Some(n) => if n > MAX_UPLOAD_BYTES {
                Err(too_large())
            } else {
                Ok(())
            },
        },
    }
}

/// Post-read check: defends against clients that lie in (or omit) the
/// Content-Length header.
pub fn enforce_body_len(bytes: usize) -> (r: Result<(), AppError>)
    ensures
        bytes <= MAX_UPLOAD_BYTES ==> r is Ok,
        bytes > MAX_UPLOAD_BYTES ==> (r matches Err(e) && is_too_large(e)),
{
    if bytes > MAX_UPLOAD_BYTES {
        return Err(too_large());
    }
    Ok(())
}

/// Validate a client-declared file size against the upload limit before
/// storage is reserved or an upload URL handed out.
pub fn enforce_declared_size(size: i64) -> (r: Result<(), AppError>)
    ensures
        0 <= size <= MAX_UPLOAD_BYTES ==> r is Ok,
        !(0 <= size <= MAX_UPLOAD_BYTES) ==> (r matches Err(e) && is_too_large(e)),
{
    if size < 0 || size > MAX_UPLOAD_BYTES as i64 {
        return Err(too_large());
    }
    Ok(())
}

// --- identifiers and clock ---

/// A lowercase hexadecimal digit.
pub open spec fn is_lower_hex_digit(c: char) -> bool {
    ('0' <= c && c <= '9') || ('a' <= c && c <= 'f')
}

/// The hyphenated lowercase text of a version 4 UUID: 8-4-4-4-12 hex
/// digits, version digit `4`, variant digit one of `8`, `9`, `a`, `b`.
pub open spec fn is_uuid_v4_text(s: Seq<char>) -> bool {
    &&& s.len() == 36
    &&& forall|i: int|
        #![trigger s[i]]
        0 <= i < 36 ==> if i == 8 || i == 13 || i == 18 || i == 23 {
            s[i] == '-'
        } else {
            is_lower_hex_digit(s[i])
        }
    &&& s[14] == '4'
    &&& (s[19] == '8' || s[19] == '9' || s[19] == 'a' || s[19] == 'b')
}

/// A fresh random (version 4) UUID in its hyphenated lowercase form
/// (`uuid::Uuid::new_v4().to_string()`). The value is random; the contract
/// claims its layout.
#[verifier::external_body]
pub fn generate_uuid() -> (r: String)
    ensures
        is_uuid_v4_text(r@),
{
    uuid::Uuid::new_v4().to_string()
}

/// The text `chrono` writes with `to_rfc3339_opts(SecondsFormat::Millis,
/// true)` for the UTC instant `ms` milliseconds after the Unix epoch (the
/// text shows whole milliseconds, so it depends on those alone).
pub uninterp spec fn rfc3339_millis(ms: int) -> Seq<char>;

/// The current UTC time in RFC 3339 with milliseconds and a `Z` suffix
/// (`chrono::Utc::now().to_rfc3339_opts(SecondsFormat::Millis, true)`).
/// Which instant it shows is the clock's.
#[verifier::external_body]
pub fn now_utc() -> (r: String)
    ensures
        exists|ms: int| r@ == #[trigger] rfc3339_millis(ms),
{
    chrono::Utc::now().to_rfc3339_opts(chrono::SecondsFormat::Millis, true)
}

/// Seconds since the Unix epoch (`chrono::Utc::now().timestamp()`).
/// Nothing is claimed of the value: it is the clock.
#[verifier::external_body]
pub fn now_epoch_secs() -> i64 {
    chrono::Utc::now().timestamp()
}

// --- base64 ---

/// What `base64::engine::general_purpose::URL_SAFE_NO_PAD` encodes bytes to.
pub uninterp spec fn base64url_text(data: Seq<u8>) -> Seq<char>;

/// What `base64::engine::general_purpose::STANDARD` encodes bytes to.
pub uninterp spec fn base64_text(data: Seq<u8>) -> Seq<char>;

/// The base64 crate's decoding error.
#[verifier::external_type_specification]
#[verifier::external_body]
pub struct ExDecodeError(base64::DecodeError);

/// A character of the URL-safe base64 alphabet: letters, digits, `-`, `_`.
pub open spec fn is_base64url_char(c: char) -> bool {
    ('A' <= c && c <= 'Z') || ('a' <= c && c <= 'z') || ('0' <= c && c <= '9') || c == '-' || c == '_'
}

/// URL-safe base64 with no padding (for JWT), by the base64 crate; its
/// output is drawn from the URL-safe alphabet alone.
#[verifier::external_body]
pub fn base64url_encode(data: &[u8]) -> (r: String)
    ensures
        r@ == base64url_text(data@),
        forall|i: int| 0 <= i < r@.len() ==> is_base64url_char(#[trigger] r@[i]),
{
    base64::engine::general_purpose::URL_SAFE_NO_PAD.encode(data)
}

/// Standard base64 with padding, by the base64 crate.
#[verifier::external_body]
pub fn base64_encode(data: &[u8]) -> (r: String)
    ensures
        r@ == base64_text(data@),
{
    base64::engine::general_purpose::STANDARD.encode(data)
}

/// `URL_SAFE_NO_PAD.decode`. The engine rejects padding and non-zero
/// trailing bits, so it accepts exactly the texts its encoder produces and
/// gives back the bytes they encode.
#[verifier::external_body]
fn decode_url_safe(data: &str) -> (r: Result<Vec<u8>, base64::DecodeError>)
    ensures
        r matches Ok(v) ==> base64url_text(v@) == data@ && forall|b: Seq<u8>| #[trigger] base64url_text(b) == data@ ==> b == v@,
        r is Err ==> forall|b: Seq<u8>| #[trigger] base64url_text(b) != data@,
{
    base64::engine::general_purpose::URL_SAFE_NO_PAD.decode(data)
}

/// `STANDARD.decode`. The engine requires canonical padding and zero
/// trailing bits, so it accepts exactly the texts its encoder produces and
/// gives back the bytes they encode.
#[verifier::external_body]
fn decode_standard(data: &str) -> (r: Result<Vec<u8>, base64::DecodeError>)
    ensures
        r matches Ok(v) ==> base64_text(v@) == data@ && forall|b: Seq<u8>| #[trigger] base64_text(b) == data@ ==> b == v@,
        r is Err ==> forall|b: Seq<u8>| #[trigger] base64_text(b) != data@,
{
    base64::engine::general_purpose::STANDARD.decode(data)
}

/// The `Display` text of a base64 decoding error.
#[verifier::external_body]
fn describe_decode_error(e: &base64::DecodeError) -> String {
    e.to_string()
}

/// A bad request naming the decoding error: `Invalid base64: ` followed by
/// the error's text.
fn invalid_base64(e: &base64::DecodeError) -> (r: AppError)
    ensures
        r matches AppError::BadRequest(m) && exists|detail: Seq<char>| m@ == "Invalid base64: "@ + detail,
{
    let detail = describe_decode_error(e);
    AppError::BadRequest(concat("Invalid base64: ", detail.as_str()))
}

/// Decodes URL-safe unpadded base64; any other text is a bad request.
pub fn base64url_decode(data: &str) -> (r: Result<Vec<u8>, AppError>)
    ensures
        forall|b: Seq<u8>| #[trigger] base64url_text(b) == data@ ==> (r matches Ok(v) && v@ == b),
        r matches Ok(v) ==> base64url_text(v@) == data@,
        r matches Err(e) ==> e is BadRequest,
{
    match decode_url_safe(data) {
        Ok(v) => Ok(v),
        Err(e) => Err(invalid_base64(&e)),
    }
}

/// Decodes standard padded base64; any other text is a bad request.
pub fn base64_decode(data: &str) -> (r: Result<Vec<u8>, AppError>)
    ensures
        forall|b: Seq<u8>| #[trigger] base64_text(b) == data@ ==> (r matches Ok(v) && v@ == b),
        r matches Ok(v) ==> base64_text(v@) == data@,
        r matches Err(e) ==> e is BadRequest,
{
    match decode_standard(data) {
        Ok(v) => Ok(v),
        Err(e) => Err(invalid_base64(&e)),
    }
}

// --- hex ---

/// Lowercase hex, two digits per byte.
pub open spec fn hex_text(data: Seq<u8>) -> Seq<char>
    decreases data.len(),
{
    if data.len() == 0 {
        Seq::empty()
    } else {
        hex_text(data.drop_last()) + digit_text(data.last() as int, 16, 2)
    }
}

pub fn hex_encode(bytes: &[u8]) -> (r: String)
    ensures
        r@ == hex_text(bytes@),
{
    let mut r = String::new();
    let n = bytes.len();
    for i in 0..n
        invariant
            n == bytes@.len(),
            r@ == hex_text(bytes@.subrange(0, i as int)),
    {
        proof {
            let s = bytes@.subrange(0, i + 1);
            assert(s.drop_last() =~= bytes@.subrange(0, i as int));
            assert(s.last() == bytes@[i as int]);
        }
        push_digits(&mut r, bytes[i] as u64, 16, 2);
    }
    proof {
        assert(bytes@.subrange(0, n as int) =~= bytes@);
    }
    r
}

} // verus!
