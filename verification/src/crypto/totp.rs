//! TOTP (RFC 6238) code computation and checking, base32 for the shared
//! secrets, and constant-time comparison.

use vstd::prelude::*;
use crate::crypto::random::is_random_failure;
use vstd::arithmetic::div_mod::*;
use vstd::arithmetic::power::*;
use vstd::arithmetic::power2::*;
use vstd::utf8::encode_utf8;
use crate::digits::{
    all_below, digits, digits_value, lemma_digits_below, lemma_digits_len, lemma_digits_of_value,
    lemma_digits_push, lemma_value_bound, lemma_value_of_digits,
};
use crate::error::AppError;
use crate::crypto::random::random_bytes;
use crate::text::{owned, push_char, push_digits};
use crate::digits::digit_text;

verus! {

pub const TOTP_PERIOD: u64 = 30;
pub const TOTP_DIGITS: u32 = 6;

/// Two to the power `e`, as an integer.
pub open spec fn p2(e: nat) -> int {
    pow2(e) as int
}

// ---------------------------------------------------------------------------
// Base32 (RFC 4648 alphabet, no padding on output)
// ---------------------------------------------------------------------------

/// The character that stands for a 5-bit value: `A`..`Z` then `2`..`7`.
pub open spec fn base32_char(v: int) -> char {
    if v < 26 {
        ((65 + v) as u8) as char
    } else {
        ((24 + v) as u8) as char
    }
}

/// The value of a base32 character, either case; `None` for any other character.
pub open spec fn base32_digit(c: char) -> Option<int> {
    let u = c as u32;
    if 65 <= u <= 90 {
        Some(u - 65)
    } else if 97 <= u <= 122 {
        Some(u - 97)
    } else if 50 <= u <= 55 {
        Some(u - 50 + 26)
    } else {
        None
    }
}

/// Characters the decoder skips: padding and spaces.
pub open spec fn base32_ignored(c: char) -> bool {
    c == '=' || c == ' '
}

/// The 5-bit values a base32 text stands for, or the first character that
/// is neither a base32 digit nor skipped.
pub open spec fn base32_values(s: Seq<char>) -> Result<Seq<int>, char>
    decreases s.len(),
{
    if s.len() == 0 {
        Ok(Seq::empty())
    } else {
        match base32_values(s.drop_last()) {
            Err(c) => Err(c),
            Ok(vals) => {
                let c = s.last();
                if base32_ignored(c) {
                    Ok(vals)
                } else {
                    match base32_digit(c) {
                        Some(v) => Ok(vals.push(v)),
                        None => Err(c),
                    }
                }
            },
        }
    }
}

/// The unsigned big-endian number a byte string denotes.
pub open spec fn bytes_value(data: Seq<u8>) -> int {
    digits_value(data.map_values(|b: u8| b as int), 256)
}

/// Number of base32 characters for `n` bytes: the bits rounded up to whole
/// 5-bit groups.
pub open spec fn base32_len(n: nat) -> nat {
    (8 * n + 4) / 5
}

/// Zero bits appended to fill the last 5-bit group.
pub open spec fn base32_padding(n: nat) -> nat {
    (5 * base32_len(n) - 8 * n) as nat
}

/// Base32 of a byte string: its bits, padded with zeros to a multiple of
/// five, read as base-32 digits.
pub open spec fn spec_base32_encode(data: Seq<u8>) -> Seq<char> {
    digits(
        bytes_value(data) * p2(base32_padding(data.len())),
        32,
        base32_len(data.len()),
    ).map_values(|d: int| base32_char(d))
}

/// The bytes that a sequence of 5-bit values decodes to: its bits read in
/// groups of eight, leftover bits dropped.
pub open spec fn base32_bytes(vals: Seq<int>) -> Seq<u8> {
    let nbytes = (5 * vals.len()) / 8;
    let extra = (5 * vals.len() - 8 * nbytes) as nat;
    digits(digits_value(vals, 32) / p2(extra), 256, nbytes).map_values(|d: int| d as u8)
}

fn base32_char_exec(v: u32) -> (c: char)
    requires
        v < 32,
    ensures
        c == base32_char(v as int),
{
    if v < 26 {
        (65u8 + v as u8) as char
    } else {
        (24u8 + v as u8) as char
    }
}

/// 2 to the power `k`, for small `k`.
fn pow2_small(k: u32) -> (r: u32)
    requires
        k <= 16,
    ensures
        r == p2(k as nat),
        r > 0,
{
    let mut r: u32 = 1;
    let mut j: u32 = 0;
    proof {
        lemma2_to64();
    }
    while j < k
        invariant
            j <= k <= 16,
            r == p2(j as nat),
        decreases k - j,
    {
        proof {
            lemma_pow2_unfold((j + 1) as nat);
            lemma_pow2_strictly_increases((j + 1) as nat, 17);
            lemma2_to64();
        }
        r = r * 2;
        j = j + 1;
    }
    proof {
        lemma_pow2_pos(k as nat);
    }
    r
}

proof fn lemma_bytes_value_push(data: Seq<u8>, i: int)
    requires
        0 <= i < data.len(),
    ensures
        bytes_value(data.subrange(0, i + 1)) == bytes_value(data.subrange(0, i)) * 256 + data[i],
{
    let a = data.subrange(0, i + 1).map_values(|b: u8| b as int);
    let b = data.subrange(0, i).map_values(|b: u8| b as int);
    assert(a.drop_last() =~= b);
    assert(a.last() == data[i]);
}

/// Splitting off the top bits of a pending remainder.
proof fn lemma_emit(q: int, rem: int, bits: nat, w: nat, lower: nat)
    requires
        bits == w + lower,
        0 <= rem < p2(bits),
    ensures
        q * p2(bits) + rem == (q * p2(w) + rem / p2(lower)) * p2(lower) + rem % p2(lower),
        0 <= rem / p2(lower) < p2(w),
        0 <= rem % p2(lower) < p2(lower),
{
    lemma_pow2_adds(w, lower);
    lemma_pow2_pos(lower);
    lemma_pow2_pos(w);
    let p = p2(lower) as int;
    let pw = p2(w) as int;
    lemma_fundamental_div_mod(rem, p);
    lemma_mod_bound(rem, p);
    let d = rem / p;
    let r = rem % p;
    assert(rem == p * d + r);
    assert(0 <= d < pw) by (nonlinear_arith)
        requires
            rem == p * d + r,
            0 <= r < p,
            0 <= rem < pw * p,
            p > 0,
    ;
    assert(q * (pw * p) + rem == (q * pw + d) * p + r) by (nonlinear_arith)
        requires
            rem == p * d + r,
    ;
}

/// Base32-encodes `data` (no `=` padding).
pub fn base32_encode(data: &[u8]) -> (r: String)
    ensures
        r@ == spec_base32_encode(data@),
{
    let mut result = String::new();
    let mut rem: u32 = 0;
    let mut bits: u32 = 0;
    let ghost mut q: int = 0;
    let ghost mut out: Seq<int> = Seq::empty();
    let n = data.len();
    proof {
        lemma2_to64();
        assert(data@.subrange(0, 0).map_values(|b: u8| b as int) =~= Seq::<int>::empty());
    }
    for i in 0..n
        invariant
            n == data@.len(),
            bits < 5,
            0 <= rem < p2(bits as nat),
            q >= 0,
            bytes_value(data@.subrange(0, i as int)) == q * p2(bits as nat) + rem,
            out == digits(q, 32, out.len()),
            8 * i == 5 * out.len() + bits,
            result@ == out.map_values(|d: int| base32_char(d)),
    {
        let byte = data[i];
        proof {
            lemma_bytes_value_push(data@, i as int);
            lemma_pow2_adds(bits as nat, 8);
            lemma2_to64();
            lemma_pow2_strictly_increases(bits as nat, 5);
            let pb = p2(bits as nat) as int;
            assert((q * pb + rem) * 256 + byte == q * (pb * 256) + (rem * 256 + byte))
                by (nonlinear_arith);
            assert(rem * 256 + byte < pb * 256) by (nonlinear_arith)
                requires
                    rem < pb,
                    byte < 256,
            ;
        }
        rem = rem * 256 + byte as u32;
        bits = bits + 8;
        while bits >= 5
            invariant
                n == data@.len(),
                i < n,
                bits < 13,
                0 <= rem < p2(bits as nat),
                q >= 0,
                bytes_value(data@.subrange(0, i + 1)) == q * p2(bits as nat) + rem,
                out == digits(q, 32, out.len()),
                8 * (i + 1) == 5 * out.len() + bits,
                result@ == out.map_values(|d: int| base32_char(d)),
            decreases bits,
        {
            bits = bits - 5;
            let p = pow2_small(bits);
            let d = rem / p;
            proof {
                lemma_emit(q, rem as int, (bits + 5) as nat, 5, bits as nat);
                lemma2_to64();
                lemma_digits_push(q, d as int, 32, out.len());
            }
            rem = rem % p;
            push_char(&mut result, base32_char_exec(d));
            proof {
                q = q * 32 + d;
                out = out.push(d as int);
                assert(result@ =~= out.map_values(|d: int| base32_char(d)));
            }
        }
    }
    proof {
        assert(data@.subrange(0, n as int) =~= data@);
    }
    if bits > 0 {
        let p = pow2_small(5 - bits);
        proof {
            lemma_pow2_adds(bits as nat, (5 - bits) as nat);
            lemma2_to64();
            let pb = p2(bits as nat) as int;
            let pp = p2((5 - bits) as nat) as int;
            assert(pb * pp == 32);
            assert(rem * pp < 32) by (nonlinear_arith)
                requires
                    rem < pb,
                    pb * pp == 32,
                    pp > 0,
            ;
            assert((q * pb + rem) * pp == q * 32 + rem * pp) by (nonlinear_arith)
                requires
                    pb * pp == 32,
            ;
        }
        let d = rem * p;
        let ghost q0 = q;
        proof {
            lemma_digits_push(q, d as int, 32, out.len());
        }
        push_char(&mut result, base32_char_exec(d));
        proof {
            q = q * 32 + d;
            out = out.push(d as int);
            assert(result@ =~= out.map_values(|d: int| base32_char(d)));
            assert(base32_len(n as nat) == out.len());
            assert(base32_padding(n as nat) == 5 - (bits as nat));
            assert(bytes_value(data@) == q0 * p2(bits as nat) + rem);
            assert(p2(base32_padding(n as nat)) == p);
            assert(q == q0 * 32 + rem * p);
            assert((q0 * p2(bits as nat) + rem) * p == q0 * 32 + rem * p) by (nonlinear_arith)
                requires
                    p2(bits as nat) * p == 32,
            {
            }
            let x = bytes_value(data@);
            let pp = p2(base32_padding(n as nat));
            assert(x * pp == (q0 * p2(bits as nat) + rem) * (p as int));
        }
    } else {
        proof {
            assert(base32_len(n as nat) == out.len());
            assert(base32_padding(n as nat) == 0);
            assert(rem == 0);
            assert(p2(0) == 1);
            let x = bytes_value(data@);
            assert(x == q * p2(0) + rem);
            assert(x == q) by (nonlinear_arith)
                requires
                    x == q * p2(0) + rem,
                    p2(0) == 1,
                    rem == 0,
            ;
            assert(x * p2(base32_padding(n as nat)) == x * 1);
        }
    }
    result
}

fn base32_digit_exec(c: char) -> (r: Option<u32>)
    ensures
        r matches Some(v) ==> base32_digit(c) == Some(v as int) && v < 32,
        r is None ==> base32_digit(c) is None,
{
    let u = c as u32;
    if 65 <= u && u <= 90 {
        Some(u - 65)
    } else if 97 <= u && u <= 122 {
        Some(u - 97)
    } else if 50 <= u && u <= 55 {
        Some(u - 50 + 26)
    } else {
        None
    }
}

proof fn lemma_values_step(s: Seq<char>, k: int)
    requires
        0 <= k < s.len(),
    ensures
        base32_values(s.subrange(0, k + 1)) == (match base32_values(s.subrange(0, k)) {
            Err(c) => Err(c),
            Ok(vals) => if base32_ignored(s[k]) {
                Ok(vals)
            } else {
                match base32_digit(s[k]) {
                    Some(v) => Ok(vals.push(v)),
                    None => Err(s[k]),
                }
            },
        }),
{
    assert(s.subrange(0, k + 1).drop_last() =~= s.subrange(0, k));
    assert(s.subrange(0, k + 1).last() == s[k]);
}

/// Once a prefix holds an invalid character, the whole text is rejected
/// with that character.
proof fn lemma_values_err_extends(s: Seq<char>, k: int, c: char)
    requires
        0 <= k <= s.len(),
        base32_values(s.subrange(0, k)) == Err::<Seq<int>, char>(c),
    ensures
        base32_values(s) == Err::<Seq<int>, char>(c),
    decreases s.len() - k,
{
    if k == s.len() {
        assert(s.subrange(0, k) =~= s);
    } else {
        lemma_values_step(s, k);
        lemma_values_err_extends(s, k + 1, c);
    }
}

/// Decodes base32 text, in either case, skipping `=` and spaces.
pub fn base32_decode(encoded: &str) -> (r: Result<Vec<u8>, AppError>)
    ensures
        match base32_values(encoded@) {
            Ok(vals) => r matches Ok(bytes) && bytes@ == base32_bytes(vals),
            Err(c) => r matches Err(AppError::BadRequest(m)) && m@ == "Invalid base32 character: "@.push(c),
        },
        forall|data: Seq<u8>|
            encoded@ == #[trigger] spec_base32_encode(data) ==> (r matches Ok(bytes) && bytes@ == data),
{
    proof {
        assert forall|data: Seq<u8>| encoded@ == #[trigger] spec_base32_encode(data) implies (base32_values(
            encoded@,
        ) matches Ok(vals) && base32_bytes(vals) == data) by {
            law_base32_round_trip(data);
        }
    }
    let mut rem: u32 = 0;
    let mut bits: u32 = 0;
    let mut result: Vec<u8> = Vec::new();
    let ghost mut q: int = 0;
    let ghost mut vals: Seq<int> = Seq::empty();
    proof {
        lemma2_to64();
        assert(encoded@.subrange(0, 0) =~= Seq::<char>::empty());
    }
    for ch in it: encoded.chars()
        invariant
            it.seq() == encoded@,
            base32_values(encoded@.subrange(0, it.index() as int)) == Ok::<Seq<int>, char>(vals),
            bits < 8,
            0 <= rem < p2(bits as nat),
            q >= 0,
            digits_value(vals, 32) == q * p2(bits as nat) + rem,
            result@.map_values(|b: u8| b as int) == digits(q, 256, result.len() as nat),
            5 * vals.len() == 8 * result.len() + bits,
    {
        proof {
            lemma_values_step(encoded@, it.index() as int);
        }
        if ch != '=' && ch != ' ' {
        match base32_digit_exec(ch) {
            None => {
                proof {
                    lemma_values_err_extends(encoded@, it.index() + 1, ch);
                    assert forall|data: Seq<u8>| encoded@ != #[trigger] spec_base32_encode(data) by {
                        law_base32_round_trip(data);
                    }
                }
                let mut msg = owned("Invalid base32 character: ");
                push_char(&mut msg, ch);
                return Err(AppError::BadRequest(msg));
            },
            Some(v) => {
                proof {
                    lemma2_to64();
                    lemma_pow2_adds(bits as nat, 5);
                    lemma_pow2_strictly_increases(bits as nat, 8);
                    let pb = p2(bits as nat);
                    assert((q * pb + rem) * 32 + v == q * (pb * 32) + (rem * 32 + v))
                        by (nonlinear_arith);
                    assert(rem * 32 + v < pb * 32) by (nonlinear_arith)
                        requires
                            rem < pb,
                            v < 32,
                    ;
                    let old_vals = vals;
                    vals = vals.push(v as int);
                    assert(vals.drop_last() =~= old_vals);
                    assert(digits_value(vals, 32) == digits_value(old_vals, 32) * 32 + v);
                }
                rem = rem * 32 + v;
                bits = bits + 5;
                if bits >= 8 {
                    bits = bits - 8;
                    let p = pow2_small(bits);
                    let byte = rem / p;
                    proof {
                        lemma_emit(q, rem as int, (bits + 8) as nat, 8, bits as nat);
                        lemma_digits_push(q, byte as int, 256, result.len() as nat);
                    }
                    rem = rem % p;
                    let ghost old_result = result@;
                    result.push(byte as u8);
                    proof {
                        assert(result@.map_values(|b: u8| b as int) =~= old_result.map_values(|b: u8| b as int).push(byte as int));
                        q = q * 256 + byte;
                    }
                }
            },
        }
        }
    }
    proof {
        assert(encoded@.subrange(0, encoded@.len() as int) =~= encoded@);
        let m = vals.len();
        assert((5 * m) / 8 == result.len());
        lemma_pow2_pos(bits as nat);
        lemma_fundamental_div_mod_converse(digits_value(vals, 32), p2(bits as nat), q, rem as int);
        let d = digits(q, 256, result.len() as nat);
        assert(result@ =~= d.map_values(|x: int| x as u8)) by {
            assert forall|i: int| 0 <= i < result@.len() implies result@[i] == d.map_values(|x: int| x as u8)[i] by {
                assert(result@.map_values(|b: u8| b as int)[i] == result@[i] as int);
            }
        }
    }
    Ok(result)
}

proof fn lemma_base32_char_digit(d: int)
    requires
        0 <= d < 32,
    ensures
        !base32_ignored(base32_char(d)),
        base32_digit(base32_char(d)) == Some(d),
{
}

/// Base32 digits written out read back as the same digits.
proof fn lemma_values_of_chars(ds: Seq<int>)
    requires
        all_below(ds, 32),
    ensures
        base32_values(ds.map_values(|d: int| base32_char(d))) == Ok::<Seq<int>, char>(ds),
    decreases ds.len(),
{
    if ds.len() > 0 {
        let t = ds.drop_last();
        assert(all_below(t, 32)) by {
            assert forall|i: int| 0 <= i < t.len() implies 0 <= #[trigger] t[i] < 32 by {
                assert(t[i] == ds[i]);
            }
        }
        lemma_values_of_chars(t);
        let cs = ds.map_values(|d: int| base32_char(d));
        assert(cs.drop_last() =~= t.map_values(|d: int| base32_char(d)));
        assert(ds.last() == ds[ds.len() - 1]);
        lemma_base32_char_digit(ds.last());
        assert(cs.last() == base32_char(ds.last()));
        assert(t.push(ds.last()) =~= ds);
    } else {
        assert(ds.map_values(|d: int| base32_char(d)) =~= Seq::<char>::empty());
        assert(ds =~= Seq::<int>::empty());
    }
}

/// `base^k` written as a power of two.
proof fn lemma_pow_as_pow2(w: nat, k: nat)
    requires
        w <= 8,
    ensures
        pow(pow(2, w) as int, k) == p2(w * k),
{
    lemma_pow_multiplies(2, w, k);
    lemma_pow2(w * k);
}

/// Decoding what `base32_encode` produces gives back the original bytes.
pub proof fn law_base32_round_trip(data: Seq<u8>)
    ensures
        base32_values(spec_base32_encode(data)) matches Ok(vals) && base32_bytes(vals) == data,
{
    let n = data.len();
    let m = base32_len(n);
    let pad = base32_padding(n);
    let bs = data.map_values(|b: u8| b as int);
    let x = bytes_value(data);
    let big = x * p2(pad);
    let ds = digits(big, 32, m);
    lemma2_to64();
    lemma_pow2(5);
    lemma_pow2(8);
    assert(all_below(bs, 256));
    lemma_value_bound(bs, 256);
    lemma_pow_as_pow2(8, n);
    lemma_pow_as_pow2(5, m);
    lemma_pow2_adds(8 * n, pad);
    lemma_pow2_pos(pad);
    assert(5 * m == 8 * n + pad);
    assert(0 <= big < p2(5 * m)) by (nonlinear_arith)
        requires
            0 <= x < p2(8 * n),
            p2(pad) > 0,
            big == x * p2(pad),
            p2(8 * n + pad) == p2(8 * n) * p2(pad),
            5 * m == 8 * n + pad,
    ;
    lemma_digits_below(big, 32, m);
    lemma_digits_len(big, 32, m);
    lemma_values_of_chars(ds);
    lemma_value_of_digits(big, 32, m);
    assert((5 * m) / 8 == n);
    lemma_fundamental_div_mod_converse(big, p2(pad), x, 0);
    lemma_digits_of_value(bs, 256);
    assert(digits(x, 256, n).map_values(|d: int| d as u8) =~= data);
}

// ---------------------------------------------------------------------------
// Constant-time comparison
// ---------------------------------------------------------------------------

/// Whether two byte strings are equal, examining every byte whatever the
/// outcome so that timing does not reveal where they differ.
pub fn constant_time_eq(a: &[u8], b: &[u8]) -> (r: bool)
    ensures
        r == (a@ == b@),
{
    if a.len() != b.len() {
        return false;
    }
    let mut diff: u8 = 0;
    let n = a.len();
    for i in 0..n
        invariant
            n == a@.len(),
            n == b@.len(),
            (diff == 0) == (forall|j: int| 0 <= j < i ==> a@[j] == b@[j]),
    {
        let x = a[i];
        let y = b[i];
        assert((diff | (x ^ y)) == 0 <==> (diff == 0 && x == y)) by (bit_vector);
        diff = diff | (x ^ y);
    }
    assert(diff == 0 ==> a@ =~= b@);
    diff == 0
}

// ---------------------------------------------------------------------------
// TOTP
// ---------------------------------------------------------------------------

/// RFC 4226 dynamic truncation: the low nibble of the last byte picks four
/// bytes, read big-endian with the top bit cleared.
pub open spec fn spec_truncate(h: Seq<u8>) -> int {
    let o = (h.last() % 16) as int;
    (h[o] % 128) * 16777216 + h[o + 1] * 65536 + h[o + 2] * 256 + h[o + 3]
}

/// An HMAC long enough for the offset its last byte selects.
pub open spec fn truncatable(h: Seq<u8>) -> bool {
    h.len() > 0 && (h.last() % 16) + 3 < h.len()
}

pub fn truncate(hmac: &[u8]) -> (r: u32)
    requires
        truncatable(hmac@),
    ensures
        r == spec_truncate(hmac@),
{
    let last = hmac[hmac.len() - 1];
    let offset = (last & 0x0F) as usize;
    assert(last & 0x0F == last % 16) by (bit_vector);
    let a = hmac[offset];
    let b = hmac[offset + 1];
    let c = hmac[offset + 2];
    let d = hmac[offset + 3];
    assert((((a & 0x7F) as u32) << 24u32 | (b as u32) << 16u32 | (c as u32) << 8u32 | (d as u32))
        == (a % 128) as u32 * 16777216 + b as u32 * 65536 + c as u32 * 256 + d as u32) by (bit_vector);
    ((a & 0x7F) as u32) << 24 | (b as u32) << 16 | (c as u32) << 8 | (d as u32)
}

/// The six-digit, zero-padded code an HMAC yields.
pub open spec fn spec_totp_code(h: Seq<u8>) -> Seq<char> {
    digit_text(spec_truncate(h) % 1000000, 10, 6)
}

/// The TOTP code for an HMAC-SHA1 of the time-step counter.
pub fn totp_code(hmac: &[u8]) -> (r: String)
    requires
        truncatable(hmac@),
    ensures
        r@ == spec_totp_code(hmac@),
{
    let v = truncate(hmac) % 1_000_000;
    let mut r = String::new();
    push_digits(&mut r, v as u64, 10, TOTP_DIGITS);
    assert(r@ =~= spec_totp_code(hmac@));
    r
}

/// The time step a Unix time falls in.
pub fn totp_counter(time: u64) -> (r: u64)
    ensures
        r == time / 30,
{
    time / TOTP_PERIOD
}

/// The big-endian bytes of a counter (`u64::to_be_bytes`), the HMAC message.
pub fn counter_bytes(counter: u64) -> (r: Vec<u8>)
    ensures
        r@ == digits(counter as int, 256, 8).map_values(|d: int| d as u8),
{
    let mut r: Vec<u8> = Vec::new();
    let mut k: u32 = 8;
    while k > 0
        invariant
            k <= 8,
            r@ == digits(counter as int / pow(256, k as nat), 256, (8 - k) as nat).map_values(|d: int| d as u8),
        decreases k,
    {
        proof {
            reveal(pow);
            lemma_pow_positive(256, (k - 1) as nat);
            lemma_div_denominator(counter as int, pow(256, (k - 1) as nat), 256);
            assert(pow(256, k as nat) == 256 * pow(256, (k - 1) as nat));
            assert(pow(256, (k - 1) as nat) * 256 == 256 * pow(256, (k - 1) as nat)) by (nonlinear_arith);
        }
        let shift: u64 = 8 * (k as u64 - 1);
        let byte = ((counter >> shift) & 0xFF) as u8;
        proof {
            assert(shift < 64);
            lemma_shift_is_div(counter, shift, (k - 1) as nat);
        }
        let ghost r0 = r@;
        r.push(byte);
        k = k - 1;
        proof {
            let x = counter as int / pow(256, k as nat);
            lemma_mod_bound(x, 256);
            assert(digits(x, 256, (8 - k) as nat) == digits(x / 256, 256, (7 - k) as nat).push(x % 256));
            assert(r@ =~= digits(x, 256, (8 - k) as nat).map_values(|d: int| d as u8));
        }
    }
    proof {
        reveal(pow);
    }
    r
}

proof fn lemma_shift_is_div(x: u64, shift: u64, k: nat)
    requires
        shift == 8 * k,
        k < 8,
    ensures
        ((x >> shift) & 0xFF) as int == (x as int / pow(256, k)) % 256,
{
    vstd::bits::lemma_u64_shr_is_div(x, shift);
    let y = x >> shift;
    assert(y & 0xFF == y % 256) by (bit_vector);
    lemma2_to64();
    lemma_pow2(8);
    lemma_pow_as_pow2(8, k);
}

/// The three instants whose codes are accepted: now, one step earlier and
/// one step later, in that order (arithmetic on the 64-bit clock value
/// wraps).
pub open spec fn totp_window_times(time: u64) -> Seq<u64> {
    seq![time, time.wrapping_sub(30), time.wrapping_add(30)]
}

pub fn window_times(time: u64) -> (r: Vec<u64>)
    ensures
        r@ == totp_window_times(time),
{
    let mut r = Vec::new();
    r.push(time);
    r.push(time.wrapping_sub(TOTP_PERIOD));
    r.push(time.wrapping_add(TOTP_PERIOD));
    assert(r@ =~= totp_window_times(time));
    r
}

/// The first window whose expected code equals the submitted one.
pub open spec fn first_matching_window(code: Seq<u8>, expected: Seq<Seq<u8>>) -> Option<int>
    decreases expected.len(),
{
    if expected.len() == 0 {
        None
    } else {
        match first_matching_window(code, expected.drop_last()) {
            Some(i) => Some(i),
            None => if expected.last() == code {
                Some(expected.len() - 1)
            } else {
                None
            },
        }
    }
}

/// Checks a submitted TOTP code against the codes expected for the three
/// windows of `totp_window_times(time)`. On a match, returns the time step
/// of the first matching window, so that callers can refuse a step that was
/// already used.
pub fn validate_totp_step(code: &str, time: u64, expected: &Vec<String>) -> (r: Option<u64>)
    requires
        expected@.len() == 3,
    ensures
        match first_matching_window(encode_utf8(code@), expected@.map_values(|e: String| encode_utf8(e@))) {
            Some(i) => r == Some(totp_window_times(time)[i] / 30),
            None => r is None,
        },
{
    let times = window_times(time);
    let ghost ex = expected@.map_values(|e: String| encode_utf8(e@));
    let mut k: usize = 0;
    while k < 3
        invariant
            k <= 3,
            expected@.len() == 3,
            times@ == totp_window_times(time),
            ex == expected@.map_values(|e: String| encode_utf8(e@)),
            first_matching_window(encode_utf8(code@), ex.subrange(0, k as int)) is None,
        decreases 3 - k,
    {
        let candidate = expected[k].as_str();
        let same = constant_time_eq(code.as_bytes(), candidate.as_bytes());
        proof {
            assert(ex.subrange(0, k + 1).drop_last() =~= ex.subrange(0, k as int));
            assert(ex.subrange(0, k + 1).last() == ex[k as int]);
        }
        if same {
            proof {
                lemma_first_match_extends(encode_utf8(code@), ex, k + 1, k as int);
            }
            return Some(times[k] / TOTP_PERIOD);
        }
        k = k + 1;
    }
    proof {
        assert(ex.subrange(0, 3) =~= ex);
    }
    None
}

proof fn lemma_first_match_extends(code: Seq<u8>, ex: Seq<Seq<u8>>, k: int, i: int)
    requires
        0 <= k <= ex.len(),
        first_matching_window(code, ex.subrange(0, k)) == Some(i),
    ensures
        first_matching_window(code, ex) == Some(i),
    decreases ex.len() - k,
{
    if k == ex.len() {
        assert(ex.subrange(0, k) =~= ex);
    } else {
        assert(ex.subrange(0, k + 1).drop_last() =~= ex.subrange(0, k));
        lemma_first_match_extends(code, ex, k + 1, i);
    }
}

/// `len` random bytes, base32-encoded.
pub fn random_base32(len: usize) -> (r: Result<String, AppError>)
    ensures
        r matches Ok(s) ==> exists|b: Seq<u8>| b.len() == len && s@ == spec_base32_encode(b),
        r matches Err(e) ==> is_random_failure(e),
{
    let bytes = random_bytes(len)?;
    Ok(base32_encode(bytes.as_slice()))
}

/// A fresh TOTP secret: 20 random bytes in base32.
pub fn generate_totp_secret() -> (r: Result<String, AppError>)
    ensures
        r matches Ok(s) ==> exists|b: Seq<u8>| b.len() == 20 && s@ == spec_base32_encode(b),
        r matches Err(e) ==> is_random_failure(e),
{
    random_base32(20)
}

/// A fresh two-factor recovery code: 20 random bytes in base32.
pub fn generate_recovery_code() -> (r: Result<String, AppError>)
    ensures
        r matches Ok(s) ==> exists|b: Seq<u8>| b.len() == 20 && s@ == spec_base32_encode(b),
        r matches Err(e) ==> is_random_failure(e),
{
    random_base32(20)
}

} // verus!
