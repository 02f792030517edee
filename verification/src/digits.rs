//! Positional notation: the digits of a number in a given base, and the
//! number a digit sequence denotes. Base32, the TOTP code and the hex and
//! decimal renderings are all stated in these terms.

use vstd::prelude::*;
use vstd::arithmetic::div_mod::*;
use vstd::arithmetic::power::*;

verus! {

/// The `k` least significant digits of `x` in base `base`, most significant first.
pub open spec fn digits(x: int, base: int, k: nat) -> Seq<int>
    decreases k,
{
    if k == 0 {
        Seq::empty()
    } else {
        digits(x / base, base, (k - 1) as nat).push(x % base)
    }
}

/// The number a digit sequence denotes in base `base`, most significant digit first.
pub open spec fn digits_value(s: Seq<int>, base: int) -> int
    decreases s.len(),
{
    if s.len() == 0 {
        0
    } else {
        digits_value(s.drop_last(), base) * base + s.last()
    }
}

/// Every element of `s` is a digit of base `base`.
pub open spec fn all_below(s: Seq<int>, base: int) -> bool {
    forall|i: int| 0 <= i < s.len() ==> 0 <= #[trigger] s[i] < base
}

pub proof fn lemma_digits_len(x: int, base: int, k: nat)
    ensures
        digits(x, base, k).len() == k,
    decreases k,
{
    if k > 0 {
        lemma_digits_len(x / base, base, (k - 1) as nat);
    }
}

pub proof fn lemma_digits_below(x: int, base: int, k: nat)
    requires
        base > 0,
    ensures
        all_below(digits(x, base, k), base),
    decreases k,
{
    if k > 0 {
        lemma_digits_below(x / base, base, (k - 1) as nat);
        lemma_mod_bound(x, base);
        lemma_digits_len(x / base, base, (k - 1) as nat);
        let d = digits(x, base, k);
        assert forall|i: int| 0 <= i < d.len() implies 0 <= #[trigger] d[i] < base by {
            if i < k - 1 {
                assert(d[i] == digits(x / base, base, (k - 1) as nat)[i]);
            }
        }
    }
}

/// Appending one digit on the right multiplies by the base and adds it.
pub proof fn lemma_digits_push(x: int, y: int, base: int, k: nat)
    requires
        base > 0,
        0 <= y < base,
    ensures
        digits(x * base + y, base, k + 1) == digits(x, base, k).push(y),
{
    lemma_fundamental_div_mod_converse(x * base + y, base, x, y);
}

/// A digit sequence denotes a number below `base^len`.
pub proof fn lemma_value_bound(s: Seq<int>, base: int)
    requires
        base > 1,
        all_below(s, base),
    ensures
        0 <= digits_value(s, base) < pow(base, s.len()),
    decreases s.len(),
{
    reveal(pow);
    if s.len() > 0 {
        let t = s.drop_last();
        assert(all_below(t, base)) by {
            assert forall|i: int| 0 <= i < t.len() implies 0 <= #[trigger] t[i] < base by {
                assert(t[i] == s[i]);
            }
        }
        lemma_value_bound(t, base);
        let v = digits_value(t, base);
        let p = pow(base, t.len());
        assert(s.last() == s[s.len() - 1]);
        assert(pow(base, s.len()) == base * p);
        assert(v * base + s.last() < base * p) by (nonlinear_arith)
            requires
                0 <= v < p,
                0 <= s.last() < base,
        ;
        assert(0 <= v * base) by (nonlinear_arith)
            requires
                0 <= v,
                base > 1,
        ;
    }
}

/// Writing the number a digit sequence denotes gives back the sequence.
pub proof fn lemma_digits_of_value(s: Seq<int>, base: int)
    requires
        base > 1,
        all_below(s, base),
    ensures
        digits(digits_value(s, base), base, s.len()) == s,
    decreases s.len(),
{
    if s.len() > 0 {
        let t = s.drop_last();
        assert(all_below(t, base)) by {
            assert forall|i: int| 0 <= i < t.len() implies 0 <= #[trigger] t[i] < base by {
                assert(t[i] == s[i]);
            }
        }
        lemma_digits_of_value(t, base);
        assert(s.last() == s[s.len() - 1]);
        lemma_digits_push(digits_value(t, base), s.last(), base, t.len());
        assert(t.push(s.last()) =~= s);
    }
}

/// The digits of a number below `base^k` denote that number.
pub proof fn lemma_value_of_digits(x: int, base: int, k: nat)
    requires
        base > 1,
        0 <= x < pow(base, k),
    ensures
        digits_value(digits(x, base, k), base) == x,
    decreases k,
{
    reveal(pow);
    if k == 0 {
    } else {
        let q = x / base;
        let r = x % base;
        lemma_fundamental_div_mod(x, base);
        lemma_mod_bound(x, base);
        let p = pow(base, (k - 1) as nat);
        assert(pow(base, k) == base * p);
        assert(0 <= q < p) by (nonlinear_arith)
            requires
                x == base * q + r,
                0 <= r < base,
                0 <= x < base * p,
                base > 1,
        ;
        lemma_value_of_digits(q, base, (k - 1) as nat);
        let d = digits(x, base, k);
        assert(d.drop_last() =~= digits(q, base, (k - 1) as nat));
        assert(d.last() == r);
        assert(digits_value(d, base) == digits_value(d.drop_last(), base) * base + d.last());
        assert(q * base == base * q) by (nonlinear_arith);
    }
}

/// The character for a digit below 16: `0`-`9`, then lowercase `a`-`f`.
pub open spec fn digit_char(d: int) -> char {
    if d < 10 {
        ((48 + d) as u8) as char
    } else {
        ((87 + d) as u8) as char
    }
}

/// `k` digits of `x` in base `base`, written with `digit_char`.
pub open spec fn digit_text(x: int, base: int, k: nat) -> Seq<char> {
    digits(x, base, k).map_values(|d: int| digit_char(d))
}

/// The shortest decimal numeral of a natural number.
pub open spec fn decimal(n: nat) -> Seq<char>
    decreases n,
{
    if n < 10 {
        seq![digit_char(n as int)]
    } else {
        decimal(n / 10).push(digit_char((n % 10) as int))
    }
}

/// The decimal numeral of an integer, with a leading `-` when negative.
pub open spec fn signed_decimal(x: int) -> Seq<char> {
    if x < 0 {
        seq!['-'] + decimal((-x) as nat)
    } else {
        decimal(x as nat)
    }
}

} // verus!
