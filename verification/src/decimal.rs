//! Decimal numerals for counters: reading an `i32` from text and writing one.
//!
//! A numeral is an optional sign, `+` or `-`, followed by at least one digit
//! `0`..`9`. Leading zeros are allowed; spaces, separators and digits of other
//! scripts are not.

use vstd::prelude::*;
use crate::text::{chars_of, string_of};

verus! {

pub open spec fn is_digit(c: char) -> bool {
    '0' <= c <= '9'
}

/// The number that the digit `c` stands for.
pub open spec fn digit_value(c: char) -> int {
    c as int - '0' as int
}

/// The digit that stands for `d`, for `d` from 0 to 9.
pub open spec fn digit_char(d: int) -> char {
    ('0' as int + d) as char
}

pub open spec fn all_digits(s: Seq<char>) -> bool {
    forall|i: int| 0 <= i < s.len() ==> is_digit(#[trigger] s[i])
}

/// The number written by a run of digits, most significant first. The empty
/// run writes zero.
pub open spec fn digits_value(s: Seq<char>) -> int
    decreases s.len(),
{
    if s.len() == 0 {
        0
    } else {
        digits_value(s.drop_last()) * 10 + digit_value(s.last())
    }
}

/// The integer that the numeral `s` denotes, if `s` is a numeral.
pub open spec fn parse_int(s: Seq<char>) -> Option<int> {
    if s.len() > 0 && (s[0] == '-' || s[0] == '+') {
        let digits = s.skip(1);
        if digits.len() > 0 && all_digits(digits) {
            Some(
                if s[0] == '-' {
                    -digits_value(digits)
                } else {
                    digits_value(digits)
                },
            )
        } else {
            None
        }
    } else if s.len() > 0 && all_digits(s) {
        Some(digits_value(s))
    } else {
        None
    }
}

/// The `i32` that the numeral `s` denotes: `None` if `s` is no numeral or the
/// number does not fit.
pub open spec fn parse_i32_spec(s: Seq<char>) -> Option<i32> {
    match parse_int(s) {
        Some(v) => if i32::MIN <= v <= i32::MAX {
            Some(v as i32)
        } else {
            None
        },
        None => None,
    }
}

/// The digits of `n` without leading zeros; zero is written `0`.
pub open spec fn nat_digits(n: nat) -> Seq<char>
    decreases n,
{
    if n < 10 {
        seq![digit_char(n as int)]
    } else {
        nat_digits(n / 10).push(digit_char((n % 10) as int))
    }
}

/// The numeral for `n`: its digits, after a `-` if `n` is negative.
pub open spec fn int_text(n: int) -> Seq<char> {
    if n < 0 {
        seq!['-'] + nat_digits((-n) as nat)
    } else {
        nat_digits(n as nat)
    }
}

/// A run of digits is worth at least as much as any of its prefixes.
proof fn lemma_prefix_value(s: Seq<char>, k: int)
    requires
        all_digits(s),
        0 <= k <= s.len(),
    ensures
        0 <= digits_value(s.take(k)) <= digits_value(s),
    decreases s.len(),
{
    if s.len() == 0 {
        assert(s.take(k) =~= s);
    } else if k == s.len() {
        assert(s.take(k) =~= s);
        lemma_prefix_value(s.drop_last(), k - 1);
    } else {
        lemma_prefix_value(s.drop_last(), k);
        assert(s.drop_last().take(k) =~= s.take(k));
    }
}

/// Appending one digit multiplies the value by ten and adds the digit.
proof fn lemma_value_step(s: Seq<char>, k: int)
    requires
        0 <= k < s.len(),
    ensures
        digits_value(s.take(k + 1)) == digits_value(s.take(k)) * 10 + digit_value(s[k]),
{
    assert(s.take(k + 1).drop_last() =~= s.take(k));
}

/// The digits of a number are digits, and they write that number.
pub proof fn lemma_nat_digits(n: nat)
    ensures
        nat_digits(n).len() > 0,
        all_digits(nat_digits(n)),
        digits_value(nat_digits(n)) == n,
    decreases n,
{
    if n < 10 {
        let s = nat_digits(n);
        assert(digits_value(s.drop_last()) == 0);
    } else {
        lemma_nat_digits(n / 10);
        let s = nat_digits(n);
        assert(s.drop_last() =~= nat_digits(n / 10));
        assert forall|i: int| 0 <= i < s.len() implies is_digit(#[trigger] s[i]) by {
            if i < s.len() - 1 {
                assert(s[i] == nat_digits(n / 10)[i]);
            }
        }
    }
}

/// Reading the numeral written for `n` gives `n` back.
pub proof fn lemma_parse_int_text(n: int)
    ensures
        parse_int(int_text(n)) == Some(n),
{
    if n < 0 {
        lemma_nat_digits((-n) as nat);
        let s = int_text(n);
        assert(s.skip(1) =~= nat_digits((-n) as nat));
    } else {
        lemma_nat_digits(n as nat);
        let s = int_text(n);
    }
}

/// Reading the numeral written for an `i32` gives that `i32` back.
pub proof fn lemma_parse_i32_text(n: i32)
    ensures
        parse_i32_spec(int_text(n as int)) == Some(n),
{
    lemma_parse_int_text(n as int);
}

/// Reads an `i32` from a numeral.
pub fn parse_i32(s: &str) -> (parsed: Option<i32>)
    ensures
        parsed == parse_i32_spec(s@),
{
    let chars = chars_of(s);
    let n = chars.len();
    if n == 0 {
        return None;
    }
    let negative = chars[0] == '-';
    let start: usize = if chars[0] == '-' || chars[0] == '+' {
        1
    } else {
        0
    };
    if start == n {
        return None;
    }
    let ghost digits = chars@.skip(start as int);
    let mut acc: i64 = 0;
    let mut i: usize = start;
    while i < n
        invariant
            start <= i <= n,
            start < n,
            n == chars.len(),
            chars@ == s@,
            start == (if chars@[0] == '-' || chars@[0] == '+' {
                1usize
            } else {
                0usize
            }),
            digits =~= chars@.skip(start as int),
            start == 0 ==> digits == s@,
            all_digits(digits.take(i - start)),
            acc == digits_value(digits.take(i - start)),
            0 <= acc <= 2147483648,
        decreases n - i,
    {
        let c = chars[i];
        if c < '0' || c > '9' {
            assert(!is_digit(digits[i - start]));
            return None;
        }
        let d: i64 = (c as u32 - '0' as u32) as i64;
        proof {
            lemma_value_step(digits, i - start);
            assert forall|j: int| 0 <= j < i - start + 1 implies is_digit(
                #[trigger] digits.take(i - start + 1)[j],
            ) by {
                if j < i - start {
                    assert(digits.take(i - start)[j] == digits[j]);
                }
            }
        }
        acc = acc * 10 + d;
        if acc > 2147483648 {
            proof {
                if all_digits(digits) {
                    lemma_prefix_value(digits, i - start + 1);
                }
            }
            return None;
        }
        i = i + 1;
    }
    assert(digits.take(n - start) =~= digits);
    if negative {
        Some((-acc) as i32)
    } else if acc == 2147483648 {
        None
    } else {
        Some(acc as i32)
    }
}

/// The character for a single digit.
fn digit_of(d: i64) -> (c: char)
    requires
        0 <= d < 10,
    ensures
        c == digit_char(d as int),
{
    (48 + d) as u8 as char
}

/// Writes an `i32` as a numeral.
pub fn i32_to_string(n: i32) -> (s: String)
    ensures
        s@ == int_text(n as int),
{
    let wide: i64 = n as i64;
    let magnitude: i64 = if wide < 0 {
        -wide
    } else {
        wide
    };
    // Digits from the least significant up.
    let mut low_first: Vec<char> = Vec::new();
    low_first.push(digit_of(magnitude % 10));
    let mut rest: i64 = magnitude / 10;
    while rest > 0
        invariant
            0 <= rest <= magnitude,
            low_first.len() > 0,
            nat_digits(magnitude as nat) =~= (if rest == 0 {
                Seq::<char>::empty()
            } else {
                nat_digits(rest as nat)
            }) + low_first@.reverse(),
        decreases rest,
    {
        low_first.push(digit_of(rest % 10));
        rest = rest / 10;
    }
    let mut out: Vec<char> = Vec::new();
    if wide < 0 {
        out.push('-');
    }
    let ghost sign = out@;
    let mut k: usize = low_first.len();
    while k > 0
        invariant
            k <= low_first.len(),
            out@ =~= sign + low_first@.reverse().take(low_first.len() - k),
        decreases k,
    {
        k = k - 1;
        out.push(low_first[k]);
    }
    string_of(&out)
}

} // verus!
