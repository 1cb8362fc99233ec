//! Decimal notation for signed 64-bit integers.
//!
//! Block numbers travel as decimal text. This module says which texts denote
//! an integer, which integer that is, and how an integer is written back.

use vstd::prelude::*;
use vstd::string::*;

verus! {

/// Whether `c` is one of the ten ASCII decimal digits.
pub open spec fn is_digit(c: char) -> bool {
    '0' <= c && c <= '9'
}

/// The number a decimal digit stands for.
pub open spec fn digit_value(c: char) -> int {
    c as int - '0' as int
}

/// Whether every character of `s` is a decimal digit.
pub open spec fn all_digits(s: Seq<char>) -> bool {
    forall|i: int| 0 <= i < s.len() ==> is_digit(#[trigger] s[i])
}

/// The number that a run of digits denotes, most significant digit first.
pub open spec fn digits_value(s: Seq<char>) -> int
    decreases s.len(),
{
    if s.len() == 0 {
        0
    } else {
        10 * digits_value(s.drop_last()) + digit_value(s.last())
    }
}

/// Whether `s` opens with a plus or a minus sign.
pub open spec fn has_sign(s: Seq<char>) -> bool {
    s.len() > 0 && (s[0] == '+' || s[0] == '-')
}

/// What follows the optional sign.
pub open spec fn magnitude_part(s: Seq<char>) -> Seq<char> {
    if has_sign(s) {
        s.subrange(1, s.len() as int)
    } else {
        s
    }
}

/// A decimal literal is an optional sign followed by one or more digits,
/// with nothing before, between or after them.
pub open spec fn is_decimal(s: Seq<char>) -> bool {
    magnitude_part(s).len() > 0 && all_digits(magnitude_part(s))
}

/// The integer that a decimal literal denotes.
pub open spec fn decimal_value(s: Seq<char>) -> int {
    if has_sign(s) && s[0] == '-' {
        -digits_value(magnitude_part(s))
    } else {
        digits_value(magnitude_part(s))
    }
}

/// The 64-bit integer written as `s`, if `s` is a decimal literal whose
/// value fits.
pub open spec fn parse_i64_spec(s: Seq<char>) -> Option<i64> {
    if is_decimal(s) && i64::MIN <= decimal_value(s) <= i64::MAX {
        Some(decimal_value(s) as i64)
    } else {
        None
    }
}

/// The digit that stands for `d`, for `d` from 0 to 9.
pub open spec fn digit_char(d: int) -> char {
    if d == 0 {
        '0'
    } else if d == 1 {
        '1'
    } else if d == 2 {
        '2'
    } else if d == 3 {
        '3'
    } else if d == 4 {
        '4'
    } else if d == 5 {
        '5'
    } else if d == 6 {
        '6'
    } else if d == 7 {
        '7'
    } else if d == 8 {
        '8'
    } else {
        '9'
    }
}

/// A natural number in decimal, without leading zeros.
pub open spec fn natural_text(n: nat) -> Seq<char>
    decreases n,
{
    if n < 10 {
        seq![digit_char(n as int)]
    } else {
        natural_text(n / 10).push(digit_char((n % 10) as int))
    }
}

/// An integer in decimal: a minus sign for a negative one, then its magnitude.
pub open spec fn decimal_text(v: int) -> Seq<char> {
    if v < 0 {
        seq!['-'] + natural_text((-v) as nat)
    } else {
        natural_text(v as nat)
    }
}

proof fn lemma_digits_value_step(s: Seq<char>, from: int, to: int)
    requires
        0 <= from <= to < s.len(),
    ensures
        digits_value(s.subrange(from, to + 1)) == 10 * digits_value(s.subrange(from, to))
            + digit_value(s[to]),
{
    let longer = s.subrange(from, to + 1);
    assert(longer.drop_last() =~= s.subrange(from, to));
}

proof fn lemma_digits_value_nonnegative(s: Seq<char>)
    requires
        all_digits(s),
    ensures
        0 <= digits_value(s),
    decreases s.len(),
{
    if s.len() > 0 {
        lemma_digits_value_nonnegative(s.drop_last());
    }
}

/// Digits that follow can only make the value larger.
proof fn lemma_prefix_value(s: Seq<char>, k: int)
    requires
        all_digits(s),
        0 <= k <= s.len(),
    ensures
        0 <= digits_value(s.take(k)) <= digits_value(s),
    decreases s.len() - k,
{
    if k == s.len() {
        assert(s.take(k) =~= s);
        lemma_digits_value_nonnegative(s);
    } else {
        lemma_prefix_value(s, k + 1);
        let longer = s.take(k + 1);
        assert(longer.drop_last() =~= s.take(k));
        lemma_digits_value_nonnegative(s.take(k));
    }
}

/// Reads a decimal literal: an optional `+` or `-`, then one or more ASCII
/// digits. Anything else, and any value outside the 64-bit range, gives `None`.
pub fn parse_i64(text: &str) -> (r: Option<i64>)
    ensures
        r == parse_i64_spec(text@),
{
    let mut first = true;
    let mut signed = false;
    let mut negative = false;
    let mut any_digit = false;
    let mut acc: i64 = 0;
    for c in it: text.chars()
        invariant
            it.seq() == text@,
            first == (it.index() == 0),
            signed == (it.index() > 0 && has_sign(text@)),
            negative == (signed && text@[0] == '-'),
            all_digits(text@.subrange(if signed { 1int } else { 0int }, it.index() as int)),
            any_digit == (text@.subrange(if signed { 1int } else { 0int }, it.index() as int).len()
                > 0),
            acc == if negative {
                -digits_value(text@.subrange(1, it.index() as int))
            } else {
                digits_value(text@.subrange(if signed { 1int } else { 0int }, it.index() as int))
            },
    {
        let ghost at: int = it.index() as int;
        let ghost start: int = if signed { 1int } else { 0int };
        if first && (c == '+' || c == '-') {
            signed = true;
            negative = c == '-';
            first = false;
        } else if '0' <= c && c <= '9' {
            let d: u8 = (c as u8) - ('0' as u8);
            let wide: i128 = if negative {
                (acc as i128) * 10 - (d as i128)
            } else {
                (acc as i128) * 10 + (d as i128)
            };
            proof {
                lemma_digits_value_step(text@, start, at);
                assert forall|i: int| 0 <= i < at + 1 - start implies is_digit(
                    #[trigger] text@.subrange(start, at + 1)[i],
                ) by {}
            }
            if wide > i64::MAX as i128 || wide < i64::MIN as i128 {
                proof {
                    let magnitude = magnitude_part(text@);
                    if is_decimal(text@) {
                        lemma_prefix_value(magnitude, at + 1 - start);
                        assert(magnitude.take(at + 1 - start) =~= text@.subrange(start, at + 1));
                    }
                }
                return None;
            }
            acc = wide as i64;
            any_digit = true;
            first = false;
        } else {
            proof {
                if has_sign(text@) {
                    assert(magnitude_part(text@)[at - 1] == c);
                }
            }
            return None;
        }
    }
    proof {
        let start: int = if signed { 1int } else { 0int };
        assert(text@.subrange(start, text@.len() as int) =~= magnitude_part(text@));
    }
    if any_digit {
        Some(acc)
    } else {
        None
    }
}

fn digit_str(d: u64) -> (t: &'static str)
    requires
        d < 10,
    ensures
        t@ == seq![digit_char(d as int)],
{
    proof {
        reveal_strlit("0");
        reveal_strlit("1");
        reveal_strlit("2");
        reveal_strlit("3");
        reveal_strlit("4");
        reveal_strlit("5");
        reveal_strlit("6");
        reveal_strlit("7");
        reveal_strlit("8");
        reveal_strlit("9");
    }
    let t = if d == 0 {
        "0"
    } else if d == 1 {
        "1"
    } else if d == 2 {
        "2"
    } else if d == 3 {
        "3"
    } else if d == 4 {
        "4"
    } else if d == 5 {
        "5"
    } else if d == 6 {
        "6"
    } else if d == 7 {
        "7"
    } else if d == 8 {
        "8"
    } else {
        "9"
    };
    t
}

fn natural_string(n: u64) -> (t: String)
    ensures
        t@ == natural_text(n as nat),
    decreases n,
{
    if n < 10 {
        digit_str(n).to_owned()
    } else {
        let mut t = natural_string(n / 10);
        t.append(digit_str(n % 10));
        t
    }
}

/// Writes `v` in decimal: a minus sign if it is negative, then its digits
/// without leading zeros.
pub fn format_i64(v: i64) -> (t: String)
    ensures
        t@ == decimal_text(v as int),
{
    if v < 0 {
        let magnitude: u64 = if v == i64::MIN {
            9223372036854775808u64
        } else {
            (-v) as u64
        };
        proof {
            reveal_strlit("-");
        }
        let mut t = "-".to_owned();
        let digits = natural_string(magnitude);
        t.append(digits.as_str());
        t
    } else {
        natural_string(v as u64)
    }
}

proof fn lemma_natural_text_reads_back(n: nat)
    ensures
        natural_text(n).len() > 0,
        all_digits(natural_text(n)),
        digits_value(natural_text(n)) == n,
    decreases n,
{
    let t = natural_text(n);
    if n < 10 {
        assert(digits_value(t.drop_last()) == 0);
    } else {
        lemma_natural_text_reads_back(n / 10);
        assert(t.drop_last() =~= natural_text(n / 10));
        assert forall|i: int| 0 <= i < t.len() implies is_digit(#[trigger] t[i]) by {}
    }
}

/// Writing an integer and reading the text back gives the integer again.
pub proof fn lemma_format_then_parse(v: i64)
    ensures
        parse_i64_spec(decimal_text(v as int)) == Some(v),
{
    let t = decimal_text(v as int);
    if v < 0 {
        lemma_natural_text_reads_back((-v) as nat);
        assert(magnitude_part(t) =~= natural_text((-v) as nat));
    } else {
        lemma_natural_text_reads_back(v as nat);
    }
}

} // verus!
