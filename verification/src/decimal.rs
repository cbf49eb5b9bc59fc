//! Identifiers written in decimal.
//!
//! A session token carries its principal's identifier as text. This module
//! says which texts denote an identifier, reads them and writes them.

use vstd::prelude::*;
use vstd::string::*;
use crate::text::chars_of;

verus! {

/// `c` is one of the ten decimal digits.
pub open spec fn is_digit(c: char) -> bool {
    '0' <= c && c <= '9'
}

/// The number that the decimal digit `c` stands for.
pub open spec fn digit_value(c: char) -> int {
    c as int - '0' as int
}

/// The decimal digit that stands for `d`, for `d` below ten.
pub open spec fn digit_char(d: int) -> char {
    (d + '0' as int) as char
}

/// Every character of `s` is a decimal digit.
pub open spec fn all_digits(s: Seq<char>) -> bool {
    forall|i: int| 0 <= i < s.len() ==> is_digit(#[trigger] s[i])
}

/// The number that a sequence of decimal digits denotes, most significant
/// digit first; zero for the empty sequence.
pub open spec fn digits_value(s: Seq<char>) -> int
    decreases s.len(),
{
    if s.len() == 0 {
        0
    } else {
        digits_value(s.drop_last()) * 10 + digit_value(s.last())
    }
}

/// The integer that `s` denotes: an optional `+` or `-`, then one decimal
/// digit or more and nothing else. `None` for every other text.
pub open spec fn decimal_value(s: Seq<char>) -> Option<int> {
    let negative = s.len() > 0 && s[0] == '-';
    let signed = s.len() > 0 && (s[0] == '-' || s[0] == '+');
    let digits = if signed { s.skip(1) } else { s };
    if digits.len() > 0 && all_digits(digits) {
        Some(if negative { -digits_value(digits) } else { digits_value(digits) })
    } else {
        None
    }
}

/// The identifier that `s` denotes, where it denotes an integer that fits.
pub open spec fn parsed_id(s: Seq<char>) -> Option<i64> {
    match decimal_value(s) {
        Some(v) => if i64::MIN <= v <= i64::MAX { Some(v as i64) } else { None },
        None => None,
    }
}

/// The digits of `n`, most significant first, without leading zeros.
pub open spec fn digits_text(n: nat) -> Seq<char>
    decreases n,
{
    if n < 10 {
        seq![digit_char(n as int)]
    } else {
        digits_text(n / 10).push(digit_char((n % 10) as int))
    }
}

/// The decimal text of `v`: a `-` for a negative number, then its digits.
pub open spec fn decimal_text(v: int) -> Seq<char> {
    if v < 0 {
        seq!['-'] + digits_text((-v) as nat)
    } else {
        digits_text(v as nat)
    }
}

/// The largest magnitude an identifier can have: that of `i64::MIN`.
pub const MAGNITUDE_LIMIT: u64 = 9223372036854775808;

/// Reads the digits of `chars` from position `from` on. `None` where there
/// is no digit, where a character is no digit, or where the number they
/// denote is above [`MAGNITUDE_LIMIT`].
fn parse_magnitude(chars: &Vec<char>, from: usize) -> (r: Option<u64>)
    requires
        from <= chars.len(),
    ensures
        match r {
            Some(m) => {
                &&& from < chars.len()
                &&& all_digits(chars@.skip(from as int))
                &&& m == digits_value(chars@.skip(from as int))
                &&& m <= MAGNITUDE_LIMIT
            },
            None => {
                ||| from == chars.len()
                ||| !all_digits(chars@.skip(from as int))
                ||| digits_value(chars@.skip(from as int)) > MAGNITUDE_LIMIT
            },
        },
{
    let ghost digits = chars@.skip(from as int);
    if from == chars.len() {
        return None;
    }
    let mut acc: u64 = 0;
    let mut i: usize = from;
    while i < chars.len()
        invariant
            from <= i <= chars.len(),
            digits == chars@.skip(from as int),
            all_digits(digits.take(i - from)),
            acc == digits_value(digits.take(i - from)),
            acc <= MAGNITUDE_LIMIT,
        decreases chars.len() - i,
    {
        let c: char = chars[i];
        proof {
            assert(digits.take(i - from + 1).drop_last() == digits.take(i - from));
        }
        if !(c >= '0' && c <= '9') {
            proof {
                assert(digits[i - from] == c);
            }
            return None;
        }
        let d: u64 = (c as u32 - '0' as u32) as u64;
        if acc > (MAGNITUDE_LIMIT - d) / 10 {
            proof {
                if all_digits(digits) {
                    lemma_prefix_value(digits, i - from + 1);
                }
            }
            return None;
        }
        acc = acc * 10 + d;
        i = i + 1;
    }
    proof {
        assert(digits.take(i - from) == digits);
    }
    Some(acc)
}

/// Reads an identifier: an optional sign, then decimal digits, denoting a
/// number that fits in 64 bits. Every other text gives `None`.
pub fn parse_id(text: &str) -> (r: Option<i64>)
    ensures
        r == parsed_id(text@),
{
    let chars = chars_of(text);
    if chars.len() == 0 {
        return None;
    }
    let first: char = chars[0];
    let negative = first == '-';
    let from: usize = if first == '-' || first == '+' { 1 } else { 0 };
    proof {
        assert(chars@.skip(0) == chars@);
    }
    match parse_magnitude(&chars, from) {
        None => None,
        Some(m) => {
            if negative {
                if m == MAGNITUDE_LIMIT {
                    Some(i64::MIN)
                } else {
                    Some(-(m as i64))
                }
            } else if m == MAGNITUDE_LIMIT {
                None
            } else {
                Some(m as i64)
            }
        },
    }
}

/// The text of one decimal digit.
fn digit_str(d: u64) -> (r: &'static str)
    requires
        d < 10,
    ensures
        r@ == seq![digit_char(d as int)],
{
    proof {
        reveal_strlit("0");
        reveal_strlit("1");
        reveal_strlit("2");
        reveal_strlit("3");
        reveal_strlit("4");
        reveal_strlit("5");
        reveal_strlit("6");
        reveal_strlit("7");
        reveal_strlit("8");
        reveal_strlit("9");
    }
    let r = if d == 0 {
        "0"
    } else if d == 1 {
        "1"
    } else if d == 2 {
        "2"
    } else if d == 3 {
        "3"
    } else if d == 4 {
        "4"
    } else if d == 5 {
        "5"
    } else if d == 6 {
        "6"
    } else if d == 7 {
        "7"
    } else if d == 8 {
        "8"
    } else {
        "9"
    };
    r
}

/// Appends the digits of `n` to `out`.
fn push_digits(out: &mut String, n: u64)
    ensures
        final(out)@ == old(out)@ + digits_text(n as nat),
    decreases n,
{
    if n >= 10 {
        push_digits(out, n / 10);
    }
    out.append(digit_str(n % 10));
}

/// Writes an identifier in decimal, as [`parse_id`] reads it.
pub fn format_id(id: i64) -> (r: String)
    ensures
        r@ == decimal_text(id as int),
{
    let mut out = String::new();
    if id < 0 {
        proof {
            reveal_strlit("-");
        }
        out.append("-");
        let magnitude: u64 = if id == i64::MIN { MAGNITUDE_LIMIT } else { (-id) as u64 };
        push_digits(&mut out, magnitude);
    } else {
        push_digits(&mut out, id as u64);
    }
    out
}

/// A prefix of a digit sequence denotes no more than the whole sequence.
proof fn lemma_prefix_value(s: Seq<char>, k: int)
    requires
        all_digits(s),
        0 <= k <= s.len(),
    ensures
        0 <= digits_value(s.take(k)) <= digits_value(s),
    decreases s.len() - k,
{
    if k == s.len() {
        assert(s.take(k) == s);
        lemma_value_nonnegative(s);
    } else {
        lemma_prefix_value(s, k + 1);
        assert(s.take(k + 1).drop_last() == s.take(k));
        lemma_value_nonnegative(s.take(k));
    }
}

proof fn lemma_value_nonnegative(s: Seq<char>)
    requires
        all_digits(s),
    ensures
        0 <= digits_value(s),
    decreases s.len(),
{
    if s.len() > 0 {
        lemma_value_nonnegative(s.drop_last());
    }
}

/// The digits written for `n` are digits, and they denote `n`.
proof fn lemma_digits_text(n: nat)
    ensures
        digits_text(n).len() > 0,
        all_digits(digits_text(n)),
        digits_value(digits_text(n)) == n,
    decreases n,
{
    if n < 10 {
        assert(digits_value(digits_text(n).drop_last()) == 0);
    } else {
        lemma_digits_text(n / 10);
        assert(digits_text(n).drop_last() == digits_text(n / 10));
    }
}

/// Reading what was written gives the number back.
pub proof fn lemma_decimal_round_trip(v: int)
    ensures
        decimal_value(decimal_text(v)) == Some(v),
{
    if v < 0 {
        lemma_digits_text((-v) as nat);
        let t = decimal_text(v);
        assert(t.skip(1) == digits_text((-v) as nat));
    } else {
        lemma_digits_text(v as nat);
    }
}

/// An identifier written by [`format_id`] is read back by [`parse_id`].
pub proof fn lemma_id_round_trip(id: i64)
    ensures
        parsed_id(decimal_text(id as int)) == Some(id),
{
    lemma_decimal_round_trip(id as int);
}

} // verus!
