//! Decimal text of integers: what a timestamp field holds, and the parts of an
//! offset label.

use vstd::prelude::*;
use vstd::string::StringExecFns;

verus! {

pub open spec fn is_digit(c: char) -> bool {
    '0' <= c && c <= '9'
}

pub open spec fn digit_value(c: char) -> int {
    (c as u32) as int - ('0' as u32) as int
}

/// Value of a non-empty run of decimal digits, most significant first.
pub open spec fn digits_value(s: Seq<char>) -> int
    decreases s.len(),
{
    if s.len() == 0 {
        0
    } else {
        10 * digits_value(s.drop_last()) + digit_value(s.last())
    }
}

pub open spec fn all_digits(s: Seq<char>) -> bool {
    forall|i: int| 0 <= i < s.len() ==> is_digit(#[trigger] s[i])
}

/// An optional `+` or `-` followed by at least one digit, and nothing else.
pub open spec fn decimal_value(s: Seq<char>) -> Option<int> {
    let signed = s.len() > 0 && (s[0] == '+' || s[0] == '-');
    let body = if signed { s.subrange(1, s.len() as int) } else { s };
    if body.len() > 0 && all_digits(body) {
        if signed && s[0] == '-' {
            Some(-digits_value(body))
        } else {
            Some(digits_value(body))
        }
    } else {
        None
    }
}

/// The 64-bit signed integer that `s` spells, if any.
pub open spec fn parsed_i64(s: Seq<char>) -> Option<i64> {
    match decimal_value(s) {
        Some(v) => if i64::MIN <= v <= i64::MAX {
            Some(v as i64)
        } else {
            None
        },
        None => None,
    }
}

pub open spec fn digit_char(d: int) -> char {
    seq!['0', '1', '2', '3', '4', '5', '6', '7', '8', '9'][d]
}

/// Digits of `n` without leading zeros (`0` for zero).
pub open spec fn digits_text(n: nat) -> Seq<char>
    decreases n,
{
    if n < 10 {
        seq![digit_char(n as int)]
    } else {
        digits_text(n / 10).push(digit_char((n % 10) as int))
    }
}

/// Decimal text of `v`, with a leading `-` when negative.
pub open spec fn decimal_text(v: int) -> Seq<char> {
    if v < 0 {
        seq!['-'] + digits_text((-v) as nat)
    } else {
        digits_text(v as nat)
    }
}

/// `v` in decimal, padded with a leading zero to two digits.
pub open spec fn two_digit_text(v: int) -> Seq<char> {
    if 0 <= v < 10 {
        seq!['0'] + decimal_text(v)
    } else {
        decimal_text(v)
    }
}

/// Relies on `str::parse::<i64>`: an optional sign then decimal digits, and
/// an error when the value does not fit.
#[verifier::external_body]
pub(crate) fn parse_i64(s: &str) -> (r: Option<i64>)
    ensures
        r == parsed_i64(s@),
{
    s.parse::<i64>().ok()
}

/// The one-character text of a decimal digit.
fn digit_str(d: u64) -> (r: &'static str)
    requires
        d < 10,
    ensures
        r@ == seq![digit_char(d as int)],
{
    proof {
        reveal_strlit("0");
        reveal_strlit("1");
        reveal_strlit("2");
        reveal_strlit("3");
        reveal_strlit("4");
        reveal_strlit("5");
        reveal_strlit("6");
        reveal_strlit("7");
        reveal_strlit("8");
        reveal_strlit("9");
    }
    if d == 0 {
        "0"
    } else if d == 1 {
        "1"
    } else if d == 2 {
        "2"
    } else if d == 3 {
        "3"
    } else if d == 4 {
        "4"
    } else if d == 5 {
        "5"
    } else if d == 6 {
        "6"
    } else if d == 7 {
        "7"
    } else if d == 8 {
        "8"
    } else {
        "9"
    }
}

/// Appends the digits of `n` to `r`.
fn append_digits(r: &mut String, n: u64)
    ensures
        final(r)@ == old(r)@ + digits_text(n as nat),
    decreases n,
{
    if n >= 10 {
        append_digits(r, n / 10);
    }
    r.append(digit_str(n % 10));
    proof {
        if n >= 10 {
            assert(digits_text(n as nat) == digits_text((n / 10) as nat).push(
                digit_char((n % 10) as int),
            ));
        }
    }
    assert(r@ =~= old(r)@ + digits_text(n as nat));
}

/// Decimal text of `v`, with a leading `-` when negative.
pub fn i64_text(v: i64) -> (r: String)
    ensures
        r@ == decimal_text(v as int),
{
    let mut r = String::new();
    if v < 0 {
        r.append("-");
        proof {
            reveal_strlit("-");
        }
        let n: u64 = ((-(v + 1)) as u64) + 1;
        append_digits(&mut r, n);
        assert(r@ =~= decimal_text(v as int));
    } else {
        append_digits(&mut r, v as u64);
        assert(r@ =~= decimal_text(v as int));
    }
    r
}

/// `v` in decimal, at least two digits wide.
pub fn two_digits(v: i64) -> (r: String)
    requires
        v >= 0,
    ensures
        r@ == two_digit_text(v as int),
{
    let digits = i64_text(v);
    if v < 10 {
        let mut r = "0".to_owned();
        r.append(digits.as_str());
        proof {
            reveal_strlit("0");
        }
        r
    } else {
        digits
    }
}

} // verus!
