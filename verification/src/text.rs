//! Text: the order of strings, and integers written in decimal.

use vstd::prelude::*;

verus! {

/// The order of two texts: the first place where they differ decides, by the
/// code points of the characters there; a proper prefix comes first.
pub open spec fn text_below(a: Seq<char>, b: Seq<char>) -> bool
    decreases a.len(),
{
    if b.len() == 0 {
        false
    } else if a.len() == 0 {
        true
    } else if a[0] != b[0] {
        (a[0] as int) < (b[0] as int)
    } else {
        text_below(a.skip(1), b.skip(1))
    }
}

/// The value of a decimal digit, or `None` for any other character.
pub open spec fn digit_value(c: char) -> Option<int> {
    if '0' <= c <= '9' {
        Some(c as int - '0' as int)
    } else {
        None
    }
}

/// The character that writes a digit below ten.
pub open spec fn digit_char(d: int) -> char {
    if d == 0 {
        '0'
    } else if d == 1 {
        '1'
    } else if d == 2 {
        '2'
    } else if d == 3 {
        '3'
    } else if d == 4 {
        '4'
    } else if d == 5 {
        '5'
    } else if d == 6 {
        '6'
    } else if d == 7 {
        '7'
    } else if d == 8 {
        '8'
    } else {
        '9'
    }
}

/// A natural number in decimal, without leading zeros.
pub open spec fn decimal_digits(n: nat) -> Seq<char>
    decreases n,
{
    if n < 10 {
        seq![digit_char(n as int)]
    } else {
        decimal_digits(n / 10).push(digit_char((n % 10) as int))
    }
}

/// An integer in decimal: a minus sign before the digits of a negative number.
pub open spec fn decimal(i: int) -> Seq<char> {
    if i < 0 {
        seq!['-'] + decimal_digits((-i) as nat)
    } else {
        decimal_digits(i as nat)
    }
}

/// Whether every character is a decimal digit.
pub open spec fn all_digits(s: Seq<char>) -> bool {
    forall|i: int| 0 <= i < s.len() ==> (#[trigger] digit_value(s[i])) is Some
}

/// The number that a row of decimal digits writes.
pub open spec fn digits_value(s: Seq<char>) -> int
    decreases s.len(),
{
    if s.len() == 0 {
        0
    } else {
        digits_value(s.drop_last()) * 10 + digit_value(s.last()).unwrap_or(0)
    }
}

/// The integer that a text writes: an optional `+` or `-`, then one digit or more,
/// and a value that a 64-bit signed integer holds.
pub open spec fn parsed_int(s: Seq<char>) -> Option<i64> {
    let signed = s.len() > 0 && (s[0] == '-' || s[0] == '+');
    let digits = if signed {
        s.skip(1)
    } else {
        s
    };
    let value = if signed && s[0] == '-' {
        -digits_value(digits)
    } else {
        digits_value(digits)
    };
    if digits.len() > 0 && all_digits(digits) && i64::MIN <= value <= i64::MAX {
        Some(value as i64)
    } else {
        None
    }
}

/// `a < b` on `str`, taken on trust. The standard library orders strings
/// lexicographically by their bytes, which orders them by their code points: the
/// result is claimed to be [`text_below`] of the two texts.
#[verifier::external_body]
pub(crate) fn is_text_below(a: &str, b: &str) -> (r: bool)
    ensures
        r == text_below(a@, b@),
{
    a < b
}

/// `i64::to_string`, taken on trust: the text is claimed to be the integer in decimal,
/// without leading zeros, after a minus sign if it is negative.
#[verifier::external_body]
pub(crate) fn int_to_text(i: i64) -> (r: String)
    ensures
        r@ == decimal(i as int),
{
    i.to_string()
}

/// `str::parse::<i64>`, taken on trust: it is claimed to succeed on an optional `+` or
/// `-` followed by one decimal digit or more whose value fits, with that value, and to
/// fail on every other text.
#[verifier::external_body]
pub(crate) fn text_to_int(s: &str) -> (r: Option<i64>)
    ensures
        r == parsed_int(s@),
{
    s.parse::<i64>().ok()
}

/// No text is below itself.
pub proof fn lemma_text_below_irreflexive(a: Seq<char>)
    ensures
        !text_below(a, a),
    decreases a.len(),
{
    if a.len() > 0 {
        lemma_text_below_irreflexive(a.skip(1));
    }
}

/// Of two different texts exactly one is below the other.
pub proof fn lemma_text_below_total(a: Seq<char>, b: Seq<char>)
    ensures
        a != b ==> (text_below(a, b) || text_below(b, a)),
        !(text_below(a, b) && text_below(b, a)),
    decreases a.len(),
{
    if a.len() > 0 && b.len() > 0 {
        if a[0] == b[0] {
            lemma_text_below_total(a.skip(1), b.skip(1));
            if a.skip(1) == b.skip(1) {
                assert(a =~= seq![a[0]] + a.skip(1));
                assert(b =~= seq![b[0]] + b.skip(1));
            }
        }
    } else if a.len() == 0 && b.len() == 0 {
        assert(a =~= b);
    }
}

/// The order of texts is transitive.
pub proof fn lemma_text_below_transitive(a: Seq<char>, b: Seq<char>, c: Seq<char>)
    requires
        text_below(a, b),
        text_below(b, c),
    ensures
        text_below(a, c),
    decreases a.len(),
{
    if a.len() > 0 {
        if a[0] == b[0] && b[0] == c[0] {
            lemma_text_below_transitive(a.skip(1), b.skip(1), c.skip(1));
        }
    }
}

} // verus!
