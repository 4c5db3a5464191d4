//! Decimal text of an `i64`: what a string parses to, and how a value is
//! written.

use vstd::prelude::*;

verus! {

/// Whether `c` is one of the ten ASCII decimal digits.
pub open spec fn is_digit(c: char) -> bool {
    '0' <= c && c <= '9'
}

/// The number that the digit `c` stands for.
pub open spec fn digit_value(c: char) -> int {
    c as int - '0' as int
}

/// Whether every character of `s` is a decimal digit.
pub open spec fn all_digits(s: Seq<char>) -> bool {
    forall|i: int| 0 <= i < s.len() ==> is_digit(#[trigger] s[i])
}

/// The number that a run of digits writes, most significant digit first.
pub open spec fn digits_value(s: Seq<char>) -> int
    decreases s.len(),
{
    if s.len() == 0 {
        0
    } else {
        digits_value(s.drop_last()) * 10 + digit_value(s.last())
    }
}

/// Whether `s` begins with a sign.
pub open spec fn has_sign(s: Seq<char>) -> bool {
    s.len() > 0 && (s[0] == '-' || s[0] == '+')
}

/// The digits of `s`: all of it but a leading sign.
pub open spec fn unsigned_part(s: Seq<char>) -> Seq<char> {
    if has_sign(s) {
        s.subrange(1, s.len() as int)
    } else {
        s
    }
}

/// The number that `s` writes, before any bound is applied: the value of its
/// digits, negated under a leading `-`.
pub open spec fn signed_value(s: Seq<char>) -> int {
    if s.len() > 0 && s[0] == '-' {
        -digits_value(unsigned_part(s))
    } else {
        digits_value(unsigned_part(s))
    }
}

/// What a string parses to as an `i64`: an optional `+` or `-`, then one or
/// more decimal digits and nothing else, the number being one an `i64` holds.
pub open spec fn parsed(s: Seq<char>) -> Option<i64> {
    if unsigned_part(s).len() > 0 && all_digits(unsigned_part(s)) && i64::MIN <= signed_value(s)
        <= i64::MAX {
        Some(signed_value(s) as i64)
    } else {
        None
    }
}

/// The character that writes the digit `d`.
pub open spec fn digit_char(d: int) -> char {
    if d == 0 {
        '0'
    } else if d == 1 {
        '1'
    } else if d == 2 {
        '2'
    } else if d == 3 {
        '3'
    } else if d == 4 {
        '4'
    } else if d == 5 {
        '5'
    } else if d == 6 {
        '6'
    } else if d == 7 {
        '7'
    } else if d == 8 {
        '8'
    } else {
        '9'
    }
}

/// The digits of `n`, without leading zeros; a single `0` for zero.
pub open spec fn digits_text(n: nat) -> Seq<char>
    decreases n,
{
    if n < 10 {
        seq![digit_char(n as int)]
    } else {
        digits_text(n / 10).push(digit_char((n % 10) as int))
    }
}

/// How `v` is written: its digits, after a `-` where it is negative.
pub open spec fn decimal_text(v: int) -> Seq<char> {
    if v < 0 {
        seq!['-'] + digits_text((-v) as nat)
    } else {
        digits_text(v as nat)
    }
}

/// Whether `c` is white space: one of the characters that Unicode gives the
/// property White_Space.
pub open spec fn is_white_space(c: char) -> bool {
    ||| '\u{9}' <= c && c <= '\u{d}'
    ||| c == ' '
    ||| c == '\u{85}'
    ||| c == '\u{a0}'
    ||| c == '\u{1680}'
    ||| '\u{2000}' <= c && c <= '\u{200a}'
    ||| c == '\u{2028}'
    ||| c == '\u{2029}'
    ||| c == '\u{202f}'
    ||| c == '\u{205f}'
    ||| c == '\u{3000}'
}

/// `s` without the white space at its start.
pub open spec fn trimmed_start(s: Seq<char>) -> Seq<char>
    decreases s.len(),
{
    if s.len() > 0 && is_white_space(s[0]) {
        trimmed_start(s.subrange(1, s.len() as int))
    } else {
        s
    }
}

/// `s` without the white space at its end.
pub open spec fn trimmed_end(s: Seq<char>) -> Seq<char>
    decreases s.len(),
{
    if s.len() > 0 && is_white_space(s.last()) {
        trimmed_end(s.drop_last())
    } else {
        s
    }
}

/// `s` without the white space at its two ends.
pub open spec fn trimmed(s: Seq<char>) -> Seq<char> {
    trimmed_end(trimmed_start(s))
}

/// `str::parse::<i64>`, its error dropped. The standard library accepts an
/// optional sign followed by decimal digits only, and refuses the empty
/// string, a sign alone, any other character and a number outside `i64`.
#[verifier::external_body]
pub(crate) fn parse(s: &str) -> (r: Option<i64>)
    ensures
        r == parsed(s@),
{
    s.parse::<i64>().ok()
}

/// `i64::to_string`: the decimal digits of the value, with a `-` in front of
/// a negative one and no other padding.
#[verifier::external_body]
pub(crate) fn to_text(v: i64) -> (r: String)
    ensures
        r@ == decimal_text(v as int),
{
    v.to_string()
}

/// `str::trim`, copied to an owned string: the text without the white space
/// at its two ends, white space being what Unicode calls White_Space.
#[verifier::external_body]
pub(crate) fn trim(s: &str) -> (r: String)
    ensures
        r@ == trimmed(s@),
{
    s.trim().to_string()
}


/// The empty string, a sign alone and a decimal point alone are no numbers.
pub proof fn lemma_bare_marks_are_no_numbers()
    ensures
        parsed(Seq::empty()) is None,
        parsed(seq!['-']) is None,
        parsed(seq!['+']) is None,
        parsed(seq!['.']) is None,
{
    assert(!is_digit(seq!['.'][0]));
}


/// A text that neither starts nor ends with white space is trimmed already.
pub proof fn lemma_bare_text_is_trimmed(s: Seq<char>)
    requires
        s.len() > 0 ==> !is_white_space(s[0]) && !is_white_space(s.last()),
    ensures
        trimmed(s) == s,
{
}

/// A text that parses as a number is trimmed already: it starts with a sign
/// or a digit and ends with a digit.
pub proof fn lemma_number_text_is_trimmed(s: Seq<char>)
    requires
        parsed(s) is Some,
    ensures
        trimmed(s) == s,
{
    let body = unsigned_part(s);
    assert(is_digit(body[body.len() - 1]));
    assert(body[body.len() - 1] == s.last());
    if !has_sign(s) {
        assert(is_digit(body[0]));
    }
    lemma_bare_text_is_trimmed(s);
}

/// The digits written for a number are digits, at least one of them, and
/// they write that number.
pub proof fn lemma_digits_text_reads_back(n: nat)
    ensures
        digits_text(n).len() > 0,
        all_digits(digits_text(n)),
        digits_value(digits_text(n)) == n,
    decreases n,
{
    let t = digits_text(n);
    if n < 10 {
        assert(t.drop_last() =~= Seq::<char>::empty());
        assert(digits_value(t.drop_last()) == 0);
        assert(t.last() == digit_char(n as int));
    } else {
        lemma_digits_text_reads_back(n / 10);
        assert(t.drop_last() =~= digits_text(n / 10));
        assert(t.last() == digit_char((n % 10) as int));
        assert forall|i: int| 0 <= i < t.len() implies is_digit(#[trigger] t[i]) by {
            if i < t.len() - 1 {
                assert(t[i] == digits_text(n / 10)[i]);
            }
        }
    }
}

/// What is written for a value parses back to that value.
pub proof fn lemma_written_value_parses_back(v: i64)
    ensures
        parsed(decimal_text(v as int)) == Some(v),
{
    let s = decimal_text(v as int);
    if v < 0 {
        let t = digits_text((-v) as nat);
        lemma_digits_text_reads_back((-v) as nat);
        assert(s[0] == '-');
        assert(s.subrange(1, s.len() as int) =~= t);
    } else {
        lemma_digits_text_reads_back(v as nat);
        assert(is_digit(s[0]));
    }
}

} // verus!
