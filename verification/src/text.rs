//! Case-insensitive string matching and digit-string parsing: the two pieces
//! of plain text machinery that the option decoders and the boundary
//! validation are built on.

use vstd::prelude::*;
use vstd::string::StrSliceExecFns;

verus! {

/// Lower-cased Unicode code point of a character, folding only the ASCII
/// uppercase letters; the basis of all case-insensitive matching here.
pub open spec fn lower_code(c: char) -> int {
    if 65 <= c as u32 && c as u32 <= 90 {
        c as u32 + 32
    } else {
        c as u32 as int
    }
}

/// Two characters are equal up to ASCII case.
pub open spec fn char_eq_ci(a: char, b: char) -> bool {
    lower_code(a) == lower_code(b)
}

/// Two strings are equal up to ASCII case, character by character.
pub open spec fn str_eq_ci(s: Seq<char>, t: Seq<char>) -> bool {
    &&& s.len() == t.len()
    &&& forall|i: int| 0 <= i < s.len() ==> char_eq_ci(s[i], t[i])
}

/// Case-insensitive equality of two characters, decided on their code points.
pub fn char_matches_ci(a: char, b: char) -> (r: bool)
    ensures
        r == char_eq_ci(a, b),
{
    let x = a as u32;
    let y = b as u32;
    let xl: u32 = if 65 <= x && x <= 90 { x + 32 } else { x };
    let yl: u32 = if 65 <= y && y <= 90 { y + 32 } else { y };
    xl == yl
}

/// Case-insensitive equality of two strings, the executable side of
/// [`str_eq_ci`].
pub fn eq_ignore_case(s: &str, t: &str) -> (r: bool)
    ensures
        r == str_eq_ci(s@, t@),
{
    let n = s.unicode_len();
    if n != t.unicode_len() {
        return false;
    }
    for i in 0..n
        invariant
            n == s@.len(),
            n == t@.len(),
            forall|j: int| 0 <= j < i ==> char_eq_ci(s@[j], t@[j]),
    {
        let a = s.get_char(i);
        let b = t.get_char(i);
        if !char_matches_ci(a, b) {
            return false;
        }
    }
    true
}

/// Case-insensitive string equality carries over from one string to any
/// string that is case-insensitively equal to it.
pub proof fn lemma_str_eq_ci_congruent(s: Seq<char>, t: Seq<char>, u: Seq<char>)
    requires
        str_eq_ci(s, t),
    ensures
        str_eq_ci(s, u) == str_eq_ci(t, u),
{
}

/// ASCII upper-casing of one character: the lower-case ASCII letters move to
/// their upper-case forms, everything else stays as it is.
pub open spec fn upper_char(c: char) -> char {
    if 97 <= c as u32 && c as u32 <= 122 {
        ((c as u32 - 32) as u32) as char
    } else {
        c
    }
}

/// ASCII upper-casing of a string, character by character.
pub open spec fn ascii_uppercase(s: Seq<char>) -> Seq<char> {
    s.map_values(|c: char| upper_char(c))
}

/// Upper-casing changes nothing up to case: a string and its upper-cased form
/// are case-insensitively equal.
pub proof fn lemma_uppercase_eq_ci(s: Seq<char>)
    ensures
        str_eq_ci(ascii_uppercase(s), s),
{
    assert forall|i: int| 0 <= i < s.len() implies char_eq_ci(ascii_uppercase(s)[i], s[i]) by {
        assert(ascii_uppercase(s)[i] == upper_char(s[i]));
    }
}

/// An ASCII decimal digit.
pub open spec fn is_digit(c: char) -> bool {
    48 <= c as u32 <= 57
}

/// Numeric value of one ASCII digit.
pub open spec fn digit_val(c: char) -> int {
    c as u32 - 48
}

/// Every character of the string is an ASCII digit.
pub open spec fn all_digits(s: Seq<char>) -> bool {
    forall|i: int| 0 <= i < s.len() ==> is_digit(s[i])
}

/// The non-negative integer a digit string denotes, most significant digit
/// first.
pub open spec fn digits_value(s: Seq<char>) -> int
    decreases s.len(),
{
    if s.len() == 0 {
        0
    } else {
        digits_value(s.drop_last()) * 10 + digit_val(s.last())
    }
}

/// The text is accepted as a non-negative machine integer: at least one
/// character, digits only, and a value that fits in `usize`.
pub open spec fn valid_number_text(s: Seq<char>) -> bool {
    &&& s.len() > 0
    &&& all_digits(s)
    &&& digits_value(s) <= usize::MAX
}

/// A digit string never denotes a negative value.
pub proof fn lemma_digits_value_nonneg(s: Seq<char>)
    requires
        all_digits(s),
    ensures
        digits_value(s) >= 0,
    decreases s.len(),
{
    if s.len() > 0 {
        assert(all_digits(s.drop_last()));
        lemma_digits_value_nonneg(s.drop_last());
    }
}

/// Extending a digit string never shrinks its value: every prefix denotes at
/// most the value of the whole.
pub proof fn lemma_digits_value_prefix_le(s: Seq<char>, k: int)
    requires
        all_digits(s),
        0 <= k <= s.len(),
    ensures
        digits_value(s.take(k)) <= digits_value(s),
    decreases s.len(),
{
    if k == s.len() {
        assert(s.take(k) =~= s);
    } else {
        assert(all_digits(s.drop_last()));
        assert(s.take(k) =~= s.drop_last().take(k));
        lemma_digits_value_prefix_le(s.drop_last(), k);
        lemma_digits_value_nonneg(s.drop_last());
        assert(digit_val(s.last()) >= 0);
        assert(digits_value(s.drop_last()) * 10 >= digits_value(s.drop_last())) by (nonlinear_arith)
            requires digits_value(s.drop_last()) >= 0;
    }
}

/// Parses a non-negative decimal integer; `None` exactly on text that is
/// empty, holds a non-digit, or denotes a value too large for `usize`.
pub fn parse_number(s: &str) -> (r: Option<usize>)
    ensures
        match r {
            Some(v) => valid_number_text(s@) && v == digits_value(s@),
            None => !valid_number_text(s@),
        },
{
    let n = s.unicode_len();
    if n == 0 {
        return None;
    }
    let mut acc: usize = 0;
    for i in 0..n
        invariant
            n == s@.len(),
            all_digits(s@.take(i as int)),
            acc == digits_value(s@.take(i as int)),
    {
        let c = s.get_char(i);
        let x = c as u32;
        if x < 48 || 57 < x {
            assert(!is_digit(s@[i as int]));
            return None;
        }
        let d: usize = (x - 48) as usize;
        assert(s@.take(i + 1).drop_last() =~= s@.take(i as int));
        assert(s@.take(i + 1).last() == s@[i as int]);
        let shifted = match acc.checked_mul(10) {
            Some(m) => m.checked_add(d),
            None => None,
        };
        match shifted {
            Some(v) => {
                acc = v;
            },
            None => {
                // The prefix up to and including this digit already exceeds
                // `usize::MAX`, so either the whole string does too, or some
                // later character is not a digit; either way the text is
                // rejected.
                assert(digits_value(s@.take(i + 1)) > usize::MAX);
                proof {
                    if all_digits(s@) {
                        lemma_digits_value_prefix_le(s@, i + 1);
                    }
                }
                return None;
            },
        }
    }
    assert(s@.take(n as int) =~= s@);
    Some(acc)
}

} // verus!
