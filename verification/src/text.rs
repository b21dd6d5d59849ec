//! Character-level helpers: ASCII case folding and the grammar of plain decimal numerals.

use vstd::prelude::*;

verus! {

/// The ASCII lower-case form of a character: `A`..`Z` become `a`..`z`, anything else stays.
pub open spec fn ascii_lower(c: char) -> char {
    if 'A' <= c && c <= 'Z' {
        ((c as u8) + 32) as char
    } else {
        c
    }
}

/// A text with every character replaced by its ASCII lower-case form.
pub open spec fn lowercase(s: Seq<char>) -> Seq<char> {
    Seq::new(s.len(), |i: int| ascii_lower(s[i]))
}

/// Computes [`ascii_lower`].
pub fn to_ascii_lower(c: char) -> (r: char)
    ensures
        r == ascii_lower(c),
{
    if 'A' <= c && c <= 'Z' {
        ((c as u8) + 32) as char
    } else {
        c
    }
}

/// Whether `text`, lower-cased, reads exactly `token`.
pub fn reads_as(text: &str, token: &str) -> (r: bool)
    ensures
        r == (lowercase(text@) == token@),
{
    let n: usize = token.unicode_len();
    if text.unicode_len() != n {
        return false;
    }
    let mut i: usize = 0;
    while i < n
        invariant
            i <= n,
            n == token@.len(),
            n == text@.len(),
            forall|j: int| 0 <= j < i ==> ascii_lower(text@[j]) == token@[j],
        decreases n - i,
    {
        if to_ascii_lower(text.get_char(i)) != token.get_char(i) {
            assert(lowercase(text@)[i as int] != token@[i as int]);
            return false;
        }
        i += 1;
    }
    assert(lowercase(text@) =~= token@);
    true
}

/// Whether two texts are the same, character for character.
pub fn same_text(a: &str, b: &str) -> (r: bool)
    ensures
        r == (a@ == b@),
{
    let n: usize = b.unicode_len();
    if a.unicode_len() != n {
        return false;
    }
    let mut i: usize = 0;
    while i < n
        invariant
            i <= n,
            n == a@.len(),
            n == b@.len(),
            forall|j: int| 0 <= j < i ==> a@[j] == b@[j],
        decreases n - i,
    {
        if a.get_char(i) != b.get_char(i) {
            return false;
        }
        i += 1;
    }
    assert(a@ =~= b@);
    true
}

/// The ASCII code of `+`.
pub const PLUS: u8 = 43;

/// The ASCII code of `-`.
pub const MINUS: u8 = 45;

/// The ASCII code of `.`.
pub const POINT: u8 = 46;

/// The ASCII code of `0`.
pub const DIGIT_ZERO: u8 = 48;

/// The ASCII code of `9`.
pub const DIGIT_NINE: u8 = 57;

/// Whether a character is one of the ten decimal digits.
pub open spec fn is_digit(c: char) -> bool {
    '0' <= c && c <= '9'
}

/// Whether a character is a plus or a minus sign.
pub open spec fn is_sign(c: char) -> bool {
    c == '+' || c == '-'
}

/// Whether the characters of `s` from `start` on are digits with at most one decimal
/// point among them, at least one of them a digit.
pub open spec fn is_digits_and_point(s: Seq<char>, start: int) -> bool {
    &&& forall|i: int| start <= i < s.len() ==> is_digit(#[trigger] s[i]) || s[i] == '.'
    &&& forall|i: int, j: int|
        start <= i < j < s.len() ==> !(#[trigger] s[i] == '.' && #[trigger] s[j] == '.')
    &&& exists|i: int| start <= i < s.len() && is_digit(#[trigger] s[i])
}

/// The grammar of an amount: an optional single sign, `+` or `-`, then digits with at most
/// one decimal point. At least one digit is required; the point may stand first or last.
/// Nothing else is a numeral: no blank, no separator between digits, no exponent,
/// no currency symbol.
pub open spec fn is_numeral(s: Seq<char>) -> bool {
    if s.len() > 0 && is_sign(s[0]) {
        is_digits_and_point(s, 1)
    } else {
        is_digits_and_point(s, 0)
    }
}

/// Decides [`is_numeral`].
pub fn is_decimal_numeral(text: &str) -> (r: bool)
    ensures
        r == is_numeral(text@),
{
    if !text.is_ascii() {
        proof {
            let k = choose|k: int|
                0 <= k < text@.len() && !('\0' <= #[trigger] text@[k] <= '\u{7f}');
            assert(!is_digit(text@[k]) && text@[k] != '.' && !is_sign(text@[k]));
        }
        return false;
    }
    let n: usize = text.unicode_len();
    let start: usize = if n > 0 && (text.get_ascii(0) == PLUS || text.get_ascii(0) == MINUS) {
        1
    } else {
        0
    };
    assert(is_numeral(text@) == is_digits_and_point(text@, start as int));
    let mut i: usize = start;
    let mut point_seen: bool = false;
    let mut digit_seen: bool = false;
    while i < n
        invariant
            start <= i <= n,
            n == text@.len(),
            text.is_ascii(),
            is_numeral(text@) == is_digits_and_point(text@, start as int),
            forall|j: int| start <= j < i ==> is_digit(#[trigger] text@[j]) || text@[j] == '.',
            forall|j: int, k: int|
                start <= j < k < i ==> !(#[trigger] text@[j] == '.' && #[trigger] text@[k] == '.'),
            point_seen <==> exists|j: int| start <= j < i && #[trigger] text@[j] == '.',
            digit_seen <==> exists|j: int| start <= j < i && is_digit(#[trigger] text@[j]),
        decreases n - i,
    {
        let b: u8 = text.get_ascii(i);
        let ghost c = text@[i as int];
        assert('\0' <= c <= '\u{7f}');
        if DIGIT_ZERO <= b && b <= DIGIT_NINE {
            assert(is_digit(c));
            digit_seen = true;
        } else if b == POINT {
            assert(c == '.');
            if point_seen {
                return false;
            }
            point_seen = true;
        } else {
            assert(!is_digit(c) && c != '.');
            return false;
        }
        i += 1;
    }
    digit_seen
}

} // verus!
