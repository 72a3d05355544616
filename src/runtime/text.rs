//! Text conversions that the engine takes from std: decimal rendering of
//! integers and UTF-8 decoding of byte strings.
use vstd::prelude::*;
use vstd::utf8::encode_utf8;

verus! {

/// The character of a decimal digit.
pub open spec fn digit_char(d: nat) -> char {
    if d == 0 {
        '0'
    } else if d == 1 {
        '1'
    } else if d == 2 {
        '2'
    } else if d == 3 {
        '3'
    } else if d == 4 {
        '4'
    } else if d == 5 {
        '5'
    } else if d == 6 {
        '6'
    } else if d == 7 {
        '7'
    } else if d == 8 {
        '8'
    } else {
        '9'
    }
}

/// The decimal digits of `n`, without leading zeros.
pub open spec fn digits(n: nat) -> Seq<char>
    decreases n,
{
    if n < 10 {
        seq![digit_char(n)]
    } else {
        digits(n / 10).push(digit_char(n % 10))
    }
}

/// The decimal text of `x`, with a leading `-` when it is negative.
pub open spec fn decimal_text(x: int) -> Seq<char> {
    if x < 0 {
        seq!['-'] + digits((-x) as nat)
    } else {
        digits(x as nat)
    }
}

/// What UTF-8 decoding makes of `b`: the characters, or nothing when `b` is
/// not well-formed UTF-8.
pub uninterp spec fn utf8_decode(b: Seq<u8>) -> Option<Seq<char>>;

/// Relies on `i64`'s `Display` (through `ToString`): its decimal text.
#[verifier::external_body]
pub(crate) fn i64_text(v: i64) -> (r: String)
    ensures
        r@ == decimal_text(v as int),
{
    v.to_string()
}

/// Relies on `usize`'s `Display` (through `ToString`): its decimal text.
#[verifier::external_body]
pub(crate) fn usize_text(v: usize) -> (r: String)
    ensures
        r@ == decimal_text(v as int),
{
    v.to_string()
}

/// Relies on `String::from_utf8`: `Ok` exactly on well-formed UTF-8, with the
/// decoded characters; every character takes at least one byte.
#[verifier::external_body]
pub(crate) fn utf8_string(b: Vec<u8>) -> (r: Option<String>)
    ensures
        utf8_decode(b@) == match r {
            Some(s) => Some(s@),
            None => None::<Seq<char>>,
        },
        r matches Some(s) ==> s@.len() <= b@.len(),
{
    String::from_utf8(b).ok()
}

/// Whether `c` is an ASCII decimal digit.
pub open spec fn is_digit(c: char) -> bool {
    48 <= (c as u32) && (c as u32) <= 57
}

/// The number that the decimal digits `s` spell.
pub open spec fn digits_value(s: Seq<char>) -> int
    decreases s.len(),
{
    if s.len() == 0 {
        0
    } else {
        digits_value(s.drop_last()) * 10 + ((s.last() as u32) as int - 48)
    }
}

/// The integer that `s` writes in decimal: an optional `+` or `-` sign, then
/// one or more ASCII digits and nothing else.
pub open spec fn decimal_value(s: Seq<char>) -> Option<int> {
    let signed = s.len() > 0 && (s[0] == '-' || s[0] == '+');
    let body = if signed {
        s.drop_first()
    } else {
        s
    };
    if body.len() > 0 && (forall|i: int| 0 <= i < body.len() ==> is_digit(#[trigger] body[i])) {
        Some(
            if s.len() > 0 && s[0] == '-' {
                -digits_value(body)
            } else {
                digits_value(body)
            },
        )
    } else {
        None
    }
}

/// What `str::parse::<i32>` makes of `s`: its decimal value, when that fits.
pub open spec fn parsed_i32(s: Seq<char>) -> Option<i32> {
    match decimal_value(s) {
        Some(v) => if i32::MIN <= v <= i32::MAX {
            Some(v as i32)
        } else {
            None
        },
        None => None,
    }
}

/// What `str::parse::<i64>` makes of `s`: its decimal value, when that fits.
pub open spec fn parsed_i64(s: Seq<char>) -> Option<i64> {
    match decimal_value(s) {
        Some(v) => if i64::MIN <= v <= i64::MAX {
            Some(v as i64)
        } else {
            None
        },
        None => None,
    }
}

/// Relies on `i32`'s `FromStr`: an optional sign and ASCII digits whose value
/// fits, else an error.
#[verifier::external_body]
pub(crate) fn parse_i32(s: &str) -> (r: Option<i32>)
    ensures
        r == parsed_i32(s@),
{
    s.parse::<i32>().ok()
}

/// Relies on `i64`'s `FromStr`: an optional sign and ASCII digits whose value
/// fits, else an error.
#[verifier::external_body]
pub(crate) fn parse_i64(s: &str) -> (r: Option<i64>)
    ensures
        r == parsed_i64(s@),
{
    s.parse::<i64>().ok()
}

/// The bytes of ASCII text.
pub open spec fn ascii_of(s: Seq<char>) -> Seq<u8> {
    s.map_values(|c: char| c as u8)
}

/// Relies on `i64`'s `Display` (through `ToString`): the bytes of its decimal text.
#[verifier::external_body]
pub(crate) fn i64_text_bytes(v: i64) -> (r: Vec<u8>)
    ensures
        r@ == ascii_of(decimal_text(v as int)),
{
    v.to_string().into_bytes()
}

/// Whether the bytes `needle` occur in `haystack` at byte index `i`.
pub open spec fn occurs_at(haystack: Seq<u8>, needle: Seq<u8>, i: int) -> bool {
    0 <= i && i + needle.len() <= haystack.len() && haystack.subrange(i, i + needle.len())
        == needle
}

/// `r` is the first byte index where `needle` occurs in `haystack`, or
/// nothing when it occurs nowhere.
pub open spec fn first_occurrence(haystack: Seq<u8>, needle: Seq<u8>, r: Option<usize>) -> bool {
    match r {
        Some(i) => occurs_at(haystack, needle, i as int) && forall|j: int|
            0 <= j < i ==> !#[trigger] occurs_at(haystack, needle, j),
        None => forall|j: int| !#[trigger] occurs_at(haystack, needle, j),
    }
}

/// `r` is the last byte index where `needle` occurs in `haystack`, or
/// nothing when it occurs nowhere.
pub open spec fn last_occurrence(haystack: Seq<u8>, needle: Seq<u8>, r: Option<usize>) -> bool {
    match r {
        Some(i) => occurs_at(haystack, needle, i as int) && forall|j: int|
            i < j ==> !#[trigger] occurs_at(haystack, needle, j),
        None => forall|j: int| !#[trigger] occurs_at(haystack, needle, j),
    }
}

/// Relies on `str::find`: the first byte index where the needle's UTF-8
/// bytes occur in the haystack's (a match of well-formed UTF-8 always starts
/// on a character boundary).
#[verifier::external_body]
pub(crate) fn find_text(haystack: &str, needle: &str) -> (r: Option<usize>)
    ensures
        first_occurrence(encode_utf8(haystack@), encode_utf8(needle@), r),
{
    haystack.find(needle)
}

/// Relies on `str::rfind`: the last byte index where the needle's UTF-8 bytes
/// occur in the haystack's.
#[verifier::external_body]
pub(crate) fn rfind_text(haystack: &str, needle: &str) -> (r: Option<usize>)
    ensures
        last_occurrence(encode_utf8(haystack@), encode_utf8(needle@), r),
{
    haystack.rfind(needle)
}

} // verus!
