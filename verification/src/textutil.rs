//! Text helpers for the engine's log lines, status messages and search
//! filters.
//!
//! The engine works on `String` values throughout; the few pieces of text
//! processing that `vstd` gives no specification for (lowercasing, trimming,
//! substring search, decimal formatting, concatenation) are called through
//! small trusted wrappers collected here, each with the contract that the
//! standard library documents.

use vstd::prelude::*;

verus! {

/// The character sequence that `str::to_lowercase` returns for `s`.
/// The full mapping is the Unicode lowercase mapping; the contracts of this
/// crate only ever compare results of the same mapping, so the mapping itself
/// is left unspecified.
pub uninterp spec fn lower_of(s: Seq<char>) -> Seq<char>;

/// The character sequence that `str::trim` returns for `s`: `s` without its
/// leading and trailing whitespace.
pub uninterp spec fn trim_of(s: Seq<char>) -> Seq<char>;

/// `needle` occurs contiguously inside `hay`.
pub open spec fn is_substring(needle: Seq<char>, hay: Seq<char>) -> bool {
    exists|i: int|
        0 <= i && i + needle.len() <= hay.len() && #[trigger] hay.subrange(
            i,
            i + needle.len() as int,
        ) == needle
}

/// `prefix` is a prefix of `hay`.
pub open spec fn is_prefix(prefix: Seq<char>, hay: Seq<char>) -> bool {
    prefix.len() <= hay.len() && hay.subrange(0, prefix.len() as int) == prefix
}

/// The character for the decimal digit `d`.
pub open spec fn digit_char(d: int) -> char {
    if d == 0 {
        '0'
    } else if d == 1 {
        '1'
    } else if d == 2 {
        '2'
    } else if d == 3 {
        '3'
    } else if d == 4 {
        '4'
    } else if d == 5 {
        '5'
    } else if d == 6 {
        '6'
    } else if d == 7 {
        '7'
    } else if d == 8 {
        '8'
    } else {
        '9'
    }
}

/// The decimal digit sequence of `n`, most significant digit first.
pub open spec fn dec_str(n: int) -> Seq<char>
    decreases n,
{
    if n < 0 {
        Seq::empty()
    } else if n < 10 {
        seq![digit_char(n)]
    } else {
        dec_str(n / 10).push(digit_char(n % 10))
    }
}

/// Relies on `str::to_lowercase`: the result is a function of the characters
/// alone, named `lower_of`.
#[verifier::external_body]
pub fn lowercase(s: &str) -> (r: String)
    ensures
        r@ == lower_of(s@),
{
    s.to_lowercase()
}

/// Relies on `str::trim`: the result is the input without leading and
/// trailing whitespace, a function of the characters alone, named `trim_of`.
#[verifier::external_body]
pub fn trim(s: &str) -> (r: &str)
    ensures
        r@ == trim_of(s@),
{
    s.trim()
}

/// Relies on `str::contains` with a `&str` pattern: true exactly when the
/// pattern matches a sub-slice of the string.
#[verifier::external_body]
pub fn str_contains(hay: &str, needle: &str) -> (r: bool)
    ensures
        r == is_substring(needle@, hay@),
{
    hay.contains(needle)
}

/// Relies on `str::starts_with` with a `&str` pattern: true exactly when the
/// pattern matches a prefix of the string.
#[verifier::external_body]
pub fn str_starts_with(hay: &str, prefix: &str) -> (r: bool)
    ensures
        r == is_prefix(prefix@, hay@),
{
    hay.starts_with(prefix)
}

/// Relies on `str`'s `PartialEq`: equality of the character sequences.
#[verifier::external_body]
pub fn str_eq(a: &str, b: &str) -> (r: bool)
    ensures
        r == (a@ == b@),
{
    a == b
}

/// Relies on the `format!` macro: the result is the two inputs concatenated.
#[verifier::external_body]
pub fn concat2(a: &str, b: &str) -> (r: String)
    ensures
        r@ == a@ + b@,
{
    format!("{}{}", a, b)
}

/// The decimal digit sequence of `n`, with a leading `-` when negative.
pub open spec fn dec_str_signed(n: int) -> Seq<char> {
    if n < 0 {
        seq!['-'] + dec_str(-n)
    } else {
        dec_str(n)
    }
}

/// Relies on `i32`'s `Display` implementation: the decimal digits of `n`,
/// with a leading `-` when negative.
#[verifier::external_body]
pub fn fmt_i32(n: i32) -> (r: String)
    ensures
        r@ == dec_str_signed(n as int),
{
    format!("{}", n)
}

/// Relies on `u64`'s `Display` implementation: the decimal digits of `n`.
#[verifier::external_body]
pub fn fmt_u64(n: u64) -> (r: String)
    ensures
        r@ == dec_str(n as int),
{
    format!("{}", n)
}

/// Relies on `String::push`: appends the character to the end.
pub assume_specification[ String::push ](s: &mut String, ch: char)
    ensures
        final(s)@ == old(s)@.push(ch),
;

/// Relies on `String::pop`: removes and returns the last character, `None`
/// when the string is empty.
pub assume_specification[ String::pop ](s: &mut String) -> (r: Option<char>)
    ensures
        old(s)@.len() > 0 ==> r == Some(old(s)@[old(s)@.len() - 1]) && final(s)@ == old(s)@.subrange(
            0,
            old(s)@.len() - 1,
        ),
        old(s)@.len() == 0 ==> r == None::<char> && final(s)@ == old(s)@,
;

/// Relies on `String::clear`: empties the string.
pub assume_specification[ String::clear ](s: &mut String)
    ensures
        final(s)@ == Seq::<char>::empty(),
;

/// Concatenation of three strings.
pub fn concat3(a: &str, b: &str, c: &str) -> (r: String)
    ensures
        r@ == a@ + b@ + c@,
{
    let ab = concat2(a, b);
    concat2(ab.as_str(), c)
}

/// Concatenation of four strings.
pub fn concat4(a: &str, b: &str, c: &str, d: &str) -> (r: String)
    ensures
        r@ == a@ + b@ + c@ + d@,
{
    let abc = concat3(a, b, c);
    concat2(abc.as_str(), d)
}

} // verus!
