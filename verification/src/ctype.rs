//! The C character classes that grammar scanners call, for targets whose C
//! library lacks them. Each takes a character code and answers `1` or `0`
//! (`tolower` answers a code), in the "C" locale: ASCII only.

use vstd::prelude::*;

verus! {

/// `c` is an ASCII lower-case letter.
pub open spec fn spec_is_lower(c: i32) -> bool {
    97 <= c <= 122
}

/// `c` is an ASCII upper-case letter.
pub open spec fn spec_is_upper(c: i32) -> bool {
    65 <= c <= 90
}

/// `c` is an ASCII digit.
pub open spec fn spec_is_digit(c: i32) -> bool {
    48 <= c <= 57
}

/// `1` for true, `0` for false.
pub open spec fn flag(b: bool) -> i32 {
    if b {
        1
    } else {
        0
    }
}

fn is_lower(c: i32) -> (r: bool)
    ensures
        r == spec_is_lower(c),
{
    c >= 97 && c <= 122
}

fn is_upper(c: i32) -> (r: bool)
    ensures
        r == spec_is_upper(c),
{
    c >= 65 && c <= 90
}

fn is_digit(c: i32) -> (r: bool)
    ensures
        r == spec_is_digit(c),
{
    c >= 48 && c <= 57
}

fn as_flag(b: bool) -> (r: i32)
    ensures
        r == flag(b),
{
    if b {
        1
    } else {
        0
    }
}

/// `1` for an ASCII letter, else `0`.
pub fn isalpha(c: i32) -> (r: i32)
    ensures
        r == flag(spec_is_lower(c) || spec_is_upper(c)),
{
    as_flag(is_lower(c) || is_upper(c))
}

/// `1` for an ASCII upper-case letter, else `0`.
pub fn isupper(c: i32) -> (r: i32)
    ensures
        r == flag(spec_is_upper(c)),
{
    as_flag(is_upper(c))
}

/// `1` for an ASCII hexadecimal digit (`0`-`9`, `a`-`f`, `A`-`F`), else `0`.
pub fn isxdigit(c: i32) -> (r: i32)
    ensures
        r == flag(spec_is_digit(c) || (97 <= c <= 102) || (65 <= c <= 70)),
{
    as_flag(is_digit(c) || (c >= 97 && c <= 102) || (c >= 65 && c <= 70))
}

/// `1` for ASCII white space: space, tab, line feed, carriage return, form
/// feed and vertical tab; else `0`.
pub fn isspace(c: i32) -> (r: i32)
    ensures
        r == flag(c == 32 || c == 9 || c == 10 || c == 13 || c == 12 || c == 11),
{
    as_flag(c == 32 || c == 9 || c == 10 || c == 13 || c == 0x0c || c == 0x0b)
}

/// The lower-case letter of an ASCII upper-case letter; any other code as
/// it is.
pub fn tolower(c: i32) -> (r: i32)
    ensures
        r == if spec_is_upper(c) {
            c + 32
        } else {
            c as int
        },
{
    if is_upper(c) {
        c + 32
    } else {
        c
    }
}

/// `1` for ASCII punctuation (the printable characters that are neither
/// letters, digits nor space), else `0`.
pub fn iswpunct(wc: u32) -> (r: i32)
    ensures
        r == flag((0x21 <= wc <= 0x2f) || (0x3a <= wc <= 0x40) || (0x5b <= wc <= 0x60) || (0x7b
            <= wc <= 0x7e)),
{
    as_flag(
        (wc >= 0x21 && wc <= 0x2f) || (wc >= 0x3a && wc <= 0x40) || (wc >= 0x5b && wc <= 0x60) || (
        wc >= 0x7b && wc <= 0x7e),
    )
}

} // verus!
