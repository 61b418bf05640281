//! Byte-level helpers on UTF-8 strings: equality, slicing on character
//! boundaries, and the boundary facts that slicing needs.

use vstd::prelude::*;
use vstd::string::*;
use vstd::utf8::*;

verus! {

broadcast use vstd::utf8::encode_utf8_valid_utf8, vstd::utf8::encode_utf8_decode_utf8;

/// The UTF-8 bytes of a string.
pub open spec fn bytes_of(s: &str) -> Seq<u8> {
    s.spec_bytes()
}

/// `index` is a character boundary of `s` (0 and the length included).
pub open spec fn boundary(s: &str, index: int) -> bool {
    is_char_boundary(s.spec_bytes(), index)
}

/// Two strings hold the same characters exactly when they hold the same bytes.
pub proof fn lemma_bytes_eq_iff_chars_eq(a: &str, b: &str)
    ensures
        (a.spec_bytes() == b.spec_bytes()) <==> (a@ == b@),
{
    if a.spec_bytes() == b.spec_bytes() {
        assert(decode_utf8(encode_utf8(a@)) == a@);
        assert(decode_utf8(encode_utf8(b@)) == b@);
    }
}

/// Compare two strings character by character.
pub fn str_eq(a: &str, b: &str) -> (r: bool)
    ensures
        r == (a@ == b@),
{
    let x = a.as_bytes();
    let y = b.as_bytes();
    proof {
        lemma_bytes_eq_iff_chars_eq(a, b);
    }
    if x.len() != y.len() {
        return false;
    }
    let mut i: usize = 0;
    while i < x.len()
        invariant
            x@ == a.spec_bytes(),
            y@ == b.spec_bytes(),
            x@.len() == y@.len(),
            0 <= i <= x@.len(),
            forall|j: int| 0 <= j < i ==> x@[j] == y@[j],
        decreases x@.len() - i,
    {
        if x[i] != y[i] {
            return false;
        }
        i = i + 1;
    }
    assert(x@ =~= y@);
    true
}

/// Inside valid UTF-8, an ASCII byte starts a character and ends one: the
/// positions before and after it are both boundaries.
pub proof fn lemma_ascii_byte_boundaries(bytes: Seq<u8>, i: int)
    requires
        valid_utf8(bytes),
        0 <= i < bytes.len(),
        bytes[i] < 0x80,
    ensures
        is_char_boundary(bytes, i),
        is_char_boundary(bytes, i + 1),
    decreases bytes.len(),
{
    is_char_boundary_iff_not_is_continuation_byte(bytes, i);
    let k = length_of_first_scalar(bytes);
    let rest = pop_first_scalar(bytes);
    reveal_with_fuel(is_char_boundary, 2);
    if i == 0 {
        assert(is_leading_byte_width_1(bytes[0]));
        assert(k == 1);
        is_char_boundary_start_end_of_seq(rest);
    } else {
        lemma_boundary_after_first_scalar(bytes, i);
        lemma_ascii_byte_boundaries(rest, i - k);
        assert(rest[i - k] == bytes[i]);
    }
}

/// A boundary past the start lies at or after the end of the first character.
proof fn lemma_boundary_after_first_scalar(bytes: Seq<u8>, i: int)
    requires
        valid_utf8(bytes),
        0 < i < bytes.len(),
        is_char_boundary(bytes, i),
    ensures
        i >= length_of_first_scalar(bytes),
        valid_utf8(pop_first_scalar(bytes)),
        pop_first_scalar(bytes).len() == bytes.len() - length_of_first_scalar(bytes),
        forall|j: int|
            0 <= j < pop_first_scalar(bytes).len() ==> #[trigger] pop_first_scalar(bytes)[j]
                == bytes[j + length_of_first_scalar(bytes)],
        is_char_boundary(pop_first_scalar(bytes), i - length_of_first_scalar(bytes)),
{
    reveal_with_fuel(is_char_boundary, 2);
    reveal_with_fuel(valid_utf8, 2);
}

/// A boundary of a string stays a boundary of any suffix that starts at a
/// boundary.
pub proof fn lemma_boundary_in_suffix(bytes: Seq<u8>, lo: int, p: int)
    requires
        valid_utf8(bytes),
        is_char_boundary(bytes, lo),
        is_char_boundary(bytes, p),
        0 <= lo <= p <= bytes.len(),
    ensures
        valid_utf8(bytes.subrange(lo, bytes.len() as int)),
        is_char_boundary(bytes.subrange(lo, bytes.len() as int), p - lo),
{
    valid_utf8_split(bytes, lo);
    let rest = bytes.subrange(lo, bytes.len() as int);
    if p == bytes.len() {
        is_char_boundary_start_end_of_seq(rest);
    } else {
        is_char_boundary_iff_not_is_continuation_byte(bytes, p);
        is_char_boundary_iff_not_is_continuation_byte(rest, p - lo);
        assert(rest[p - lo] == bytes[p]);
    }
}

/// A boundary of a string stays a boundary of any prefix that ends at or
/// after it, provided the prefix itself ends at a boundary.
pub proof fn lemma_boundary_in_prefix(bytes: Seq<u8>, hi: int, p: int)
    requires
        valid_utf8(bytes),
        is_char_boundary(bytes, hi),
        is_char_boundary(bytes, p),
        0 <= p <= hi <= bytes.len(),
    ensures
        valid_utf8(bytes.subrange(0, hi)),
        is_char_boundary(bytes.subrange(0, hi), p),
{
    valid_utf8_split(bytes, hi);
    let pre = bytes.subrange(0, hi);
    if p == hi {
        is_char_boundary_start_end_of_seq(pre);
    } else {
        is_char_boundary_iff_not_is_continuation_byte(bytes, p);
        is_char_boundary_iff_not_is_continuation_byte(pre, p);
    }
}

/// The bytes of `s` between two boundaries, as a string borrowed from `s`.
pub fn substr<'a>(s: &'a str, lo: usize, hi: usize) -> (r: &'a str)
    requires
        lo <= hi <= s.spec_bytes().len(),
        is_char_boundary(s.spec_bytes(), lo as int),
        is_char_boundary(s.spec_bytes(), hi as int),
    ensures
        r.spec_bytes() == s.spec_bytes().subrange(lo as int, hi as int),
{
    proof {
        lemma_boundary_in_suffix(s.spec_bytes(), lo as int, hi as int);
    }
    let (_, tail) = s.split_at(lo);
    let (mid, _) = tail.split_at(hi - lo);
    proof {
        assert(mid.spec_bytes() =~= s.spec_bytes().subrange(lo as int, hi as int));
    }
    mid
}

/// Every string's bytes are valid UTF-8, and its ends are boundaries.
pub proof fn lemma_str_valid(s: &str)
    ensures
        valid_utf8(s.spec_bytes()),
        is_char_boundary(s.spec_bytes(), 0),
        is_char_boundary(s.spec_bytes(), s.spec_bytes().len() as int),
{
    is_char_boundary_start_end_of_seq(s.spec_bytes());
}

/// `s` without its leading `/`, when it starts with one.
pub fn strip_leading_slash(s: &str) -> (r: Option<&str>)
    ensures
        match r {
            Some(rest) => s@.len() > 0 && s@[0] == '/' && rest@ == s@.drop_first(),
            None => !(s@.len() > 0 && s@[0] == '/'),
        },
{
    let n = s.unicode_len();
    if n > 0 && s.get_char(0) == '/' {
        let rest = s.substring_char(1, n);
        assert(rest@ =~= s@.drop_first());
        Some(rest)
    } else {
        None
    }
}

} // verus!
