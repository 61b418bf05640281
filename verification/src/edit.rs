//! Byte-range edits between two versions of a source, as incremental
//! highlighting needs them.

use vstd::prelude::*;
use vstd::string::*;
use vstd::utf8::*;

verus! {

broadcast use vstd::string::group_string_axioms;

/// The number of UTF-16 code units a character takes.
pub open spec fn utf16_width(c: char) -> int {
    if c as u32 >= 0x10000 {
        2
    } else {
        1
    }
}

/// The number of UTF-16 code units a character sequence takes.
pub open spec fn utf16_len(chars: Seq<char>) -> int
    decreases chars.len(),
{
    if chars.len() == 0 {
        0
    } else {
        utf16_len(chars.drop_last()) + utf16_width(chars.last())
    }
}

/// The byte offset in `value` of the UTF-16 offset `offset`: the UTF-8
/// length of the first characters whose UTF-16 length is `offset`, or
/// `None` when no prefix has that UTF-16 length (the offset splits a
/// surrogate pair or lies past the end).
pub open spec fn utf16_to_byte(value: Seq<char>, offset: int) -> Option<int> {
    if offset == 0 {
        Some(0)
    } else if exists|k: int| 0 <= k <= value.len() && utf16_len(value.take(k)) == offset {
        let k = choose|k: int| 0 <= k <= value.len() && utf16_len(value.take(k)) == offset;
        Some(encode_utf8(value.take(k)).len() as int)
    } else {
        None
    }
}

fn char_utf8_width(c: char) -> (r: usize)
    ensures
        r == encode_scalar(c as u32).len(),
{
    let u = c as u32;
    if u < 0x80 {
        1
    } else if u < 0x800 {
        2
    } else if u < 0x10000 {
        proof {
            char_is_scalar(c);
        }
        3
    } else {
        4
    }
}

proof fn lemma_encode_utf8_push(chars: Seq<char>, c: char)
    ensures
        encode_utf8(chars.push(c)) == encode_utf8(chars) + encode_scalar(c as u32),
    decreases chars.len(),
{
    if chars.len() == 0 {
        assert(chars.push(c).drop_first() =~= Seq::<char>::empty());
        assert(encode_utf8(Seq::<char>::empty()) =~= Seq::<u8>::empty());
        assert(encode_utf8(chars.push(c)) =~= encode_scalar(c as u32));
        assert(encode_utf8(chars) + encode_scalar(c as u32) =~= encode_scalar(c as u32));
    } else {
        lemma_encode_utf8_push(chars.drop_first(), c);
        assert(chars.push(c).drop_first() =~= chars.drop_first().push(c));
        assert(encode_utf8(chars.push(c)) =~= encode_scalar(chars[0] as u32) + encode_utf8(
            chars.drop_first().push(c),
        ));
    }
}

proof fn lemma_utf16_len_monotone(chars: Seq<char>, a: int, b: int)
    requires
        0 <= a < b <= chars.len(),
    ensures
        utf16_len(chars.take(a)) < utf16_len(chars.take(b)),
    decreases b - a,
{
    assert(chars.take(b).drop_last() =~= chars.take(b - 1));
    if a < b - 1 {
        lemma_utf16_len_monotone(chars, a, b - 1);
    }
}

/// Every position between two characters is found again from its UTF-16
/// offset: the offset of the first `k` characters maps to their UTF-8 length.
pub proof fn lemma_utf16_offsets_of_boundaries(value: Seq<char>, k: int)
    requires
        0 <= k <= value.len(),
    ensures
        utf16_to_byte(value, utf16_len(value.take(k))) == Some(encode_utf8(value.take(k)).len() as int),
{
    let offset = utf16_len(value.take(k));
    assert(value.take(0) =~= Seq::<char>::empty());
    if k > 0 {
        lemma_utf16_len_monotone(value, 0, k);
    }
    if offset != 0 {
        assert(0 <= k <= value.len() && utf16_len(value.take(k)) == offset);
        let w = choose|w: int| 0 <= w <= value.len() && utf16_len(value.take(w)) == offset;
        if w < k {
            lemma_utf16_len_monotone(value, w, k);
        } else if w > k {
            lemma_utf16_len_monotone(value, k, w);
        }
    }
}

/// A character takes two UTF-16 code units exactly when it takes four UTF-8
/// bytes (a scalar from U+10000 up, written as a surrogate pair); every
/// other character takes one code unit.
pub proof fn lemma_utf16_width_is_surrogate_pair(c: char)
    ensures
        utf16_width(c) == 2 <==> encode_scalar(c as u32).len() == 4,
        utf16_width(c) == 1 <==> encode_scalar(c as u32).len() < 4,
{
    char_is_scalar(c);
}

/// In a text of characters below U+10000 every character is one UTF-16 code
/// unit, so UTF-16 offset `k` is the position after the first `k`
/// characters: its byte offset is their UTF-8 length.
pub proof fn lemma_utf16_offsets_in_the_basic_plane(value: Seq<char>, k: int)
    requires
        forall|i: int| 0 <= i < value.len() ==> (#[trigger] value[i] as u32) < 0x10000,
        0 <= k <= value.len(),
    ensures
        utf16_len(value.take(k)) == k,
        utf16_to_byte(value, k) == Some(encode_utf8(value.take(k)).len() as int),
    decreases k,
{
    if k > 0 {
        lemma_utf16_offsets_in_the_basic_plane(value, k - 1);
        assert(value.take(k).drop_last() =~= value.take(k - 1));
        assert(value.take(k).last() == value[k - 1]);
    }
    lemma_utf16_offsets_of_boundaries(value, k);
}

/// Convert a UTF-16 offset into `value` (as a browser reports selection
/// offsets) into a byte offset.
pub fn utf16_offset_to_byte_offset(value: &str, offset: u32) -> (r: Option<usize>)
    ensures
        match utf16_to_byte(value@, offset as int) {
            Some(b) => r == Some(b as usize),
            None => r is None,
        },
{
    if offset == 0 {
        return Some(0);
    }
    let ghost chars = value@;
    let mut utf16: u64 = 0;
    let mut byte_offset: usize = 0;
    let mut k: usize = 0;
    let total = value.as_bytes().len();
    proof {
        assert(chars.take(0) =~= Seq::<char>::empty());
        assert(value.spec_bytes() == encode_utf8(chars));
    }
    for c in it: value.chars()
        invariant
            chars == value@,
            it.seq() == chars,
            k == it.index(),
            0 <= k <= chars.len(),
            offset > 0,
            utf16 == utf16_len(chars.take(k as int)),
            byte_offset == encode_utf8(chars.take(k as int)).len(),
            encode_utf8(chars).len() == total,
            utf16 < offset,
            k <= byte_offset,
            forall|j: int| 0 <= j <= k ==> utf16_len(chars.take(j)) < offset,
    {
        let ghost n = chars.len();
        proof {
            assert(c == chars[k as int]);
            assert(chars.take(k + 1) =~= chars.take(k as int).push(c));
            assert(chars.take(k + 1).drop_last() =~= chars.take(k as int));
            lemma_encode_utf8_push(chars.take(k as int), c);
            lemma_prefix_bytes_bound(chars, (k + 1) as int);
        }
        utf16 = utf16 + if (c as u32) >= 0x10000 { 2 } else { 1 };
        byte_offset = byte_offset + char_utf8_width(c);
        k = k + 1;
        if utf16 == offset as u64 {
            proof {
                assert(utf16_len(chars.take(k as int)) == offset);
                let w = choose|w: int| 0 <= w <= chars.len() && utf16_len(chars.take(w)) == offset;
                if w != k {
                    assert(k <= chars.len());
                    if w < k {
                        lemma_utf16_len_monotone(chars, w, k as int);
                    } else {
                        lemma_utf16_len_monotone(chars, k as int, w);
                    }
                }
            }
            return Some(byte_offset);
        }
        if utf16 > offset as u64 {
            proof {
                assert forall|w: int| 0 <= w <= chars.len() implies utf16_len(chars.take(w)) != offset by {
                    if w > k {
                        lemma_utf16_len_monotone(chars, k as int, w);
                    }
                }
            }
            return None;
        }
    }
    proof {
        assert forall|w: int| 0 <= w <= chars.len() implies utf16_len(chars.take(w)) != offset by {}
    }
    None
}

proof fn lemma_prefix_bytes_bound(chars: Seq<char>, k: int)
    requires
        0 <= k <= chars.len(),
    ensures
        encode_utf8(chars.take(k)).len() <= encode_utf8(chars).len(),
    decreases chars.len() - k,
{
    if k < chars.len() {
        lemma_prefix_bytes_bound(chars, k + 1);
        assert(chars.take(k + 1) =~= chars.take(k).push(chars[k]));
        lemma_encode_utf8_push(chars.take(k), chars[k]);
    } else {
        assert(chars.take(k) =~= chars);
    }
}

/// A byte-range edit description used to drive incremental highlighting.
/// `start_byte` and `old_end_byte` index into the source before the edit,
/// `new_end_byte` into the source after it.
#[derive(Debug, Clone, Copy, PartialEq, Eq, Structural)]
pub struct SourceEdit {
    /// First byte that changed.
    pub start_byte: usize,
    /// One past the last byte of the replaced region in the previous source.
    pub old_end_byte: usize,
    /// One past the last byte of the inserted region in the new source.
    pub new_end_byte: usize,
}

/// A row and a byte column in a text.
#[derive(Debug, Clone, Copy, PartialEq, Eq, Structural)]
pub struct Point {
    /// Zero-based line number.
    pub row: usize,
    /// Zero-based byte offset within the line.
    pub column: usize,
}

/// An edit with the rows and columns of its three offsets, as a syntax
/// tree is edited with it.
#[derive(Debug, Clone, Copy, PartialEq, Eq, Structural)]
pub struct InputEdit {
    /// First byte that changed.
    pub start_byte: usize,
    /// End of the replaced region in the previous source.
    pub old_end_byte: usize,
    /// End of the inserted region in the new source.
    pub new_end_byte: usize,
    /// Position of `start_byte` in the previous source.
    pub start_position: Point,
    /// Position of `old_end_byte` in the previous source.
    pub old_end_position: Point,
    /// Position of `new_end_byte` in the new source.
    pub new_end_position: Point,
}

/// Where the line holding the end of `prefix` starts: one past its last
/// newline, or 0.
pub open spec fn line_start(prefix: Seq<u8>) -> int
    decreases prefix.len(),
{
    if prefix.len() == 0 {
        0
    } else if prefix.last() == 10 {
        prefix.len() as int
    } else {
        line_start(prefix.drop_last())
    }
}

/// The row and column of byte `byte` of `text`.
pub open spec fn point_of(text: Seq<u8>, byte: int) -> (int, int) {
    (
        crate::highlight::newline_count(text.take(byte)) as int,
        byte - line_start(text.take(byte)),
    )
}

proof fn lemma_line_start_bound(p: Seq<u8>)
    ensures
        0 <= line_start(p) <= p.len(),
        crate::highlight::newline_count(p) <= p.len(),
    decreases p.len(),
{
    if p.len() > 0 {
        lemma_line_start_bound(p.drop_last());
    }
}

/// The row and column of a byte offset: the number of newlines before it,
/// and its distance from the start of its line.
pub fn byte_to_point(text: &str, byte: usize) -> (r: Point)
    requires
        byte <= text.spec_bytes().len(),
    ensures
        (r.row as int, r.column as int) == point_of(text.spec_bytes(), byte as int),
{
    let bytes = text.as_bytes();
    let ghost tb = text.spec_bytes();
    let mut row: usize = 0;
    let mut start: usize = 0;
    let mut i: usize = 0;
    assert(tb.take(0) =~= Seq::<u8>::empty());
    while i < byte
        invariant
            bytes@ == tb,
            byte <= tb.len(),
            0 <= i <= byte,
            row == crate::highlight::newline_count(tb.take(i as int)),
            start == line_start(tb.take(i as int)),
            row <= i,
            start <= i,
        decreases byte - i,
    {
        assert(tb.take(i + 1).drop_last() =~= tb.take(i as int));
        assert(tb.take(i + 1).last() == bytes@[i as int]);
        if bytes[i] == 10 {
            row = row + 1;
            start = i + 1;
        }
        i = i + 1;
    }
    Point { row, column: byte - start }
}

/// The edit lies inside both sources, does not run backwards, and its
/// offsets fall on character boundaries.
pub open spec fn edit_fits(e: SourceEdit, old: Seq<u8>, new: Seq<u8>) -> bool {
    &&& e.start_byte <= e.old_end_byte
    &&& e.start_byte <= e.new_end_byte
    &&& e.old_end_byte <= old.len()
    &&& e.new_end_byte <= new.len()
    &&& is_char_boundary(old, e.start_byte as int)
    &&& is_char_boundary(old, e.old_end_byte as int)
    &&& is_char_boundary(new, e.new_end_byte as int)
}

/// The positions of a point.
pub open spec fn point_view(p: Point) -> (int, int) {
    (p.row as int, p.column as int)
}

impl SourceEdit {
    /// The edit with the rows and columns of its offsets, or `None` when it
    /// does not fit the two sources.
    pub fn into_input_edit(self, old_source: &str, new_source: &str) -> (r: Option<InputEdit>)
        ensures
            r is Some <==> edit_fits(self, old_source.spec_bytes(), new_source.spec_bytes()),
            r matches Some(ie) ==> {
                &&& ie.start_byte == self.start_byte
                &&& ie.old_end_byte == self.old_end_byte
                &&& ie.new_end_byte == self.new_end_byte
                &&& point_view(ie.start_position) == point_of(
                    old_source.spec_bytes(),
                    self.start_byte as int,
                )
                &&& point_view(ie.old_end_position) == point_of(
                    old_source.spec_bytes(),
                    self.old_end_byte as int,
                )
                &&& point_view(ie.new_end_position) == point_of(
                    new_source.spec_bytes(),
                    self.new_end_byte as int,
                )
            },
    {
        let old_len = old_source.as_bytes().len();
        let new_len = new_source.as_bytes().len();
        if self.start_byte > self.old_end_byte || self.start_byte > self.new_end_byte
            || self.old_end_byte > old_len || self.new_end_byte > new_len
            || !old_source.is_char_boundary(self.start_byte) || !old_source.is_char_boundary(
            self.old_end_byte,
        ) || !new_source.is_char_boundary(self.new_end_byte) {
            return None;
        }
        Some(
            InputEdit {
                start_byte: self.start_byte,
                old_end_byte: self.old_end_byte,
                new_end_byte: self.new_end_byte,
                start_position: byte_to_point(old_source, self.start_byte),
                old_end_position: byte_to_point(old_source, self.old_end_byte),
                new_end_position: byte_to_point(new_source, self.new_end_byte),
            },
        )
    }
}

/// The length of the longest common prefix of two byte strings.
pub open spec fn common_prefix_len(a: Seq<u8>, b: Seq<u8>) -> int
    decreases a.len(),
{
    if a.len() == 0 || b.len() == 0 || a[0] != b[0] {
        0
    } else {
        1 + common_prefix_len(a.drop_first(), b.drop_first())
    }
}

/// The greatest position at or below `k` that is a character boundary of
/// both strings.
pub open spec fn shared_boundary_below(a: Seq<u8>, b: Seq<u8>, k: int) -> int
    decreases k,
{
    if k <= 0 {
        0
    } else if is_char_boundary(a, k) && is_char_boundary(b, k) {
        k
    } else {
        shared_boundary_below(a, b, k - 1)
    }
}

/// The length of the longest common suffix of two byte strings that leaves
/// their first `s` bytes alone.
pub open spec fn common_suffix_len(a: Seq<u8>, b: Seq<u8>, s: int) -> int
    decreases a.len(),
{
    if a.len() == 0 || b.len() == 0 || a.len() <= s || b.len() <= s || a.last() != b.last() {
        0
    } else {
        1 + common_suffix_len(a.drop_last(), b.drop_last(), s)
    }
}

/// The least position at or above `e` that is a character boundary of `a`
/// or its end.
pub open spec fn boundary_above(a: Seq<u8>, e: int) -> int
    decreases a.len() - e,
{
    if e >= a.len() || is_char_boundary(a, e) {
        e
    } else {
        boundary_above(a, e + 1)
    }
}

/// The edit that turns `old` into `new`: the common prefix, backed off to a
/// shared character boundary, is kept; so is the common suffix after it,
/// with each end moved forward to a character boundary. `None` when the two
/// are equal.
pub open spec fn diff_spec(old: Seq<u8>, new: Seq<u8>) -> Option<SourceEdit> {
    if old == new {
        None
    } else {
        let s = shared_boundary_below(old, new, common_prefix_len(old, new));
        let t = common_suffix_len(old, new, s);
        Some(
            SourceEdit {
                start_byte: s as usize,
                old_end_byte: boundary_above(old, old.len() - t) as usize,
                new_end_byte: boundary_above(new, new.len() - t) as usize,
            },
        )
    }
}

/// The edit between two versions of a text, found by trimming their common
/// prefix and suffix; `None` when they are equal.
pub fn source_edit_from_diff(old: &str, new: &str) -> (r: Option<SourceEdit>)
    ensures
        r == diff_spec(old.spec_bytes(), new.spec_bytes()),
{
    let a = old.as_bytes();
    let b = new.as_bytes();
    let ghost sa = old.spec_bytes();
    let ghost sb = new.spec_bytes();
    proof {
        crate::text::lemma_bytes_eq_iff_chars_eq(old, new);
    }
    if crate::text::str_eq(old, new) {
        return None;
    }
    let shared = if a.len() < b.len() { a.len() } else { b.len() };
    let mut start: usize = 0;
    assert(sa.skip(0) =~= sa);
    assert(sb.skip(0) =~= sb);
    while start < shared && a[start] == b[start]
        invariant
            a@ == sa,
            b@ == sb,
            shared <= sa.len(),
            shared <= sb.len(),
            (shared == sa.len() || shared == sb.len()),
            0 <= start <= shared,
            common_prefix_len(sa, sb) == start + common_prefix_len(sa.skip(start as int), sb.skip(start as int)),
        decreases shared - start,
    {
        assert(sa.skip(start as int).drop_first() =~= sa.skip(start + 1));
        assert(sb.skip(start as int).drop_first() =~= sb.skip(start + 1));
        start = start + 1;
    }
    proof {
        if start < shared {
            assert(sa.skip(start as int)[0] != sb.skip(start as int)[0]);
        }
        assert(common_prefix_len(sa.skip(start as int), sb.skip(start as int)) == 0);
    }
    let ghost k = start as int;
    while start > 0 && (!old.is_char_boundary(start) || !new.is_char_boundary(start))
        invariant
            sa == old.spec_bytes(),
            sb == new.spec_bytes(),
            0 <= start <= k,
            shared_boundary_below(sa, sb, k) == shared_boundary_below(sa, sb, start as int),
        decreases start,
    {
        start = start - 1;
    }
    let mut old_end = a.len();
    let mut new_end = b.len();
    assert(sa.take(old_end as int) =~= sa);
    assert(sb.take(new_end as int) =~= sb);
    while old_end > start && new_end > start && a[old_end - 1] == b[new_end - 1]
        invariant
            a@ == sa,
            b@ == sb,
            start <= old_end <= sa.len(),
            start <= new_end <= sb.len(),
            sa.len() - old_end == sb.len() - new_end,
            common_suffix_len(sa, sb, start as int) == (sa.len() - old_end) + common_suffix_len(
                sa.take(old_end as int),
                sb.take(new_end as int),
                start as int,
            ),
        decreases old_end,
    {
        assert(sa.take(old_end as int).drop_last() =~= sa.take(old_end - 1));
        assert(sb.take(new_end as int).drop_last() =~= sb.take(new_end - 1));
        old_end = old_end - 1;
        new_end = new_end - 1;
    }
    let ghost t = sa.len() - old_end;
    while old_end < a.len() && !old.is_char_boundary(old_end)
        invariant
            a@ == sa,
            sa == old.spec_bytes(),
            old_end <= sa.len(),
            boundary_above(sa, sa.len() - t) == boundary_above(sa, old_end as int),
        decreases sa.len() - old_end,
    {
        old_end = old_end + 1;
    }
    while new_end < b.len() && !new.is_char_boundary(new_end)
        invariant
            b@ == sb,
            sb == new.spec_bytes(),
            new_end <= sb.len(),
            boundary_above(sb, sb.len() - t) == boundary_above(sb, new_end as int),
        decreases sb.len() - new_end,
    {
        new_end = new_end + 1;
    }
    Some(SourceEdit { start_byte: start, old_end_byte: old_end, new_end_byte: new_end })
}

proof fn lemma_common_prefix(a: Seq<u8>, b: Seq<u8>)
    ensures
        0 <= common_prefix_len(a, b) <= a.len(),
        common_prefix_len(a, b) <= b.len(),
        a.take(common_prefix_len(a, b)) == b.take(common_prefix_len(a, b)),
    decreases a.len(),
{
    if !(a.len() == 0 || b.len() == 0 || a[0] != b[0]) {
        lemma_common_prefix(a.drop_first(), b.drop_first());
        let c = common_prefix_len(a, b);
        assert(a.take(c) =~= seq![a[0]] + a.drop_first().take(c - 1));
        assert(b.take(c) =~= seq![b[0]] + b.drop_first().take(c - 1));
    } else {
        assert(a.take(0) =~= b.take(0));
    }
}

proof fn lemma_shared_boundary_below(a: Seq<u8>, b: Seq<u8>, k: int)
    requires
        valid_utf8(a),
        valid_utf8(b),
        0 <= k,
    ensures
        0 <= shared_boundary_below(a, b, k) <= k,
        is_char_boundary(a, shared_boundary_below(a, b, k)),
        is_char_boundary(b, shared_boundary_below(a, b, k)),
    decreases k,
{
    reveal_with_fuel(is_char_boundary, 1);
    if k > 0 && !(is_char_boundary(a, k) && is_char_boundary(b, k)) {
        lemma_shared_boundary_below(a, b, k - 1);
    }
}

proof fn lemma_common_suffix(a: Seq<u8>, b: Seq<u8>, s: int)
    requires
        0 <= s <= a.len(),
        s <= b.len(),
    ensures
        0 <= common_suffix_len(a, b, s) <= a.len() - s,
        common_suffix_len(a, b, s) <= b.len() - s,
        a.skip(a.len() - common_suffix_len(a, b, s)) == b.skip(b.len() - common_suffix_len(a, b, s)),
    decreases a.len(),
{
    let t = common_suffix_len(a, b, s);
    if a.len() == 0 || b.len() == 0 || a.len() <= s || b.len() <= s || a.last() != b.last() {
        assert(a.skip(a.len() as int) =~= b.skip(b.len() as int));
    } else {
        lemma_common_suffix(a.drop_last(), b.drop_last(), s);
        let ad = a.drop_last();
        let bd = b.drop_last();
        assert(a.skip(a.len() - t) =~= ad.skip(ad.len() - (t - 1)).push(a.last()));
        assert(b.skip(b.len() - t) =~= bd.skip(bd.len() - (t - 1)).push(b.last()));
    }
}

proof fn lemma_boundary_above(a: Seq<u8>, e: int)
    requires
        valid_utf8(a),
        0 <= e <= a.len(),
    ensures
        e <= boundary_above(a, e) <= a.len(),
        is_char_boundary(a, boundary_above(a, e)),
    decreases a.len() - e,
{
    if !(e >= a.len() || is_char_boundary(a, e)) {
        lemma_boundary_above(a, e + 1);
    } else if e >= a.len() {
        is_char_boundary_start_end_of_seq(a);
    }
}

proof fn lemma_boundary_above_aligned(a: Seq<u8>, b: Seq<u8>, pa: int, pb: int, i: int)
    requires
        valid_utf8(a),
        valid_utf8(b),
        0 <= pa <= a.len(),
        0 <= pb <= b.len(),
        a.skip(pa) == b.skip(pb),
        0 <= i <= a.len() - pa,
    ensures
        boundary_above(a, pa + i) - pa == boundary_above(b, pb + i) - pb,
    decreases a.len() - pa - i,
{
    assert(a.skip(pa).len() == a.len() - pa);
    assert(b.skip(pb).len() == b.len() - pb);
    if i < a.len() - pa {
        assert(a[pa + i] == a.skip(pa)[i]);
        assert(b[pb + i] == b.skip(pb)[i]);
        is_char_boundary_iff_not_is_continuation_byte(a, pa + i);
        is_char_boundary_iff_not_is_continuation_byte(b, pb + i);
        if !is_char_boundary(a, pa + i) {
            lemma_boundary_above_aligned(a, b, pa, pb, i + 1);
        }
    }
}

/// The edit found between two different texts fits them, keeps their
/// common prefix and suffix, and rebuilds the new text from the old one:
/// the new text is the old text's bytes before the edit, then the inserted
/// bytes, then the old text's bytes after the replaced region.
pub proof fn lemma_diff_rebuilds_new(old: Seq<u8>, new: Seq<u8>)
    requires
        valid_utf8(old),
        valid_utf8(new),
        old != new,
        old.len() <= usize::MAX,
        new.len() <= usize::MAX,
    ensures
        diff_spec(old, new) matches Some(e) && {
            &&& edit_fits(e, old, new)
            &&& old.take(e.start_byte as int) == new.take(e.start_byte as int)
            &&& old.skip(e.old_end_byte as int) == new.skip(e.new_end_byte as int)
            &&& new == old.take(e.start_byte as int) + new.subrange(
                e.start_byte as int,
                e.new_end_byte as int,
            ) + old.skip(e.old_end_byte as int)
        },
{
    lemma_common_prefix(old, new);
    let c = common_prefix_len(old, new);
    lemma_shared_boundary_below(old, new, c);
    let s = shared_boundary_below(old, new, c);
    assert(old.take(s) =~= old.take(c).take(s));
    assert(new.take(s) =~= new.take(c).take(s));
    lemma_common_suffix(old, new, s);
    let t = common_suffix_len(old, new, s);
    lemma_boundary_above(old, old.len() - t);
    lemma_boundary_above(new, new.len() - t);
    lemma_boundary_above_aligned(old, new, old.len() - t, new.len() - t, 0);
    let oe = boundary_above(old, old.len() - t);
    let ne = boundary_above(new, new.len() - t);
    let d = oe - (old.len() - t);
    assert(oe - (old.len() - t) == ne - (new.len() - t));
    assert(old.skip(oe) =~= old.skip(old.len() - t).skip(d));
    assert(new.skip(ne) =~= new.skip(new.len() - t).skip(d));
    assert(new =~= new.take(s) + new.subrange(s, ne) + new.skip(ne));
}

/// A byte offset from a UTF-16 offset never lies past the end of the value.
proof fn lemma_utf16_to_byte_bound(value: Seq<char>, offset: int)
    ensures
        utf16_to_byte(value, offset) matches Some(b) ==> 0 <= b <= encode_utf8(value).len(),
{
    if offset != 0 && exists|k: int| 0 <= k <= value.len() && utf16_len(value.take(k)) == offset {
        let k = choose|k: int| 0 <= k <= value.len() && utf16_len(value.take(k)) == offset;
        lemma_prefix_bytes_bound(value, k);
    }
}

/// An input type that deletes, such as `deleteContentBackward`.
pub open spec fn is_delete_input(input_type: Seq<char>) -> bool {
    input_type.len() >= 6 && input_type.take(6) == "delete"@
}

/// How many bytes an input inserts: the data's, or none for a deletion or
/// when a selection is replaced; `None` when the input says nothing of it.
pub open spec fn inserted_len(
    data: Option<Seq<char>>,
    start_byte: int,
    old_end_byte: int,
    input_type: Seq<char>,
) -> Option<int> {
    match data {
        Some(d) => Some(encode_utf8(d).len() as int),
        None => if old_end_byte > start_byte || is_delete_input(input_type) {
            Some(0)
        } else {
            None
        },
    }
}

/// The edit that a `beforeinput` event on a text area describes: the
/// selection's UTF-16 offsets into `value`, as bytes, and the inserted
/// data's length.
pub open spec fn selection_edit(
    value: Seq<char>,
    selection_start: int,
    selection_end: int,
    data: Option<Seq<char>>,
    input_type: Seq<char>,
) -> Option<(int, int, int)> {
    match (utf16_to_byte(value, selection_start), utf16_to_byte(value, selection_end)) {
        (Some(s), Some(e)) => match inserted_len(data, s, e, input_type) {
            Some(n) => Some((s, e, s + n)),
            None => None,
        },
        _ => None,
    }
}

fn starts_with_delete(input_type: &str) -> (r: bool)
    ensures
        r == is_delete_input(input_type@),
{
    if input_type.unicode_len() < 6 {
        return false;
    }
    let head = input_type.substring_char(0, 6);
    assert(head@ =~= input_type@.take(6));
    crate::text::str_eq(head, "delete")
}

/// The edit that a `beforeinput` event on a text area is about to make:
/// the selection (UTF-16 offsets, as the browser reports them) turned into
/// byte offsets of the current value, and the inserted data's length.
/// `None` when an offset does not fall between characters, or when the
/// event carries no data and neither deletes nor replaces a selection.
pub fn source_edit_from_selection(
    value: &str,
    selection_start: u32,
    selection_end: u32,
    data: Option<&str>,
    input_type: &str,
) -> (r: Option<SourceEdit>)
    requires
        data matches Some(d) ==> value.spec_bytes().len() + d.spec_bytes().len() <= usize::MAX,
    ensures
        match selection_edit(
            value@,
            selection_start as int,
            selection_end as int,
            match data {
                Some(d) => Some(d@),
                None => None::<Seq<char>>,
            },
            input_type@,
        ) {
            Some((s, e, n)) => r == Some(
                SourceEdit { start_byte: s as usize, old_end_byte: e as usize, new_end_byte: n as usize },
            ),
            None => r is None,
        },
{
    let total = value.as_bytes().len();
    proof {
        lemma_utf16_to_byte_bound(value@, selection_start as int);
        lemma_utf16_to_byte_bound(value@, selection_end as int);
        assert(total == encode_utf8(value@).len());
    }
    let start_byte = match utf16_offset_to_byte_offset(value, selection_start) {
        Some(b) => b,
        None => {
            return None;
        },
    };
    let old_end_byte = match utf16_offset_to_byte_offset(value, selection_end) {
        Some(b) => b,
        None => {
            return None;
        },
    };
    let inserted_bytes: usize = match data {
        Some(d) => d.as_bytes().len(),
        None => {
            if old_end_byte > start_byte || starts_with_delete(input_type) {
                0
            } else {
                return None;
            }
        },
    };
    Some(SourceEdit { start_byte, old_end_byte, new_end_byte: start_byte + inserted_bytes })
}

/// The edit that a `beforeinput` event on an editable element is about to
/// make, given the byte offsets of its target range in the element's text:
/// the range is replaced by the event's data, if any.
pub fn source_edit_from_target_range(
    start_byte: usize,
    old_end_byte: usize,
    data: Option<&str>,
) -> (r: SourceEdit)
    requires
        data matches Some(d) ==> start_byte + d.spec_bytes().len() <= usize::MAX,
    ensures
        r.start_byte == start_byte,
        r.old_end_byte == old_end_byte,
        r.new_end_byte == start_byte + match data {
            Some(d) => d.spec_bytes().len() as int,
            None => 0int,
        },
{
    let inserted_bytes: usize = match data {
        Some(d) => d.as_bytes().len(),
        None => 0,
    };
    SourceEdit { start_byte, old_end_byte, new_end_byte: start_byte + inserted_bytes }
}

/// An edit waiting for the render of the value it leads to.
#[derive(Debug, Clone, PartialEq, Eq)]
struct PendingSourceEdit {
    edit: SourceEdit,
    new_value: String,
}

/// Tracks the value last rendered and the latest input, and hands the next
/// render the edit between them.
#[derive(Debug)]
pub struct InputEditTracker {
    rendered_value: String,
    latest_value: String,
    pending: Option<PendingSourceEdit>,
}

/// The UTF-8 bytes of a character sequence.
pub open spec fn utf8(s: Seq<char>) -> Seq<u8> {
    encode_utf8(s)
}

impl InputEditTracker {
    /// The value last rendered.
    pub closed spec fn spec_rendered(&self) -> Seq<char> {
        self.rendered_value@
    }

    /// The latest input value.
    pub closed spec fn spec_latest(&self) -> Seq<char> {
        self.latest_value@
    }

    /// The pending edit and the value it leads to, if any.
    pub closed spec fn spec_pending(&self) -> Option<(SourceEdit, Seq<char>)> {
        match self.pending {
            Some(p) => Some((p.edit, p.new_value@)),
            None => None,
        }
    }

    /// Create a tracker with no pending edit.
    pub fn new(value: String) -> (r: Self)
        ensures
            r.spec_rendered() == value@,
            r.spec_latest() == value@,
            r.spec_pending() is None,
    {
        InputEditTracker { rendered_value: value.clone(), latest_value: value, pending: None }
    }

    /// Track a new full input value: the pending edit becomes the edit from
    /// the rendered value to it.
    pub fn input(&mut self, value: String)
        ensures
            final(self).spec_rendered() == old(self).spec_rendered(),
            final(self).spec_latest() == value@,
            final(self).spec_pending() == match diff_spec(
                utf8(old(self).spec_rendered()),
                utf8(value@),
            ) {
                Some(e) => Some((e, value@)),
                None => None,
            },
    {
        let edit = source_edit_from_diff(self.rendered_value.as_str(), value.as_str());
        self.pending = match edit {
            Some(edit) => Some(PendingSourceEdit { edit, new_value: value.clone() }),
            None => None,
        };
        self.latest_value = value;
    }

    /// Track a new full input value with the edit captured as the input
    /// happened (as a browser reports it): the capture is kept only when no
    /// input arrived since the last render.
    pub fn input_with_capture(&mut self, value: String, captured: Option<SourceEdit>)
        ensures
            final(self).spec_rendered() == old(self).spec_rendered(),
            final(self).spec_latest() == value@,
            final(self).spec_pending() == match captured {
                Some(e) => if old(self).spec_latest() == old(self).spec_rendered() {
                    Some((e, value@))
                } else {
                    None
                },
                None => None,
            },
    {
        let keep = crate::text::str_eq(self.latest_value.as_str(), self.rendered_value.as_str());
        self.pending = match captured {
            Some(edit) => if keep {
                Some(PendingSourceEdit { edit, new_value: value.clone() })
            } else {
                None
            },
            None => None,
        };
        self.latest_value = value;
    }

    /// Take the pending edit for the source about to be highlighted. Nothing
    /// changes when that source is the one already rendered; otherwise it
    /// becomes the rendered and latest value, the pending edit is dropped, and
    /// it is returned when it leads to that source.
    pub fn take_for_render(&mut self, value: &str) -> (r: Option<SourceEdit>)
        ensures
            value@ == old(self).spec_rendered() ==> r is None && *final(self) == *old(self),
            value@ != old(self).spec_rendered() ==> {
                &&& final(self).spec_rendered() == value@
                &&& final(self).spec_latest() == value@
                &&& final(self).spec_pending() is None
                &&& r == match old(self).spec_pending() {
                    Some((e, v)) => if v == value@ {
                        Some(e)
                    } else {
                        None
                    },
                    None => None,
                }
            },
    {
        if crate::text::str_eq(value, self.rendered_value.as_str()) {
            return None;
        }
        let edit = match self.pending.take() {
            Some(pending) => if crate::text::str_eq(pending.new_value.as_str(), value) {
                Some(pending.edit)
            } else {
                None
            },
            None => None,
        };
        self.rendered_value = value.to_owned();
        self.latest_value = value.to_owned();
        edit
    }
}

} // verus!
