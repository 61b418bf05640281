//! Highlight spans over a source string, and the renderable segments and
//! lines they split the source into.

use vstd::prelude::*;
use vstd::string::*;
use vstd::utf8::*;
use core::ops::Range;

use crate::text::{lemma_ascii_byte_boundaries, lemma_str_valid, substr};

verus! {

/// A highlight span attached to a byte range of source text.
#[derive(Debug, Clone, Copy, PartialEq, Eq)]
pub struct HighlightSpan {
    start: u32,
    end: u32,
    tag: &'static str,
}

impl HighlightSpan {
    /// Byte offset, inclusive, where the span starts.
    pub closed spec fn spec_start(self) -> u32 {
        self.start
    }

    /// Byte offset, exclusive, where the span ends.
    pub closed spec fn spec_end(self) -> u32 {
        self.end
    }

    /// Highlight tag class suffix.
    pub closed spec fn spec_tag(self) -> &'static str {
        self.tag
    }

    /// Create a highlight span over `range`.
    pub fn new(range: Range<u32>, tag: &'static str) -> (r: Self)
        ensures
            r.spec_start() == range.start,
            r.spec_end() == range.end,
            r.spec_tag() == tag,
    {
        HighlightSpan { start: range.start, end: range.end, tag }
    }

    /// Create a highlight span from explicit byte offsets.
    pub fn from_offsets(start: u32, end: u32, tag: &'static str) -> (r: Self)
        ensures
            r.spec_start() == start,
            r.spec_end() == end,
            r.spec_tag() == tag,
    {
        HighlightSpan { start, end, tag }
    }

    /// Byte offset, inclusive, of the span's start in the source.
    pub fn start(self) -> (r: u32)
        ensures
            r == self.spec_start(),
    {
        self.start
    }

    /// Byte offset, exclusive, of the span's end in the source.
    pub fn end(self) -> (r: u32)
        ensures
            r == self.spec_end(),
    {
        self.end
    }

    /// Byte range covered by this span.
    pub fn range(self) -> (r: Range<u32>)
        ensures
            r.start == self.spec_start(),
            r.end == self.spec_end(),
    {
        self.start..self.end
    }

    /// Highlight tag class suffix, for example `"k"` for keywords.
    pub fn tag(self) -> (r: &'static str)
        ensures
            r == self.spec_tag(),
    {
        self.tag
    }

    /// Move the end of the span.
    pub(crate) fn set_end(&mut self, end: u32)
        ensures
            final(self).spec_start() == old(self).spec_start(),
            final(self).spec_end() == end,
            final(self).spec_tag() == old(self).spec_tag(),
    {
        self.end = end;
    }
}

/// A borrowed render segment with an optional highlight tag.
#[derive(Debug, Clone, Copy, PartialEq, Eq)]
pub struct HighlightSegment<'a> {
    text: &'a str,
    tag: Option<&'static str>,
}

impl<'a> HighlightSegment<'a> {
    /// The text of the segment.
    pub closed spec fn spec_text(self) -> &'a str {
        self.text
    }

    /// The highlight tag of the segment, if any.
    pub closed spec fn spec_tag(self) -> Option<&'static str> {
        self.tag
    }

    /// Create a highlighted segment.
    pub fn new(text: &'a str, tag: Option<&'static str>) -> (r: Self)
        ensures
            r.spec_text() == text,
            r.spec_tag() == tag,
    {
        HighlightSegment { text, tag }
    }

    /// The source text for this segment.
    pub fn text(self) -> (r: &'a str)
        ensures
            r == self.spec_text(),
    {
        self.text
    }

    /// Highlight tag class suffix, when this segment is highlighted.
    pub fn tag(self) -> (r: Option<&'static str>)
        ensures
            r == self.spec_tag(),
    {
        self.tag
    }
}

/// What a segment shows: its bytes and its tag.
pub open spec fn segment_content(s: HighlightSegment) -> (Seq<u8>, Option<&'static str>) {
    (s.spec_text().spec_bytes(), s.spec_tag())
}

/// A position where some span starts or ends.
pub open spec fn is_event(spans: Seq<HighlightSpan>, p: int) -> bool {
    exists|i: int|
        0 <= i < spans.len() && (spans[i].spec_start() == p || spans[i].spec_end() == p)
}

/// The smallest span start or end strictly between `lo` and `hi`, or `hi`
/// when there is none.
pub open spec fn next_bound(spans: Seq<HighlightSpan>, lo: int, hi: int) -> int
    decreases spans.len(),
{
    if spans.len() == 0 {
        hi
    } else {
        let r = next_bound(spans.drop_last(), lo, hi);
        let s = spans.last();
        let r1 = if lo < s.spec_start() && s.spec_start() < r {
            s.spec_start() as int
        } else {
            r
        };
        if lo < s.spec_end() && s.spec_end() < r1 {
            s.spec_end() as int
        } else {
            r1
        }
    }
}

/// Whether a span covers the segment that ends at `limit`: it starts before
/// `limit` and ends at or after it. Segments are cut at every span offset,
/// so such a span covers every byte of the segment; an empty or reversed
/// span covers no byte, and a span that runs past the source covers the
/// source up to its end.
pub open spec fn is_open(s: HighlightSpan, limit: int) -> bool {
    s.spec_start() < limit && s.spec_end() >= limit
}

/// `a`, listed after `b`, takes precedence over it: spans are ranked by
/// start, then by decreasing end, then by their place in the list.
pub open spec fn outranks(a: HighlightSpan, b: HighlightSpan) -> bool {
    a.spec_start() > b.spec_start() || (a.spec_start() == b.spec_start() && a.spec_end()
        <= b.spec_end())
}

/// The index of the highest-ranked span that covers the segment ending at
/// `limit`.
pub open spec fn top_open(spans: Seq<HighlightSpan>, limit: int) -> Option<int>
    decreases spans.len(),
{
    if spans.len() == 0 {
        None
    } else {
        let prev = top_open(spans.drop_last(), limit);
        let j = spans.len() - 1;
        if is_open(spans[j], limit) && (prev is None || outranks(spans[j], spans[prev->0])) {
            Some(j)
        } else {
            prev
        }
    }
}

/// The tag of the segment that ends at `limit`.
pub open spec fn tag_at(spans: Seq<HighlightSpan>, limit: int) -> Option<&'static str> {
    match top_open(spans, limit) {
        Some(i) => Some(spans[i].spec_tag()),
        None => None,
    }
}

pub proof fn lemma_next_bound_range(spans: Seq<HighlightSpan>, lo: int, hi: int)
    requires
        lo < hi,
    ensures
        lo < next_bound(spans, lo, hi) <= hi,
        next_bound(spans, lo, hi) < hi ==> is_event(spans, next_bound(spans, lo, hi)),
        forall|i: int|
            #![trigger spans[i]]
            0 <= i < spans.len() ==> !(lo < spans[i].spec_start() < next_bound(spans, lo, hi))
                && !(lo < spans[i].spec_end() < next_bound(spans, lo, hi)),
    decreases spans.len(),
{
    if spans.len() > 0 {
        let d = spans.drop_last();
        lemma_next_bound_range(d, lo, hi);
        let b = next_bound(spans, lo, hi);
        if b < hi {
            if b != next_bound(d, lo, hi) {
                assert(spans[spans.len() - 1].spec_start() == b || spans[spans.len() - 1].spec_end() == b);
            } else {
                let w = choose|i: int|
                    0 <= i < d.len() && (d[i].spec_start() == b || d[i].spec_end() == b);
                assert(spans[w] == d[w]);
            }
        }
        assert forall|i: int| #![trigger spans[i]] 0 <= i < spans.len() implies !(lo < spans[i].spec_start() < b)
            && !(lo < spans[i].spec_end() < b) by {
            if i < spans.len() - 1 {
                assert(spans[i] == d[i]);
            }
        }
    }
}

/// The byte ranges and tags of the segments from `lo` to `len`.
pub open spec fn segment_ranges(spans: Seq<HighlightSpan>, len: int, lo: int) -> Seq<
    (int, int, Option<&'static str>),
>
    decreases len - lo,
{
    if lo >= len {
        seq![]
    } else {
        let b = next_bound(spans, lo, len);
        proof {
            lemma_next_bound_range(spans, lo, len);
        }
        seq![(lo, b, tag_at(spans, b))] + segment_ranges(spans, len, b)
    }
}

/// The byte ranges and tags of the segments a source of `len` bytes splits
/// into: with no spans, one untagged segment holding the whole source;
/// otherwise a segment between each two consecutive positions among 0, the
/// span offsets inside the source, and its end.
pub open spec fn segments_spec(spans: Seq<HighlightSpan>, len: int) -> Seq<
    (int, int, Option<&'static str>),
> {
    if spans.len() == 0 {
        seq![(0, len, None)]
    } else {
        segment_ranges(spans, len, 0)
    }
}

/// Two spans over the same range carry the same tag.
pub open spec fn ranges_fix_tags(spans: Seq<HighlightSpan>) -> bool {
    forall|i: int, j: int|
        #![trigger spans[i], spans[j]]
        0 <= i < spans.len() && 0 <= j < spans.len() && spans[i].spec_start() == spans[j].spec_start()
            && spans[i].spec_end() == spans[j].spec_end() ==> spans[i].spec_tag() == spans[j].spec_tag()
}

/// Two lists hold the same spans, whatever their order or repetitions.
pub open spec fn same_spans(a: Seq<HighlightSpan>, b: Seq<HighlightSpan>) -> bool {
    forall|x: HighlightSpan|
        #![trigger a.contains(x)]
        #![trigger b.contains(x)]
        a.contains(x) <==> b.contains(x)
}

/// The span `top_open` picks covers the segment and outranks every other
/// span that covers it; when it picks none, no span covers it.
proof fn lemma_top_open(spans: Seq<HighlightSpan>, limit: int)
    ensures
        top_open(spans, limit) matches Some(i) ==> {
            &&& 0 <= i < spans.len()
            &&& is_open(spans[i], limit)
            &&& forall|j: int|
                #![trigger spans[j]]
                0 <= j < spans.len() && is_open(spans[j], limit) ==> outranks(spans[i], spans[j])
        },
        top_open(spans, limit) is None ==> forall|j: int|
            #![trigger spans[j]]
            0 <= j < spans.len() ==> !is_open(spans[j], limit),
    decreases spans.len(),
{
    if spans.len() > 0 {
        let d = spans.drop_last();
        lemma_top_open(d, limit);
        assert forall|j: int| #![trigger spans[j]] 0 <= j < d.len() implies spans[j] == d[j] by {}
        match top_open(d, limit) {
            Some(p) => assert(spans[p] == d[p]),
            None => {},
        }
    }
}

/// Lists that hold the same spans put their next segment boundary at the
/// same place.
proof fn lemma_next_bound_same(a: Seq<HighlightSpan>, b: Seq<HighlightSpan>, lo: int, hi: int)
    requires
        lo < hi,
        same_spans(a, b),
    ensures
        next_bound(a, lo, hi) == next_bound(b, lo, hi),
{
    lemma_next_bound_range(a, lo, hi);
    lemma_next_bound_range(b, lo, hi);
    let x = next_bound(a, lo, hi);
    let y = next_bound(b, lo, hi);
    if x < y {
        let i = choose|i: int| 0 <= i < a.len() && (a[i].spec_start() == x || a[i].spec_end() == x);
        assert(a.contains(a[i]));
        let k = choose|k: int| 0 <= k < b.len() && b[k] == a[i];
        assert(!(lo < b[k].spec_start() < y) && !(lo < b[k].spec_end() < y));
    } else if y < x {
        let i = choose|i: int| 0 <= i < b.len() && (b[i].spec_start() == y || b[i].spec_end() == y);
        assert(b.contains(b[i]));
        let k = choose|k: int| 0 <= k < a.len() && a[k] == b[i];
        assert(!(lo < a[k].spec_start() < x) && !(lo < a[k].spec_end() < x));
    }
}

/// Lists that hold the same spans, with one tag per range, tag each segment
/// alike.
proof fn lemma_tag_at_same(a: Seq<HighlightSpan>, b: Seq<HighlightSpan>, limit: int)
    requires
        same_spans(a, b),
        ranges_fix_tags(a),
    ensures
        tag_at(a, limit) == tag_at(b, limit),
{
    lemma_top_open(a, limit);
    lemma_top_open(b, limit);
    match (top_open(a, limit), top_open(b, limit)) {
        (Some(i), Some(j)) => {
            assert(a.contains(a[i]));
            let m = choose|m: int| 0 <= m < b.len() && b[m] == a[i];
            assert(outranks(b[j], b[m]));
            assert(b.contains(b[j]));
            let k = choose|k: int| 0 <= k < a.len() && a[k] == b[j];
            assert(outranks(a[i], a[k]));
            assert(a[i].spec_tag() == a[k].spec_tag());
        },
        (Some(i), None) => {
            assert(a.contains(a[i]));
            let m = choose|m: int| 0 <= m < b.len() && b[m] == a[i];
            assert(!is_open(b[m], limit));
        },
        (None, Some(j)) => {
            assert(b.contains(b[j]));
            let k = choose|k: int| 0 <= k < a.len() && a[k] == b[j];
            assert(!is_open(a[k], limit));
        },
        (None, None) => {},
    }
}

proof fn lemma_segment_ranges_same(a: Seq<HighlightSpan>, b: Seq<HighlightSpan>, len: int, lo: int)
    requires
        same_spans(a, b),
        ranges_fix_tags(a),
    ensures
        segment_ranges(a, len, lo) == segment_ranges(b, len, lo),
    decreases len - lo,
{
    if lo < len {
        lemma_next_bound_same(a, b, lo, len);
        lemma_next_bound_range(a, lo, len);
        let x = next_bound(a, lo, len);
        lemma_tag_at_same(a, b, x);
        lemma_segment_ranges_same(a, b, len, x);
    }
}

/// Segments do not depend on the order of the spans: two lists that hold
/// the same spans, where no two spans over one range differ in their tag,
/// cut a source into the same segments with the same tags.
pub proof fn lemma_segments_ignore_span_order(a: Seq<HighlightSpan>, b: Seq<HighlightSpan>, len: int)
    requires
        same_spans(a, b),
        ranges_fix_tags(a),
    ensures
        segments_spec(a, len) == segments_spec(b, len),
{
    if a.len() == 0 && b.len() > 0 {
        assert(b.contains(b[0]));
    } else if b.len() == 0 && a.len() > 0 {
        assert(a.contains(a[0]));
    } else {
        lemma_segment_ranges_same(a, b, len, 0);
    }
}

/// Every span offset that lies inside the source (its end included) falls on
/// a character boundary, so that the source can be cut there.
pub open spec fn spans_on_boundaries(source: Seq<u8>, spans: Seq<HighlightSpan>) -> bool {
    forall|i: int|
        #![trigger spans[i]]
        0 <= i < spans.len() ==> (spans[i].spec_start() <= source.len() ==> is_char_boundary(
            source,
            spans[i].spec_start() as int,
        )) && (spans[i].spec_end() <= source.len() ==> is_char_boundary(
            source,
            spans[i].spec_end() as int,
        ))
}

/// `segs` holds the segments of `source` that `ranges` describes.
pub open spec fn segments_match(
    source: Seq<u8>,
    ranges: Seq<(int, int, Option<&'static str>)>,
    segs: Seq<HighlightSegment>,
) -> bool {
    &&& segs.len() == ranges.len()
    &&& forall|k: int|
        #![trigger segs[k]]
        0 <= k < segs.len() ==> segment_content(segs[k]) == (
            source.subrange(ranges[k].0, ranges[k].1),
            ranges[k].2,
        )
}

fn next_bound_exec(spans: &[HighlightSpan], lo: usize, hi: usize) -> (r: (usize, bool))
    requires
        lo < hi,
    ensures
        r.0 == next_bound(spans@, lo as int, hi as int),
        r.1 == is_event(spans@, r.0 as int),
{
    let mut acc = hi;
    let mut i: usize = 0;
    while i < spans.len()
        invariant
            0 <= i <= spans@.len(),
            lo < hi,
            acc == next_bound(spans@.take(i as int), lo as int, hi as int),
        decreases spans@.len() - i,
    {
        assert(spans@.take(i + 1).drop_last() =~= spans@.take(i as int));
        let s = spans[i];
        if lo < s.start as usize && (s.start as usize) < acc {
            acc = s.start as usize;
        }
        if lo < s.end as usize && (s.end as usize) < acc {
            acc = s.end as usize;
        }
        i = i + 1;
    }
    assert(spans@.take(spans@.len() as int) =~= spans@);
    let mut found = false;
    let mut j: usize = 0;
    while j < spans.len()
        invariant
            0 <= j <= spans@.len(),
            found == exists|k: int|
                0 <= k < j && (spans@[k].spec_start() == acc || spans@[k].spec_end() == acc),
        decreases spans@.len() - j,
    {
        let s = spans[j];
        if s.start as usize == acc || s.end as usize == acc {
            found = true;
        }
        j = j + 1;
    }
    (acc, found)
}

fn tag_at_exec(spans: &[HighlightSpan], limit: u64) -> (r: Option<&'static str>)
    ensures
        r == tag_at(spans@, limit as int),
{
    let mut best: Option<usize> = None;
    let mut i: usize = 0;
    while i < spans.len()
        invariant
            0 <= i <= spans@.len(),
            match best {
                Some(b) => top_open(spans@.take(i as int), limit as int) == Some(b as int),
                None => top_open(spans@.take(i as int), limit as int) is None,
            },
            forall|k: int| top_open(spans@.take(i as int), limit as int) == Some(k) ==> 0 <= k < i,
        decreases spans@.len() - i,
    {
        let ghost pre = spans@.take(i as int);
        let ghost cur = spans@.take(i + 1);
        assert(cur.drop_last() =~= pre);
        assert(cur[i as int] == spans@[i as int]);
        let s = spans[i];
        let open = (s.start as u64) < limit && (s.end as u64) >= limit;
        let take = match best {
            None => open,
            Some(b) => {
                assert(cur[b as int] == spans@[b as int]);
                open && (s.start > spans[b].start || (s.start == spans[b].start && s.end
                    <= spans[b].end))
            },
        };
        if take {
            best = Some(i);
        }
        i = i + 1;
    }
    assert(spans@.take(spans@.len() as int) =~= spans@);
    match best {
        Some(b) => Some(spans[b].tag),
        None => None,
    }
}

/// Split `source` into renderable segments, each tagged with the tag of the
/// highest-ranked span that covers it.
pub fn highlighted_segments<'a>(source: &'a str, spans: &[HighlightSpan]) -> (r: Vec<
    HighlightSegment<'a>,
>)
    requires
        spans_on_boundaries(source.spec_bytes(), spans@),
    ensures
        segments_match(source.spec_bytes(), segments_spec(spans@, source.spec_bytes().len() as int), r@),
{
    proof {
        lemma_str_valid(source);
    }
    let len = source.as_bytes().len();
    if spans.len() == 0 {
        let mut v = Vec::new();
        v.push(HighlightSegment::new(source, None));
        assert(source.spec_bytes().subrange(0, len as int) =~= source.spec_bytes());
        return v;
    }
    let ghost bytes = source.spec_bytes();
    let ghost total = segment_ranges(spans@, len as int, 0);
    let mut segments: Vec<HighlightSegment<'a>> = Vec::new();
    let mut lo: usize = 0;
    while lo < len
        invariant
            len == bytes.len(),
            bytes == source.spec_bytes(),
            valid_utf8(bytes),
            spans_on_boundaries(bytes, spans@),
            lo <= len,
            is_char_boundary(bytes, lo as int),
            is_char_boundary(bytes, len as int),
            total == segment_ranges(spans@, len as int, 0),
            segments_match(bytes, total.take(segments@.len() as int), segments@),
            total == total.take(segments@.len() as int) + segment_ranges(spans@, len as int, lo as int),
        decreases len - lo,
    {
        let (b, _) = next_bound_exec(spans, lo, len);
        proof {
            lemma_next_bound_range(spans@, lo as int, len as int);
            if b < len {
                let w = choose|i: int|
                    0 <= i < spans@.len() && (spans@[i].spec_start() == b
                        || spans@[i].spec_end() == b);
                let sw = spans@[w];
                assert(sw.spec_start() <= bytes.len() ==> is_char_boundary(bytes, sw.spec_start() as int));
                assert(sw.spec_end() <= bytes.len() ==> is_char_boundary(bytes, sw.spec_end() as int));
            }
            assert(is_char_boundary(bytes, b as int));
        }
        let limit: u64 = b as u64;
        let tag = tag_at_exec(spans, limit);
        let text = substr(source, lo, b);
        let ghost k = segments@.len() as int;
        let ghost before = segments@;
        segments.push(HighlightSegment::new(text, tag));
        proof {
            let rest = segment_ranges(spans@, len as int, lo as int);
            assert(rest[0] == (lo as int, b as int, tag_at(spans@, limit as int)));
            assert(rest == seq![rest[0]] + segment_ranges(spans@, len as int, b as int));
            assert(total.take(k + 1) =~= total.take(k).push(rest[0]));
            assert(total =~= total.take(k + 1) + segment_ranges(spans@, len as int, b as int));
            assert forall|j: int| 0 <= j < segments@.len() implies #[trigger] segment_content(segments@[j])
                == (bytes.subrange(total.take(k + 1)[j].0, total.take(k + 1)[j].1), total.take(k + 1)[j].2) by {
                if j < k {
                    assert(segments@[j] == before[j]);
                }
            }
        }
        lo = b;
    }
    proof {
        assert(segment_ranges(spans@, len as int, lo as int) =~= seq![]);
        assert(total.take(segments@.len() as int) + seq![] =~= total.take(segments@.len() as int));
    }
    segments
}

} // verus!

verus! {

/// What a line of segments shows.
pub type LineContent = Seq<(Seq<u8>, Option<&'static str>)>;

/// The index of the first newline byte in `text`, or its length.
pub open spec fn first_newline(text: Seq<u8>) -> int
    decreases text.len(),
{
    if text.len() == 0 {
        0
    } else if text[0] == 10 {
        0
    } else {
        1 + first_newline(text.drop_first())
    }
}

pub proof fn lemma_first_newline(text: Seq<u8>)
    ensures
        0 <= first_newline(text) <= text.len(),
        first_newline(text) < text.len() ==> text[first_newline(text)] == 10,
        forall|i: int| 0 <= i < first_newline(text) ==> text[i] != 10,
    decreases text.len(),
{
    if text.len() > 0 && text[0] != 10 {
        lemma_first_newline(text.drop_first());
        assert forall|i: int| 0 <= i < first_newline(text) implies text[i] != 10 by {
            if i > 0 {
                assert(text[i] == text.drop_first()[i - 1]);
            }
        }
    }
}

/// Add a piece to the last line.
pub open spec fn append_to_last_line(
    lines: Seq<LineContent>,
    piece: (Seq<u8>, Option<&'static str>),
) -> Seq<LineContent> {
    lines.update(lines.len() - 1, lines.last().push(piece))
}

/// Lay the text of one segment onto `lines`: each newline starts a new line,
/// and the non-empty pieces between newlines go, with the segment's tag, onto
/// the line they belong to.
pub open spec fn lay_text(lines: Seq<LineContent>, text: Seq<u8>, tag: Option<&'static str>) -> Seq<
    LineContent,
>
    decreases text.len(),
{
    let q = first_newline(text);
    proof {
        lemma_first_newline(text);
    }
    if q < text.len() {
        let with_before = if q > 0 {
            append_to_last_line(lines, (text.take(q), tag))
        } else {
            lines
        };
        lay_text(with_before.push(seq![]), text.skip(q + 1), tag)
    } else if text.len() > 0 {
        append_to_last_line(lines, (text, tag))
    } else {
        lines
    }
}

/// Lay the first `n` segments, starting from one empty line.
pub open spec fn lay_segments(segs: Seq<(Seq<u8>, Option<&'static str>)>, n: int) -> Seq<
    LineContent,
>
    decreases n,
{
    if n <= 0 {
        seq![seq![]]
    } else {
        lay_text(lay_segments(segs, n - 1), segs[n - 1].0, segs[n - 1].1)
    }
}

/// The content of every segment of `source` that `segments_spec` describes.
pub open spec fn segment_contents(source: Seq<u8>, spans: Seq<HighlightSpan>) -> Seq<
    (Seq<u8>, Option<&'static str>),
> {
    segments_spec(spans, source.len() as int).map_values(
        |r: (int, int, Option<&'static str>)| (source.subrange(r.0, r.1), r.2),
    )
}

/// The lines of `source`: its segments laid out line by line.
pub open spec fn lines_spec(source: Seq<u8>, spans: Seq<HighlightSpan>) -> Seq<LineContent> {
    let segs = segment_contents(source, spans);
    lay_segments(segs, segs.len() as int)
}

/// What a vector of lines shows.
pub open spec fn lines_content(lines: Seq<Vec<HighlightSegment>>) -> Seq<LineContent> {
    lines.map_values(|l: Vec<HighlightSegment>| l@.map_values(|s: HighlightSegment| segment_content(s)))
}

proof fn lemma_lines_content_push<'a>(lines: Seq<Vec<HighlightSegment<'a>>>, v: Vec<HighlightSegment<'a>>)
    ensures
        lines_content(lines.push(v)) =~= lines_content(lines).push(
            v@.map_values(|s: HighlightSegment| segment_content(s)),
        ),
{
}

proof fn lemma_lines_content_replace_last<'a>(
    lines: Seq<Vec<HighlightSegment<'a>>>,
    last: Vec<HighlightSegment<'a>>,
    seg: HighlightSegment<'a>,
)
    requires
        lines.len() > 0,
        last@ == lines.last()@.push(seg),
    ensures
        lines_content(lines.drop_last().push(last)) =~= append_to_last_line(
            lines_content(lines),
            segment_content(seg),
        ),
{
    let a = lines_content(lines.drop_last().push(last));
    let b = append_to_last_line(lines_content(lines), segment_content(seg));
    assert forall|j: int| 0 <= j < a.len() implies a[j] =~= b[j] by {
        if j < lines.len() - 1 {
            assert(lines.drop_last().push(last)[j] == lines[j]);
        } else {
            assert(lines.drop_last().push(last)[j] == last);
        }
    }
}

/// Lay one segment onto the lines built so far.
pub fn push_line_segments<'a>(lines: &mut Vec<Vec<HighlightSegment<'a>>>, segment: HighlightSegment<'a>)
    requires
        old(lines)@.len() > 0,
    ensures
        lines_content(final(lines)@) == lay_text(
            lines_content(old(lines)@),
            segment.spec_text().spec_bytes(),
            segment.spec_tag(),
        ),
        final(lines)@.len() > 0,
{
    let tag = segment.tag;
    let mut text = segment.text;
    let ghost goal = lay_text(lines_content(lines@), text.spec_bytes(), tag);
    loop
        invariant_except_break
            lines@.len() > 0,
            lay_text(lines_content(lines@), text.spec_bytes(), tag) == goal,
        ensures
            lines_content(lines@) == goal,
            lines@.len() > 0,
        decreases text.spec_bytes().len(),
    {
        proof {
            lemma_str_valid(text);
        }
        let bytes = text.as_bytes();
        let n = bytes.len();
        let mut q: usize = 0;
        while q < n && bytes[q] != 10
            invariant
                bytes@ == text.spec_bytes(),
                n == bytes@.len(),
                0 <= q <= n,
                forall|i: int| 0 <= i < q ==> bytes@[i] != 10,
            decreases n - q,
        {
            q = q + 1;
        }
        let ghost tb = text.spec_bytes();
        proof {
            lemma_first_newline(tb);
            if first_newline(tb) < q {
                assert(tb[first_newline(tb)] == 10);
            }
            if q < first_newline(tb) {
                assert(tb[q as int] == 10);
            }
            assert(q == first_newline(tb));
        }
        if q < n {
            proof {
                lemma_ascii_byte_boundaries(tb, q as int);
            }
            let before = substr(text, 0, q);
            let after = substr(text, q + 1, n);
            let ghost old_content = lines_content(lines@);
            if q > 0 {
                let ghost old_lines = lines@;
                let mut last = lines.pop().unwrap();
                let seg = HighlightSegment::new(before, tag);
                last.push(seg);
                proof {
                    lemma_lines_content_replace_last(old_lines, last, seg);
                    assert(old_lines.drop_last() =~= lines@);
                }
                lines.push(last);
                proof {
                    assert(before.spec_bytes() =~= tb.take(q as int));
                    assert(lines_content(lines@) =~= append_to_last_line(
                        old_content,
                        (tb.take(q as int), tag),
                    ));
                }
            }
            let ghost mid_lines = lines@;
            let ghost mid_content = lines_content(lines@);
            let empty: Vec<HighlightSegment<'a>> = Vec::new();
            proof {
                lemma_lines_content_push(mid_lines, empty);
                assert(empty@.map_values(|s: HighlightSegment| segment_content(s)) =~= seq![]);
            }
            lines.push(empty);
            proof {
                assert(lines_content(lines@) =~= mid_content.push(seq![]));
                assert(after.spec_bytes() =~= tb.skip(q + 1));
            }
            text = after;
        } else {
            if n > 0 {
                let ghost old_content = lines_content(lines@);
                let ghost old_lines = lines@;
                let mut last = lines.pop().unwrap();
                let seg = HighlightSegment::new(text, tag);
                last.push(seg);
                proof {
                    lemma_lines_content_replace_last(old_lines, last, seg);
                    assert(old_lines.drop_last() =~= lines@);
                }
                lines.push(last);
                proof {
                    assert(lines_content(lines@) =~= append_to_last_line(old_content, (tb, tag)));
                }
            }
            break;
        }
    }
}

/// Split `source` into highlighted lines.
pub fn highlighted_lines<'a>(source: &'a str, spans: &[HighlightSpan]) -> (r: Vec<
    Vec<HighlightSegment<'a>>,
>)
    requires
        spans_on_boundaries(source.spec_bytes(), spans@),
    ensures
        lines_content(r@) == lines_spec(source.spec_bytes(), spans@),
{
    let segments = highlighted_segments(source, spans);
    let ghost segs = segment_contents(source.spec_bytes(), spans@);
    let mut lines: Vec<Vec<HighlightSegment<'a>>> = Vec::new();
    let empty: Vec<HighlightSegment<'a>> = Vec::new();
    proof {
        lemma_lines_content_push(lines@, empty);
        assert(empty@.map_values(|s: HighlightSegment| segment_content(s)) =~= seq![]);
    }
    lines.push(empty);
    assert(lines_content(lines@) =~= lay_segments(segs, 0));
    let mut i: usize = 0;
    while i < segments.len()
        invariant
            0 <= i <= segments@.len(),
            segs.len() == segments@.len(),
            segs == segment_contents(source.spec_bytes(), spans@),
            forall|k: int| 0 <= k < segs.len() ==> #[trigger] segs[k] == segment_content(segments@[k]),
            lines@.len() > 0,
            lines_content(lines@) == lay_segments(segs, i as int),
        decreases segments@.len() - i,
    {
        let seg = segments[i];
        assert(segs[i as int] == segment_content(seg));
        push_line_segments(&mut lines, seg);
        i = i + 1;
    }
    lines
}

} // verus!

verus! {

/// The texts of a sequence of pieces, joined.
pub open spec fn joined_text(pieces: Seq<(Seq<u8>, Option<&'static str>)>) -> Seq<u8>
    decreases pieces.len(),
{
    if pieces.len() == 0 {
        seq![]
    } else {
        joined_text(pieces.drop_last()) + pieces.last().0
    }
}

/// The number of newline bytes in `text`.
pub open spec fn newline_count(text: Seq<u8>) -> nat
    decreases text.len(),
{
    if text.len() == 0 {
        0
    } else {
        newline_count(text.drop_last()) + if text.last() == 10 {
            1nat
        } else {
            0nat
        }
    }
}

proof fn lemma_newline_count_concat(a: Seq<u8>, b: Seq<u8>)
    ensures
        newline_count(a + b) == newline_count(a) + newline_count(b),
    decreases b.len(),
{
    if b.len() > 0 {
        assert((a + b).drop_last() =~= a + b.drop_last());
        lemma_newline_count_concat(a, b.drop_last());
    } else {
        assert(a + b =~= a);
    }
}

/// The segment ranges from `lo` lie in order between `lo` and `len`.
proof fn lemma_segment_ranges_within(spans: Seq<HighlightSpan>, len: int, lo: int)
    requires
        0 <= lo,
    ensures
        forall|k: int|
            0 <= k < segment_ranges(spans, len, lo).len() ==> lo <= (
            #[trigger] segment_ranges(spans, len, lo)[k]).0 <= segment_ranges(spans, len, lo)[k].1
                <= len,
    decreases len - lo,
{
    if lo < len {
        lemma_next_bound_range(spans, lo, len);
        let b = next_bound(spans, lo, len);
        lemma_segment_ranges_within(spans, len, b);
        let all = segment_ranges(spans, len, lo);
        let rest = segment_ranges(spans, len, b);
        assert forall|k: int| 0 <= k < all.len() implies lo <= (#[trigger] all[k]).0 <= all[k].1
            <= len by {
            if k > 0 {
                assert(all[k] == rest[k - 1]);
            }
        }
    }
}

/// The segment ranges of a source of `len` bytes lie in order within it.
pub proof fn lemma_segments_spec_within(spans: Seq<HighlightSpan>, len: int)
    requires
        0 <= len,
    ensures
        forall|k: int|
            0 <= k < segments_spec(spans, len).len() ==> 0 <= (#[trigger] segments_spec(
                spans,
                len,
            )[k]).0 <= segments_spec(spans, len)[k].1 <= len,
{
    if spans.len() > 0 {
        lemma_segment_ranges_within(spans, len, 0);
    }
}

proof fn lemma_segment_ranges_cover(source: Seq<u8>, spans: Seq<HighlightSpan>, lo: int)
    requires
        0 <= lo <= source.len(),
    ensures
        joined_text(
            segment_ranges(spans, source.len() as int, lo).map_values(
                |r: (int, int, Option<&'static str>)| (source.subrange(r.0, r.1), r.2),
            ),
        ) =~= source.subrange(lo, source.len() as int),
    decreases source.len() - lo,
{
    let len = source.len() as int;
    let f = |r: (int, int, Option<&'static str>)| (source.subrange(r.0, r.1), r.2);
    if lo < len {
        lemma_next_bound_range(spans, lo, len);
        let b = next_bound(spans, lo, len);
        lemma_segment_ranges_cover(source, spans, b);
        let rest = segment_ranges(spans, len, b);
        let all = segment_ranges(spans, len, lo);
        assert(all == seq![all[0]] + rest);
        lemma_joined_text_prepend(all.map_values(f), rest.map_values(f));
        assert(source.subrange(lo, b) + source.subrange(b, len) =~= source.subrange(lo, len));
    } else {
        assert(segment_ranges(spans, len, lo).map_values(f) =~= seq![]);
    }
}

proof fn lemma_joined_text_prepend(
    all: Seq<(Seq<u8>, Option<&'static str>)>,
    rest: Seq<(Seq<u8>, Option<&'static str>)>,
)
    requires
        all.len() == rest.len() + 1,
        forall|i: int| 0 <= i < rest.len() ==> all[i + 1] == rest[i],
    ensures
        joined_text(all) =~= all[0].0 + joined_text(rest),
    decreases rest.len(),
{
    if rest.len() > 0 {
        let ad = all.drop_last();
        let rd = rest.drop_last();
        assert forall|i: int| 0 <= i < rd.len() implies ad[i + 1] == rd[i] by {
            assert(all[i + 1] == rest[i]);
        }
        lemma_joined_text_prepend(ad, rd);
        assert(all.last() == rest.last());
        assert(joined_text(all) == joined_text(ad) + all.last().0);
        assert(joined_text(rest) == joined_text(rd) + rest.last().0);
        assert(ad[0] == all[0]);
        assert((all[0].0 + joined_text(rd)) + rest.last().0 =~= all[0].0 + (joined_text(rd)
            + rest.last().0));
    } else {
        assert(all.drop_last() =~= seq![]);
        assert(joined_text(all) == joined_text(all.drop_last()) + all.last().0);
        assert(joined_text(rest) =~= seq![]);
        assert(Seq::<u8>::empty() + all[0].0 =~= all[0].0 + Seq::<u8>::empty());
    }
}

/// The segments of a source, joined, give back the source: no byte is lost,
/// repeated or moved.
pub proof fn lemma_segments_cover_source(source: Seq<u8>, spans: Seq<HighlightSpan>)
    ensures
        joined_text(segment_contents(source, spans)) == source,
{
    if spans.len() == 0 {
        let s = segment_contents(source, spans);
        assert(s.len() == 1);
        assert(s.drop_last() =~= seq![]);
        assert(joined_text(s) == joined_text(s.drop_last()) + s.last().0);
        assert(source.subrange(0, source.len() as int) =~= source);
        assert(Seq::<u8>::empty() + source =~= source);
    } else {
        lemma_segment_ranges_cover(source, spans, 0);
        assert(source.subrange(0, source.len() as int) =~= source);
    }
}

proof fn lemma_lay_text_len(lines: Seq<LineContent>, text: Seq<u8>, tag: Option<&'static str>)
    requires
        lines.len() > 0,
    ensures
        lay_text(lines, text, tag).len() == lines.len() + newline_count(text),
        lay_text(lines, text, tag).len() > 0,
    decreases text.len(),
{
    lemma_first_newline(text);
    let q = first_newline(text);
    if q < text.len() {
        let with_before = if q > 0 {
            append_to_last_line(lines, (text.take(q), tag))
        } else {
            lines
        };
        assert(with_before.len() == lines.len());
        lemma_lay_text_len(with_before.push(seq![]), text.skip(q + 1), tag);
        assert(lay_text(lines, text, tag) == lay_text(with_before.push(seq![]), text.skip(q + 1), tag));
        lemma_newline_count_no_newline(text.take(q));
        assert(text =~= text.take(q) + seq![10u8] + text.skip(q + 1));
        lemma_newline_count_concat(text.take(q) + seq![10u8], text.skip(q + 1));
        lemma_newline_count_concat(text.take(q), seq![10u8]);
        let nl = seq![10u8];
        assert(nl.drop_last() =~= Seq::<u8>::empty());
        assert(newline_count(nl.drop_last()) == 0);
        assert(nl.last() == 10);
        assert(newline_count(nl) == 1);
    } else {
        lemma_newline_count_no_newline(text);
        if text.len() > 0 {
            assert(lay_text(lines, text, tag) == append_to_last_line(lines, (text, tag)));
        } else {
            assert(lay_text(lines, text, tag) == lines);
        }
    }
}

proof fn lemma_newline_count_no_newline(text: Seq<u8>)
    requires
        forall|i: int| 0 <= i < text.len() ==> text[i] != 10,
    ensures
        newline_count(text) == 0,
    decreases text.len(),
{
    if text.len() > 0 {
        lemma_newline_count_no_newline(text.drop_last());
    }
}

proof fn lemma_lay_segments_len(segs: Seq<(Seq<u8>, Option<&'static str>)>, n: int)
    requires
        0 <= n <= segs.len(),
    ensures
        lay_segments(segs, n).len() == 1 + newline_count(joined_text(segs.take(n))),
    decreases n,
{
    if n == 0 {
        assert(segs.take(0) =~= seq![]);
    } else {
        lemma_lay_segments_len(segs, n - 1);
        lemma_lay_segments_positive(segs, n - 1);
        lemma_lay_text_len(lay_segments(segs, n - 1), segs[n - 1].0, segs[n - 1].1);
        assert(segs.take(n).drop_last() =~= segs.take(n - 1));
        lemma_newline_count_concat(joined_text(segs.take(n - 1)), segs[n - 1].0);
    }
}

proof fn lemma_lay_segments_positive(segs: Seq<(Seq<u8>, Option<&'static str>)>, n: int)
    requires
        0 <= n <= segs.len(),
    ensures
        lay_segments(segs, n).len() > 0,
    decreases n,
{
    if n > 0 {
        lemma_lay_segments_positive(segs, n - 1);
        lemma_lay_text_len(lay_segments(segs, n - 1), segs[n - 1].0, segs[n - 1].1);
    }
}

/// A source has one line more than it has newlines: a trailing newline is
/// followed by an empty last line, so line numbers stay aligned with the text.
pub proof fn lemma_line_count(source: Seq<u8>, spans: Seq<HighlightSpan>)
    ensures
        lines_spec(source, spans).len() == 1 + newline_count(source),
{
    let segs = segment_contents(source, spans);
    lemma_lay_segments_len(segs, segs.len() as int);
    assert(segs.take(segs.len() as int) =~= segs);
    lemma_segments_cover_source(source, spans);
}

/// The text of lines, joined by newlines.
pub open spec fn joined_lines(lines: Seq<LineContent>) -> Seq<u8>
    decreases lines.len(),
{
    if lines.len() == 0 {
        seq![]
    } else if lines.len() == 1 {
        joined_text(lines[0])
    } else {
        joined_lines(lines.drop_last()) + seq![10u8] + joined_text(lines.last())
    }
}

/// No piece of any line holds a newline.
pub open spec fn lines_free_of_newlines(lines: Seq<LineContent>) -> bool {
    forall|i: int, j: int, k: int|
        0 <= i < lines.len() && 0 <= j < lines[i].len() && 0 <= k < lines[i][j].0.len()
            ==> #[trigger] lines[i][j].0[k] != 10
}

proof fn lemma_joined_lines_append(lines: Seq<LineContent>, piece: (Seq<u8>, Option<&'static str>))
    requires
        lines.len() > 0,
    ensures
        joined_lines(append_to_last_line(lines, piece)) == joined_lines(lines) + piece.0,
{
    let r = append_to_last_line(lines, piece);
    assert(r.last() == lines.last().push(piece));
    assert(r.last().drop_last() =~= lines.last());
    if lines.len() > 1 {
        assert(r.drop_last() =~= lines.drop_last());
    }
}

proof fn lemma_joined_lines_new_line(lines: Seq<LineContent>)
    requires
        lines.len() > 0,
    ensures
        joined_lines(lines.push(seq![])) == joined_lines(lines) + seq![10u8],
{
    let r = lines.push(seq![]);
    assert(r.drop_last() =~= lines);
    assert(joined_text(r.last()) =~= Seq::<u8>::empty());
    assert(joined_lines(lines) + seq![10u8] + Seq::<u8>::empty() =~= joined_lines(lines) + seq![10u8]);
}

proof fn lemma_lay_text_joined(lines: Seq<LineContent>, text: Seq<u8>, tag: Option<&'static str>)
    requires
        lines.len() > 0,
        lines_free_of_newlines(lines),
    ensures
        joined_lines(lay_text(lines, text, tag)) == joined_lines(lines) + text,
        lines_free_of_newlines(lay_text(lines, text, tag)),
    decreases text.len(),
{
    lemma_first_newline(text);
    let q = first_newline(text);
    if q < text.len() {
        let with_before = if q > 0 {
            append_to_last_line(lines, (text.take(q), tag))
        } else {
            lines
        };
        if q > 0 {
            lemma_joined_lines_append(lines, (text.take(q), tag));
            lemma_append_free_of_newlines(lines, (text.take(q), tag));
        } else {
            assert(joined_lines(lines) + text.take(q) =~= joined_lines(lines));
        }
        let next = with_before.push(seq![]);
        lemma_joined_lines_new_line(with_before);
        assert forall|i: int, j: int, k: int|
            0 <= i < next.len() && 0 <= j < next[i].len() && 0 <= k < next[i][j].0.len() implies
            #[trigger] next[i][j].0[k] != 10 by {
            assert(next[i] == with_before[i]);
        }
        lemma_lay_text_joined(next, text.skip(q + 1), tag);
        assert(text =~= text.take(q) + seq![10u8] + text.skip(q + 1));
        assert(joined_lines(lines) + text.take(q) + seq![10u8] + text.skip(q + 1) =~= joined_lines(
            lines,
        ) + text);
    } else if text.len() > 0 {
        lemma_joined_lines_append(lines, (text, tag));
        lemma_append_free_of_newlines(lines, (text, tag));
    } else {
        assert(joined_lines(lines) + text =~= joined_lines(lines));
    }
}

proof fn lemma_append_free_of_newlines(lines: Seq<LineContent>, piece: (Seq<u8>, Option<&'static str>))
    requires
        lines.len() > 0,
        lines_free_of_newlines(lines),
        forall|k: int| 0 <= k < piece.0.len() ==> piece.0[k] != 10,
    ensures
        lines_free_of_newlines(append_to_last_line(lines, piece)),
{
    let r = append_to_last_line(lines, piece);
    assert forall|i: int, j: int, k: int|
        0 <= i < r.len() && 0 <= j < r[i].len() && 0 <= k < r[i][j].0.len() implies #[trigger] r[i][j].0[k]
        != 10 by {
        if i < r.len() - 1 {
            assert(r[i] == lines[i]);
        } else if j < lines.last().len() {
            assert(r[i][j] == lines[i][j]);
        } else {
            assert(r[i][j] == piece);
        }
    }
}

proof fn lemma_lay_segments_joined(segs: Seq<(Seq<u8>, Option<&'static str>)>, n: int)
    requires
        0 <= n <= segs.len(),
    ensures
        joined_lines(lay_segments(segs, n)) == joined_text(segs.take(n)),
        lines_free_of_newlines(lay_segments(segs, n)),
    decreases n,
{
    if n == 0 {
        assert(segs.take(0) =~= Seq::<(Seq<u8>, Option<&'static str>)>::empty());
        let one: Seq<LineContent> = seq![seq![]];
        assert(joined_text(one[0]) =~= Seq::<u8>::empty());
    } else {
        lemma_lay_segments_joined(segs, n - 1);
        lemma_lay_segments_positive(segs, n - 1);
        lemma_lay_text_joined(lay_segments(segs, n - 1), segs[n - 1].0, segs[n - 1].1);
        assert(segs.take(n).drop_last() =~= segs.take(n - 1));
        assert(segs.take(n).last() == segs[n - 1]);
    }
}

/// The lines of a source give back the source: no piece of a line holds a
/// newline, and the lines joined by newlines are the source byte for byte.
pub proof fn lemma_lines_rebuild_source(source: Seq<u8>, spans: Seq<HighlightSpan>)
    ensures
        joined_lines(lines_spec(source, spans)) == source,
        lines_free_of_newlines(lines_spec(source, spans)),
{
    let segs = segment_contents(source, spans);
    lemma_lay_segments_joined(segs, segs.len() as int);
    assert(segs.take(segs.len() as int) =~= segs);
    lemma_segments_cover_source(source, spans);
}

} // verus!
