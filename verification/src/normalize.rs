//! Turning raw highlight captures into the spans a source is rendered with:
//! one capture per byte range, untagged ranges dropped, ranges sorted, and
//! overlapping or touching ranges with the same tag merged.

use vstd::prelude::*;
use vstd::string::*;

use crate::highlight::HighlightSpan;
use crate::text::str_eq;

verus! {

/// A highlight capture as a grammar reports it, before normalisation.
#[derive(Debug, Clone, Copy, PartialEq, Eq)]
pub struct RawHighlightSpan {
    /// Byte offset, inclusive, where the capture starts.
    pub start: u32,
    /// Byte offset, exclusive, where the capture ends.
    pub end: u32,
    /// The tag of the capture, if it has one.
    pub tag: Option<&'static str>,
    /// The index of the query pattern that produced the capture; later
    /// patterns take precedence.
    pub pattern_index: u32,
}

/// A span as start, end and tag.
pub type SpanTriple = (u32, u32, &'static str);

/// The start, end and tag of a span.
pub open spec fn triple_of(s: HighlightSpan) -> SpanTriple {
    (s.spec_start(), s.spec_end(), s.spec_tag())
}

/// The spans of a sequence as triples.
pub open spec fn triples_of(v: Seq<HighlightSpan>) -> Seq<SpanTriple> {
    v.map_values(|s: HighlightSpan| triple_of(s))
}

/// A later capture of the same range replaces an earlier one: a tagged
/// capture beats an untagged one, and otherwise the later pattern wins.
pub open spec fn replaces(new: RawHighlightSpan, existing: RawHighlightSpan) -> bool {
    if new.tag is Some && existing.tag is None {
        true
    } else if new.tag is None && existing.tag is Some {
        false
    } else {
        new.pattern_index >= existing.pattern_index
    }
}

/// The capture that prevails for the range `start..end`, if any capture
/// covers exactly that range.
pub open spec fn winner(raws: Seq<RawHighlightSpan>, start: u32, end: u32) -> Option<
    RawHighlightSpan,
>
    decreases raws.len(),
{
    if raws.len() == 0 {
        None
    } else {
        let w = winner(raws.drop_last(), start, end);
        let r = raws.last();
        if r.start == start && r.end == end {
            match w {
                None => Some(r),
                Some(x) => if replaces(r, x) {
                    Some(r)
                } else {
                    Some(x)
                },
            }
        } else {
            w
        }
    }
}

/// The tag the range `start..end` keeps, if its prevailing capture has one.
pub open spec fn kept_tag(raws: Seq<RawHighlightSpan>, start: u32, end: u32) -> Option<
    &'static str,
> {
    match winner(raws, start, end) {
        Some(w) => w.tag,
        None => None,
    }
}

/// Ranges are ordered by start, then by end.
pub open spec fn key_before(a: (u32, u32), b: (u32, u32)) -> bool {
    a.0 < b.0 || (a.0 == b.0 && a.1 < b.1)
}

/// `s` lists every kept range once, with its tag, in range order.
pub open spec fn sorted_kept(raws: Seq<RawHighlightSpan>, s: Seq<SpanTriple>) -> bool {
    &&& forall|i: int, j: int|
        #![trigger s[i], s[j]]
        0 <= i < j < s.len() ==> key_before((s[i].0, s[i].1), (s[j].0, s[j].1))
    &&& forall|i: int| #![trigger s[i]] 0 <= i < s.len() ==> kept_tag(raws, s[i].0, s[i].1) == Some(s[i].2)
    &&& forall|k: int|
        #![trigger raws[k]]
        0 <= k < raws.len() && kept_tag(raws, raws[k].start, raws[k].end) is Some ==> exists|i: int|
            0 <= i < s.len() && s[i].0 == raws[k].start && s[i].1 == raws[k].end
}

/// Merge each span into the one before it when their tags agree and it
/// starts no later than that one ends.
pub open spec fn coalesce(s: Seq<SpanTriple>) -> Seq<SpanTriple>
    decreases s.len(),
{
    if s.len() == 0 {
        seq![]
    } else {
        let c = coalesce(s.drop_last());
        let x = s.last();
        if c.len() > 0 && x.2@ == c.last().2@ && x.0 <= c.last().1 {
            let l = c.last();
            c.update(c.len() - 1, (l.0, if x.1 > l.1 { x.1 } else { l.1 }, l.2))
        } else {
            c.push(x)
        }
    }
}

spec fn key_of(r: RawHighlightSpan) -> (u32, u32) {
    (r.start, r.end)
}

proof fn lemma_winner_key(raws: Seq<RawHighlightSpan>, start: u32, end: u32)
    ensures
        winner(raws, start, end) matches Some(w) ==> w.start == start && w.end == end,
    decreases raws.len(),
{
    if raws.len() > 0 {
        lemma_winner_key(raws.drop_last(), start, end);
    }
}

proof fn lemma_winner_source(raws: Seq<RawHighlightSpan>, start: u32, end: u32)
    ensures
        winner(raws, start, end) is Some ==> exists|k: int|
            0 <= k < raws.len() && #[trigger] raws[k].start == start && raws[k].end == end,
    decreases raws.len(),
{
    if raws.len() > 0 {
        lemma_winner_source(raws.drop_last(), start, end);
        if winner(raws.drop_last(), start, end) is Some {
            let k = choose|k: int|
                0 <= k < raws.drop_last().len() && #[trigger] raws.drop_last()[k].start == start
                    && raws.drop_last()[k].end == end;
            assert(raws[k] == raws.drop_last()[k]);
        }
    }
}

/// One entry per range covered by some capture, in range order, each holding
/// the prevailing capture.
fn prevailing_captures(raws: &Vec<RawHighlightSpan>) -> (d: Vec<RawHighlightSpan>)
    ensures
        forall|i: int, j: int|
            #![trigger d@[i], d@[j]]
            0 <= i < j < d@.len() ==> key_before(key_of(d@[i]), key_of(d@[j])),
        forall|i: int|
            #![trigger d@[i]]
            0 <= i < d@.len() ==> winner(raws@, d@[i].start, d@[i].end) == Some(d@[i]),
        forall|k: int|
            #![trigger raws@[k]]
            0 <= k < raws@.len() ==> exists|i: int|
                0 <= i < d@.len() && d@[i].start == raws@[k].start && d@[i].end == raws@[k].end,
{
    // One entry per range, kept in range order, holding the prevailing capture.
    let mut d: Vec<RawHighlightSpan> = Vec::new();
    let mut n: usize = 0;
    while n < raws.len()
        invariant
            0 <= n <= raws@.len(),
            forall|i: int, j: int|
                #![trigger d@[i], d@[j]]
                0 <= i < j < d@.len() ==> key_before(key_of(d@[i]), key_of(d@[j])),
            forall|i: int|
                #![trigger d@[i]]
                0 <= i < d@.len() ==> winner(raws@.take(n as int), d@[i].start, d@[i].end) == Some(d@[i]),
            forall|k: int|
                #![trigger raws@[k]]
                0 <= k < n ==> exists|i: int|
                    0 <= i < d@.len() && d@[i].start == raws@[k].start && d@[i].end == raws@[k].end,
        decreases raws@.len() - n,
    {
        let r = raws[n];
        let ghost pre = raws@.take(n as int);
        let ghost cur = raws@.take(n + 1);
        assert(cur.drop_last() =~= pre);
        assert(cur.last() == r);
        let mut pos: usize = 0;
        while pos < d.len() && (d[pos].start < r.start || (d[pos].start == r.start && d[pos].end
            < r.end))
            invariant
                0 <= pos <= d@.len(),
                forall|i: int| #![trigger d@[i]] 0 <= i < pos ==> key_before(key_of(d@[i]), key_of(r)),
            decreases d@.len() - pos,
        {
            pos = pos + 1;
        }
        let ghost old_d = d@;
        proof {
            assert forall|s: u32, e: u32| !(s == r.start && e == r.end) implies winner(cur, s, e)
                == winner(pre, s, e) by {}
        }
        if pos < d.len() && d[pos].start == r.start && d[pos].end == r.end {
            let existing = d[pos];
            proof {
                assert(winner(pre, r.start, r.end) == Some(existing));
            }
            if (r.tag.is_some() && existing.tag.is_none()) || (!(r.tag.is_none()
                && existing.tag.is_some()) && r.pattern_index >= existing.pattern_index) {
                d.set(pos, r);
            }
            proof {
                assert(winner(cur, r.start, r.end) == Some(d@[pos as int]));
                assert forall|i: int| #![trigger d@[i]] 0 <= i < d@.len() implies winner(
                    cur,
                    d@[i].start,
                    d@[i].end,
                ) == Some(d@[i]) by {
                    if i != pos {
                        assert(d@[i] == old_d[i]);
                        assert(key_before(key_of(old_d[i]), key_of(old_d[pos as int])) || key_before(
                            key_of(old_d[pos as int]),
                            key_of(old_d[i]),
                        ));
                    }
                }
            }
        } else {
            proof {
                if pos < d@.len() {
                    assert(key_before(key_of(r), key_of(d@[pos as int])));
                }
                assert forall|i: int| 0 <= i < old_d.len() implies !(old_d[i].start == r.start
                    && old_d[i].end == r.end) by {
                    if i >= pos {
                        if i > pos {
                            assert(key_before(key_of(old_d[pos as int]), key_of(old_d[i])));
                        }
                    } else {
                        assert(key_before(key_of(old_d[i]), key_of(r)));
                    }
                }
                if winner(pre, r.start, r.end) is Some {
                    lemma_winner_source(pre, r.start, r.end);
                    let k = choose|k: int|
                        0 <= k < pre.len() && #[trigger] pre[k].start == r.start && pre[k].end == r.end;
                    assert(pre[k] == raws@[k]);
                    assert(false);
                }
            }
            d.insert(pos, r);
            proof {
                assert forall|i: int| #![trigger d@[i]] 0 <= i < d@.len() implies winner(
                    cur,
                    d@[i].start,
                    d@[i].end,
                ) == Some(d@[i]) by {
                    if i < pos {
                        assert(d@[i] == old_d[i]);
                    } else if i > pos {
                        assert(d@[i] == old_d[i - 1]);
                    }
                }
                assert forall|i: int, j: int|
                    #![trigger d@[i], d@[j]]
                    0 <= i < j < d@.len() implies key_before(key_of(d@[i]), key_of(d@[j])) by {
                    if j < pos {
                        assert(d@[i] == old_d[i] && d@[j] == old_d[j]);
                    } else if j == pos {
                        assert(d@[i] == old_d[i]);
                    } else if i < pos {
                        assert(d@[i] == old_d[i] && d@[j] == old_d[j - 1]);
                        if pos < old_d.len() {
                            assert(key_before(key_of(r), key_of(old_d[pos as int])));
                            if j - 1 > pos {
                                assert(key_before(key_of(old_d[pos as int]), key_of(old_d[j - 1])));
                            }
                        }
                    } else if i == pos {
                        assert(d@[j] == old_d[j - 1]);
                        if j - 1 > pos {
                            assert(key_before(key_of(old_d[pos as int]), key_of(old_d[j - 1])));
                        }
                    } else {
                        assert(d@[i] == old_d[i - 1] && d@[j] == old_d[j - 1]);
                    }
                }
            }
        }
        proof {
            assert forall|k: int| #![trigger raws@[k]] 0 <= k < n + 1 implies exists|i: int|
                0 <= i < d@.len() && d@[i].start == raws@[k].start && d@[i].end == raws@[k].end by {
                if k == n {
                    assert(d@[pos as int].start == r.start && d@[pos as int].end == r.end);
                } else {
                    let i0 = choose|i: int|
                        0 <= i < old_d.len() && old_d[i].start == raws@[k].start && old_d[i].end
                            == raws@[k].end;
                    if d@.len() == old_d.len() {
                        assert(d@[i0].start == old_d[i0].start && d@[i0].end == old_d[i0].end);
                    } else if i0 < pos {
                        assert(d@[i0] == old_d[i0]);
                    } else {
                        assert(d@[i0 + 1] == old_d[i0]);
                    }
                }
            }
        }
        n = n + 1;
    }
    assert(raws@.take(raws@.len() as int) =~= raws@);
    d
}


/// The kept ranges, with their tags, in range order.
fn kept_spans(raws: &Vec<RawHighlightSpan>) -> (out: Vec<HighlightSpan>)
    ensures
        sorted_kept(raws@, triples_of(out@)),
{
    let d = prevailing_captures(raws);
    let mut out: Vec<HighlightSpan> = Vec::new();
    let mut j: usize = 0;
    while j < d.len()
        invariant
            0 <= j <= d@.len(),
            forall|i: int, k: int|
                #![trigger d@[i], d@[k]]
                0 <= i < k < d@.len() ==> key_before(key_of(d@[i]), key_of(d@[k])),
            forall|i: int|
                #![trigger d@[i]]
                0 <= i < d@.len() ==> winner(raws@, d@[i].start, d@[i].end) == Some(d@[i]),
            forall|i: int, k: int|
                #![trigger out@[i], out@[k]]
                0 <= i < k < out@.len() ==> key_before(
                    (out@[i].spec_start(), out@[i].spec_end()),
                    (out@[k].spec_start(), out@[k].spec_end()),
                ),
            forall|i: int, m: int|
                #![trigger out@[i], d@[m]]
                0 <= i < out@.len() && j <= m < d@.len() ==> key_before(
                    (out@[i].spec_start(), out@[i].spec_end()),
                    key_of(d@[m]),
                ),
            forall|i: int|
                #![trigger out@[i]]
                0 <= i < out@.len() ==> kept_tag(raws@, out@[i].spec_start(), out@[i].spec_end())
                    == Some(out@[i].spec_tag()),
            forall|m: int|
                #![trigger d@[m]]
                0 <= m < j && d@[m].tag is Some ==> exists|i: int|
                    0 <= i < out@.len() && out@[i].spec_start() == d@[m].start && out@[i].spec_end()
                        == d@[m].end,
        decreases d@.len() - j,
    {
        let c = d[j];
        let ghost old_out = out@;
        if let Some(tag) = c.tag {
            let sp = HighlightSpan::from_offsets(c.start, c.end, tag);
            out.push(sp);
            proof {
                let last = out@.len() - 1;
                assert(out@[last] == sp);
                assert forall|i: int, k: int|
                    #![trigger out@[i], out@[k]]
                    0 <= i < k < out@.len() implies key_before(
                        (out@[i].spec_start(), out@[i].spec_end()),
                        (out@[k].spec_start(), out@[k].spec_end()),
                    ) by {
                    assert(out@[i] == old_out[i]);
                    if k < last {
                        assert(out@[k] == old_out[k]);
                    } else {
                        assert(d@[j as int] == c);
                    }
                }
                assert forall|i: int, m: int|
                    #![trigger out@[i], d@[m]]
                    0 <= i < out@.len() && j + 1 <= m < d@.len() implies key_before(
                        (out@[i].spec_start(), out@[i].spec_end()),
                        key_of(d@[m]),
                    ) by {
                    if i < last {
                        assert(out@[i] == old_out[i]);
                    } else {
                        assert(d@[j as int] == c);
                    }
                }
                assert forall|i: int| #![trigger out@[i]] 0 <= i < out@.len() implies kept_tag(
                    raws@,
                    out@[i].spec_start(),
                    out@[i].spec_end(),
                ) == Some(out@[i].spec_tag()) by {
                    if i < last {
                        assert(out@[i] == old_out[i]);
                    } else {
                        assert(d@[j as int] == c);
                    }
                }
                assert forall|m: int|
                    #![trigger d@[m]]
                    0 <= m < j + 1 && d@[m].tag is Some implies exists|i: int|
                        0 <= i < out@.len() && out@[i].spec_start() == d@[m].start
                            && out@[i].spec_end() == d@[m].end by {
                    if m < j {
                        let i0 = choose|i: int|
                            0 <= i < old_out.len() && old_out[i].spec_start() == d@[m].start
                                && old_out[i].spec_end() == d@[m].end;
                        assert(out@[i0] == old_out[i0]);
                    } else {
                        assert(out@[last].spec_start() == d@[m].start);
                    }
                }
            }
        } else {
            proof {
                assert forall|m: int|
                    #![trigger d@[m]]
                    0 <= m < j + 1 && d@[m].tag is Some implies exists|i: int|
                        0 <= i < out@.len() && out@[i].spec_start() == d@[m].start
                            && out@[i].spec_end() == d@[m].end by {
                    assert(m < j);
                }
            }
        }
        j = j + 1;
    }
    proof {
        let t = triples_of(out@);
        assert forall|i: int, k: int|
            #![trigger t[i], t[k]]
            0 <= i < k < t.len() implies key_before((t[i].0, t[i].1), (t[k].0, t[k].1)) by {
            assert(out@[i] == out@[i] && out@[k] == out@[k]);
        }
        assert forall|i: int| #![trigger t[i]] 0 <= i < t.len() implies kept_tag(raws@, t[i].0, t[i].1)
            == Some(t[i].2) by {
            assert(out@[i] == out@[i]);
        }
        assert forall|k: int|
            #![trigger raws@[k]]
            0 <= k < raws@.len() && kept_tag(raws@, raws@[k].start, raws@[k].end) is Some implies exists|
                i: int,
            | 0 <= i < t.len() && t[i].0 == raws@[k].start && t[i].1 == raws@[k].end by {
            let m = choose|m: int|
                0 <= m < d@.len() && d@[m].start == raws@[k].start && d@[m].end == raws@[k].end;
            assert(d@[m] == d@[m]);
            assert(winner(raws@, d@[m].start, d@[m].end) == Some(d@[m]));
            assert(d@[m].tag is Some);
            let i = choose|i: int|
                0 <= i < out@.len() && out@[i].spec_start() == d@[m].start && out@[i].spec_end()
                    == d@[m].end;
            assert(out@[i] == out@[i]);
            assert(t[i].0 == raws@[k].start && t[i].1 == raws@[k].end);
        }
    }
    out
}

/// Normalise raw captures into highlight spans: for each byte range the
/// prevailing capture is kept (a tagged capture beats an untagged one, then
/// the later pattern wins), untagged ranges are dropped, the ranges are
/// sorted by start and end, and each span is merged into the one before it
/// when their tags agree and it starts no later than that one ends.
pub fn normalize_spans(raws: Vec<RawHighlightSpan>) -> (r: Vec<HighlightSpan>)
    ensures
        exists|s: Seq<SpanTriple>| sorted_kept(raws@, s) && triples_of(r@) == coalesce(s),
        spans_are_normal(triples_of(r@)),
{
    let spans = kept_spans(&raws);
    let ghost s = triples_of(spans@);
    let mut out: Vec<HighlightSpan> = Vec::new();
    let mut i: usize = 0;
    while i < spans.len()
        invariant
            0 <= i <= spans@.len(),
            s == triples_of(spans@),
            triples_of(out@) == coalesce(s.take(i as int)),
        decreases spans@.len() - i,
    {
        let x = spans[i];
        let ghost pre = s.take(i as int);
        assert(s.take(i + 1).drop_last() =~= pre);
        assert(s.take(i + 1).last() == triple_of(x));
        let n = out.len();
        if n > 0 && str_eq(x.tag(), out[n - 1].tag()) && x.start() <= out[n - 1].end() {
            let ghost old_out = out@;
            let mut last = out.pop().unwrap();
            let new_end = if x.end() > last.end() { x.end() } else { last.end() };
            last.set_end(new_end);
            out.push(last);
            proof {
                assert(triples_of(out@) =~= coalesce(s.take(i + 1)));
            }
        } else {
            let ghost old_out = out@;
            out.push(x);
            proof {
                assert(triples_of(out@) =~= coalesce(s.take(i + 1)));
            }
        }
        i = i + 1;
    }
    assert(s.take(spans@.len() as int) =~= s);
    proof {
        lemma_coalesce_normal(s);
    }
    out
}

/// Every range of `s` ends at or before byte `n`.
pub open spec fn triples_end_within(s: Seq<SpanTriple>, n: int) -> bool {
    forall|i: int| #![trigger s[i]] 0 <= i < s.len() ==> s[i].1 <= n
}

/// Coalescing keeps every range ending at or before a bound that all the
/// ranges it merges end at or before.
pub proof fn lemma_coalesce_end_within(s: Seq<SpanTriple>, n: int)
    requires
        triples_end_within(s, n),
    ensures
        triples_end_within(coalesce(s), n),
    decreases s.len(),
{
    if s.len() > 0 {
        let d = s.drop_last();
        assert forall|i: int| #![trigger d[i]] 0 <= i < d.len() implies d[i].1 <= n by {
            assert(d[i] == s[i]);
        }
        lemma_coalesce_end_within(d, n);
        let c = coalesce(d);
        let x = s.last();
        assert(x == s[s.len() - 1]);
        let r = coalesce(s);
        assert forall|i: int| #![trigger r[i]] 0 <= i < r.len() implies r[i].1 <= n by {
            if i < c.len() - 1 {
                assert(r[i] == c[i]);
            } else if i == c.len() - 1 {
                assert(c[i].1 <= n);
            }
        }
    }
}

/// Each kept range is the range of one of the captures, so it ends where
/// that capture ends.
pub proof fn lemma_sorted_kept_end_within(raws: Seq<RawHighlightSpan>, s: Seq<SpanTriple>, n: int)
    requires
        sorted_kept(raws, s),
        forall|k: int| #![trigger raws[k]] 0 <= k < raws.len() ==> raws[k].end <= n,
    ensures
        triples_end_within(s, n),
{
    assert forall|i: int| #![trigger s[i]] 0 <= i < s.len() implies s[i].1 <= n by {
        assert(kept_tag(raws, s[i].0, s[i].1) == Some(s[i].2));
        lemma_winner_source(raws, s[i].0, s[i].1);
        let k = choose|k: int|
            0 <= k < raws.len() && #[trigger] raws[k].start == s[i].0 && raws[k].end == s[i].1;
        assert(raws[k].end <= n);
    }
}

/// Spans in normal form: ordered by start, and a span never touches or
/// overlaps the next one when both have the same tag.
pub open spec fn spans_are_normal(c: Seq<SpanTriple>) -> bool {
    &&& forall|i: int, j: int| #![trigger c[i], c[j]] 0 <= i < j < c.len() ==> c[i].0 <= c[j].0
    &&& forall|i: int, j: int|
        #![trigger c[i], c[j]]
        0 <= i && j == i + 1 && j < c.len() && c[i].2@ == c[j].2@ ==> c[i].1 < c[j].0
}

/// Coalescing spans ordered by start leaves them ordered by start, with
/// every run of touching or overlapping spans of one tag merged into one.
pub proof fn lemma_coalesce_normal(s: Seq<SpanTriple>)
    requires
        forall|i: int, j: int| #![trigger s[i], s[j]] 0 <= i < j < s.len() ==> s[i].0 <= s[j].0,
    ensures
        spans_are_normal(coalesce(s)),
        forall|i: int| #![trigger coalesce(s)[i]] 0 <= i < coalesce(s).len() ==> coalesce(s)[i].0
            <= s.last().0,
    decreases s.len(),
{
    if s.len() > 0 {
        let d = s.drop_last();
        assert forall|i: int, j: int| #![trigger d[i], d[j]] 0 <= i < j < d.len() implies d[i].0
            <= d[j].0 by {
            assert(d[i] == s[i] && d[j] == s[j]);
        }
        lemma_coalesce_normal(d);
        let c = coalesce(d);
        let x = s.last();
        if d.len() > 0 {
            assert(d.last() == s[s.len() - 2]);
            assert(d.last().0 <= x.0);
        }
        let r = coalesce(s);
        if c.len() > 0 && x.2@ == c.last().2@ && x.0 <= c.last().1 {
            assert forall|i: int| #![trigger r[i]] 0 <= i < r.len() implies r[i].0 <= x.0 by {
                assert(r[i].0 == c[i].0);
            }
            assert forall|i: int, j: int| #![trigger r[i], r[j]] 0 <= i < j < r.len() implies r[i].0
                <= r[j].0 by {
                assert(r[i].0 == c[i].0 && r[j].0 == c[j].0);
            }
            assert forall|i: int, j: int|
                #![trigger r[i], r[j]]
                0 <= i && j == i + 1 && j < r.len() && r[i].2@ == r[j].2@ implies r[i].1 < r[j].0 by {
                assert(r[i] == c[i]);
                assert(r[j].0 == c[j].0 && r[j].2 == c[j].2);
            }
        } else {
            assert(r == c.push(x));
            assert forall|i: int| #![trigger r[i]] 0 <= i < r.len() implies r[i].0 <= x.0 by {
                if i < c.len() {
                    assert(r[i] == c[i]);
                }
            }
            assert forall|i: int, j: int| #![trigger r[i], r[j]] 0 <= i < j < r.len() implies r[i].0
                <= r[j].0 by {
                assert(r[i] == c[i]);
                if j < c.len() {
                    assert(r[j] == c[j]);
                }
            }
            assert forall|i: int, j: int|
                #![trigger r[i], r[j]]
                0 <= i && j == i + 1 && j < r.len() && r[i].2@ == r[j].2@ implies r[i].1 < r[j].0 by {
                assert(r[i] == c[i]);
                if j < c.len() {
                    assert(r[j] == c[j]);
                }
            }
        }
    }
}


spec fn strictly_sorted(s: Seq<SpanTriple>) -> bool {
    forall|i: int, j: int|
        #![trigger s[i], s[j]]
        0 <= i < j < s.len() ==> key_before((s[i].0, s[i].1), (s[j].0, s[j].1))
}

spec fn contained(a: Seq<SpanTriple>, b: Seq<SpanTriple>) -> bool {
    forall|i: int| #![trigger a[i]] 0 <= i < a.len() ==> in_seq(b, a[i])
}

spec fn in_seq(b: Seq<SpanTriple>, x: SpanTriple) -> bool {
    exists|j: int| 0 <= j < b.len() && b[j] == x
}

proof fn lemma_sorted_last_equal(s1: Seq<SpanTriple>, s2: Seq<SpanTriple>)
    requires
        s1.len() > 0,
        s2.len() > 0,
        strictly_sorted(s1),
        strictly_sorted(s2),
        contained(s1, s2),
        contained(s2, s1),
    ensures
        s1.last() == s2.last(),
{
    let n1 = s1.len() - 1;
    let n2 = s2.len() - 1;
    assert(s1[n1] == s1[n1]);
    assert(s2[n2] == s2[n2]);
    assert(in_seq(s2, s1[n1]));
    assert(in_seq(s1, s2[n2]));
    let j = choose|j: int| 0 <= j < s2.len() && s2[j] == s1[n1];
    let i = choose|i: int| 0 <= i < s1.len() && s1[i] == s2[n2];
    if j < n2 {
        if i < n1 {
            assert(key_before((s1[i].0, s1[i].1), (s1[n1].0, s1[n1].1)));
        }
        assert(key_before((s2[j].0, s2[j].1), (s2[n2].0, s2[n2].1)));
        assert(false);
    }
}

proof fn lemma_sorted_drop_last(s1: Seq<SpanTriple>, s2: Seq<SpanTriple>)
    requires
        s1.len() > 0,
        s2.len() > 0,
        strictly_sorted(s1),
        strictly_sorted(s2),
        contained(s1, s2),
        s1.last() == s2.last(),
    ensures
        strictly_sorted(s1.drop_last()),
        contained(s1.drop_last(), s2.drop_last()),
{
    let n1 = s1.len() - 1;
    let n2 = s2.len() - 1;
    let d1 = s1.drop_last();
    let d2 = s2.drop_last();
    assert forall|a: int| #![trigger d1[a]] 0 <= a < d1.len() implies in_seq(d2, d1[a]) by {
        assert(s1[a] == d1[a]);
        assert(in_seq(s2, s1[a]));
        let b = choose|b: int| 0 <= b < s2.len() && s2[b] == s1[a];
        if b == n2 {
            assert(key_before((s1[a].0, s1[a].1), (s1[n1].0, s1[n1].1)));
        }
        assert(d2[b] == s2[b]);
    }
    assert forall|a: int, b: int| #![trigger d1[a], d1[b]] 0 <= a < b < d1.len() implies key_before(
        (d1[a].0, d1[a].1),
        (d1[b].0, d1[b].1),
    ) by {
        assert(s1[a] == d1[a] && s1[b] == d1[b]);
    }
}

proof fn lemma_sorted_same_elements(s1: Seq<SpanTriple>, s2: Seq<SpanTriple>)
    requires
        strictly_sorted(s1),
        strictly_sorted(s2),
        contained(s1, s2),
        contained(s2, s1),
    ensures
        s1 == s2,
    decreases s1.len() + s2.len(),
{
    if s1.len() == 0 && s2.len() == 0 {
        assert(s1 =~= s2);
    } else if s1.len() == 0 {
        assert(in_seq(s1, s2[0]));
    } else if s2.len() == 0 {
        assert(in_seq(s2, s1[0]));
    } else {
        lemma_sorted_last_equal(s1, s2);
        lemma_sorted_drop_last(s1, s2);
        lemma_sorted_drop_last(s2, s1);
        lemma_sorted_same_elements(s1.drop_last(), s2.drop_last());
        assert(s1 =~= s1.drop_last().push(s1.last()));
        assert(s2 =~= s2.drop_last().push(s2.last()));
    }
}

proof fn lemma_sorted_kept_contained(raws: Seq<RawHighlightSpan>, s1: Seq<SpanTriple>, s2: Seq<SpanTriple>)
    requires
        sorted_kept(raws, s1),
        sorted_kept(raws, s2),
    ensures
        contained(s1, s2),
{
    assert forall|i: int| #![trigger s1[i]] 0 <= i < s1.len() implies in_seq(s2, s1[i]) by {
        let x = s1[i];
        assert(kept_tag(raws, x.0, x.1) == Some(x.2));
        lemma_winner_source(raws, x.0, x.1);
        let k = choose|k: int| 0 <= k < raws.len() && #[trigger] raws[k].start == x.0 && raws[k].end == x.1;
        assert(raws[k] == raws[k]);
        let j = choose|j: int| 0 <= j < s2.len() && s2[j].0 == raws[k].start && s2[j].1 == raws[k].end;
        assert(s2[j] == s2[j]);
    }
    assert(contained(s1, s2));
}

/// Two listings of the kept ranges in range order are the same listing, so
/// the spans `normalize_spans` returns are fixed by the captures alone.
pub proof fn lemma_sorted_kept_unique(raws: Seq<RawHighlightSpan>, s1: Seq<SpanTriple>, s2: Seq<SpanTriple>)
    requires
        sorted_kept(raws, s1),
        sorted_kept(raws, s2),
    ensures
        s1 == s2,
{
    lemma_sorted_kept_contained(raws, s1, s2);
    lemma_sorted_kept_contained(raws, s2, s1);
    assert(strictly_sorted(s1));
    assert(strictly_sorted(s2));
    lemma_sorted_same_elements(s1, s2);
}


/// A span's range and the text of its tag.
pub type TripleView = (u32, u32, Seq<char>);

/// The ranges and tag texts of a sequence of spans.
pub open spec fn triple_views(s: Seq<SpanTriple>) -> Seq<TripleView> {
    s.map_values(|t: SpanTriple| (t.0, t.1, t.2@))
}

/// The text of a tag, if any.
pub open spec fn tag_view(t: Option<&'static str>) -> Option<Seq<char>> {
    match t {
        Some(s) => Some(s@),
        None => None,
    }
}

/// Two lists of captures that differ at most in which string holds each
/// tag: ranges, pattern indices and tag texts agree.
pub open spec fn raws_alike(a: Seq<RawHighlightSpan>, b: Seq<RawHighlightSpan>) -> bool {
    &&& a.len() == b.len()
    &&& forall|i: int|
        #![trigger a[i], b[i]]
        0 <= i < a.len() ==> {
            &&& a[i].start == b[i].start
            &&& a[i].end == b[i].end
            &&& a[i].pattern_index == b[i].pattern_index
            &&& tag_view(a[i].tag) == tag_view(b[i].tag)
        }
}

proof fn lemma_winner_alike(a: Seq<RawHighlightSpan>, b: Seq<RawHighlightSpan>, start: u32, end: u32)
    requires
        raws_alike(a, b),
    ensures
        winner(a, start, end) is Some <==> winner(b, start, end) is Some,
        winner(a, start, end) matches Some(x) ==> winner(b, start, end) matches Some(y) && x.start
            == y.start && x.end == y.end && x.pattern_index == y.pattern_index && tag_view(x.tag)
            == tag_view(y.tag),
    decreases a.len(),
{
    if a.len() > 0 {
        let da = a.drop_last();
        let db = b.drop_last();
        assert forall|i: int| #![trigger da[i], db[i]] 0 <= i < da.len() implies {
            &&& da[i].start == db[i].start
            &&& da[i].end == db[i].end
            &&& da[i].pattern_index == db[i].pattern_index
            &&& tag_view(da[i].tag) == tag_view(db[i].tag)
        } by {
            assert(da[i] == a[i] && db[i] == b[i]);
        }
        lemma_winner_alike(da, db, start, end);
        assert(a.last() == a[a.len() - 1] && b.last() == b[b.len() - 1]);
    }
}

/// Listings of the kept ranges of alike captures agree in ranges and tag
/// texts.
proof fn lemma_sorted_kept_alike(
    a: Seq<RawHighlightSpan>,
    b: Seq<RawHighlightSpan>,
    s1: Seq<SpanTriple>,
    s2: Seq<SpanTriple>,
)
    requires
        raws_alike(a, b),
        sorted_kept(a, s1),
        sorted_kept(b, s2),
    ensures
        triple_views(s1) == triple_views(s2),
{
    let s3 = Seq::new(
        s2.len(),
        |i: int| (s2[i].0, s2[i].1, winner(a, s2[i].0, s2[i].1)->Some_0.tag->Some_0),
    );
    assert forall|i: int| #![trigger s3[i]] 0 <= i < s3.len() implies kept_tag(a, s3[i].0, s3[i].1)
        == Some(s3[i].2) && tag_view(kept_tag(a, s3[i].0, s3[i].1)) == Some(s2[i].2@) by {
        assert(kept_tag(b, s2[i].0, s2[i].1) == Some(s2[i].2));
        lemma_winner_alike(a, b, s2[i].0, s2[i].1);
    }
    assert forall|i: int, j: int| #![trigger s3[i], s3[j]] 0 <= i < j < s3.len() implies key_before(
        (s3[i].0, s3[i].1),
        (s3[j].0, s3[j].1),
    ) by {
        assert(key_before((s2[i].0, s2[i].1), (s2[j].0, s2[j].1)));
    }
    assert forall|k: int|
        #![trigger a[k]]
        0 <= k < a.len() && kept_tag(a, a[k].start, a[k].end) is Some implies exists|i: int|
            0 <= i < s3.len() && s3[i].0 == a[k].start && s3[i].1 == a[k].end by {
        assert(a[k].start == b[k].start && a[k].end == b[k].end);
        lemma_winner_alike(a, b, a[k].start, a[k].end);
        assert(kept_tag(b, b[k].start, b[k].end) is Some);
        let i = choose|i: int| 0 <= i < s2.len() && s2[i].0 == b[k].start && s2[i].1 == b[k].end;
        assert(s3[i].0 == a[k].start && s3[i].1 == a[k].end);
    }
    assert(sorted_kept(a, s3));
    lemma_sorted_kept_unique(a, s1, s3);
    assert forall|i: int| 0 <= i < s1.len() implies #[trigger] triple_views(s1)[i] == triple_views(s2)[i] by {
        assert(s1[i] == s3[i]);
    }
    assert(triple_views(s1) =~= triple_views(s2));
}

/// Coalescing depends only on the ranges and tag texts of the spans.
proof fn lemma_coalesce_views(s: Seq<SpanTriple>, t: Seq<SpanTriple>)
    requires
        triple_views(s) == triple_views(t),
    ensures
        triple_views(coalesce(s)) == triple_views(coalesce(t)),
    decreases s.len(),
{
    assert(s.len() == triple_views(s).len() && t.len() == triple_views(t).len());
    if s.len() > 0 {
        let ds = s.drop_last();
        let dt = t.drop_last();
        assert forall|i: int| 0 <= i < ds.len() implies #[trigger] triple_views(ds)[i] == triple_views(dt)[i] by {
            assert(triple_views(s)[i] == triple_views(t)[i]);
        }
        assert(triple_views(ds) =~= triple_views(dt));
        lemma_coalesce_views(ds, dt);
        let cs = coalesce(ds);
        let ct = coalesce(dt);
        assert(cs.len() == triple_views(cs).len() && ct.len() == triple_views(ct).len());
        assert(triple_views(s)[s.len() - 1] == triple_views(t)[t.len() - 1]);
        if cs.len() > 0 {
            assert(triple_views(cs)[cs.len() - 1] == triple_views(ct)[ct.len() - 1]);
        }
        let rs = coalesce(s);
        let rt = coalesce(t);
        assert forall|i: int| 0 <= i < rs.len() implies #[trigger] triple_views(rs)[i] == triple_views(rt)[i] by {
            if i < cs.len() {
                assert(triple_views(cs)[i] == triple_views(ct)[i]);
            }
        }
        assert(triple_views(rs) =~= triple_views(rt));
    }
}

/// Spans normalised from alike captures agree in ranges and tag texts.
pub proof fn lemma_normal_form_alike(
    a: Seq<RawHighlightSpan>,
    b: Seq<RawHighlightSpan>,
    s1: Seq<SpanTriple>,
    s2: Seq<SpanTriple>,
)
    requires
        raws_alike(a, b),
        sorted_kept(a, s1),
        sorted_kept(b, s2),
    ensures
        triple_views(coalesce(s1)) == triple_views(coalesce(s2)),
{
    lemma_sorted_kept_alike(a, b, s1, s2);
    lemma_coalesce_views(s1, s2);
}

} // verus!
