use std::collections::HashMap;

use dioxus_code::advanced::HighlightSpan;
use dioxus_code::highlight::highlighted_lines;
use dioxus_code::normalize::{normalize_spans, RawHighlightSpan};

/// Normalisation as the highlighter has always done it: keep the prevailing
/// capture of each range in a map, drop untagged ranges, sort, and merge
/// touching spans of one tag.
fn map_normalize(spans: Vec<RawHighlightSpan>) -> Vec<HighlightSpan> {
    let mut deduped: HashMap<(u32, u32), RawHighlightSpan> = HashMap::new();
    for span in spans {
        let key = (span.start, span.end);
        if let Some(existing) = deduped.get(&key) {
            let should_replace = match (span.tag.is_some(), existing.tag.is_some()) {
                (true, false) => true,
                (false, true) => false,
                _ => span.pattern_index >= existing.pattern_index,
            };
            if should_replace {
                deduped.insert(key, span);
            }
        } else {
            deduped.insert(key, span);
        }
    }
    let mut spans: Vec<HighlightSpan> = deduped
        .into_values()
        .filter_map(|span| Some(HighlightSpan::new(span.start..span.end, span.tag?)))
        .collect();
    spans.sort_by_key(|span| (span.start(), span.end()));
    let mut coalesced: Vec<HighlightSpan> = Vec::new();
    for span in spans {
        if let Some(last) = coalesced.last_mut() {
            if span.tag() == last.tag() && span.start() <= last.end() {
                *last = HighlightSpan::new(last.start()..last.end().max(span.end()), last.tag());
                continue;
            }
        }
        coalesced.push(span);
    }
    coalesced
}

struct Lcg(u64);

impl Lcg {
    fn next(&mut self, bound: u64) -> u64 {
        self.0 = self.0.wrapping_mul(6364136223846793005).wrapping_add(1442695040888963407);
        (self.0 >> 33) % bound
    }
}

#[test]
fn normalisation_agrees_with_the_map_based_one() {
    let tags = [None, Some("k"), Some("s"), Some("f")];
    let mut rng = Lcg(7);
    for _ in 0..3000 {
        let count = rng.next(8) as usize;
        let mut raws = Vec::new();
        for _ in 0..count {
            let start = rng.next(10) as u32;
            let end = start + rng.next(5) as u32;
            raws.push(RawHighlightSpan {
                start,
                end,
                tag: tags[rng.next(4) as usize],
                pattern_index: rng.next(4) as u32,
            });
        }
        let ours = normalize_spans(raws.clone());
        assert_eq!(ours, map_normalize(raws.clone()), "raws: {:?}", raws);
        for pair in ours.windows(2) {
            assert!(pair[0].start() <= pair[1].start());
            if pair[0].tag() == pair[1].tag() {
                assert!(pair[0].end() < pair[1].start());
            }
        }
    }
}

#[test]
fn later_patterns_and_tags_prevail() {
    let raw = |start, end, tag, pattern_index| RawHighlightSpan { start, end, tag, pattern_index };
    assert_eq!(
        normalize_spans(vec![raw(0, 2, Some("k"), 1), raw(0, 2, Some("f"), 0), raw(0, 2, None, 9)]),
        vec![HighlightSpan::new(0..2, "k")]
    );
    assert_eq!(
        normalize_spans(vec![raw(0, 2, Some("k"), 1), raw(2, 4, Some("k"), 0), raw(6, 7, Some("k"), 0)]),
        vec![HighlightSpan::new(0..4, "k"), HighlightSpan::new(6..7, "k")]
    );
    assert_eq!(normalize_spans(vec![raw(0, 2, None, 1)]), vec![]);
}

#[test]
fn lines_rejoin_to_the_source() {
    let sources = ["", "\n", "a\nb", "a\n\nb\n", "fn main() {\n    x\n}\n"];
    let spans = vec![HighlightSpan::new(0..3, "k"), HighlightSpan::new(2..6, "s")];
    for source in sources {
        let lines = highlighted_lines(source, if source.len() >= 6 { &spans } else { &[] });
        let rejoined: Vec<String> = lines
            .iter()
            .map(|line| line.iter().map(|segment| segment.text()).collect())
            .collect();
        assert_eq!(rejoined.join("\n"), source);
        assert!(lines.iter().flatten().all(|segment| !segment.text().contains('\n')));
        assert_eq!(lines.len(), 1 + source.matches('\n').count());
    }
}
