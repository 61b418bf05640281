use dioxus_code::advanced::{HighlightSegment, HighlightSpan, HighlightedSource};
use dioxus_code::highlight::{highlighted_lines, highlighted_segments, push_line_segments};
use dioxus_code::{Language, SourceCode};

fn leak(spans: Vec<HighlightSpan>) -> &'static [HighlightSpan] {
    Box::leak(spans.into_boxed_slice())
}

#[test]
fn plaintext_is_escaped() {
    assert_eq!(
        HighlightedSource::from_static_parts("<script>alert(1)</script>", Language::Rust, &[])
            .segments(),
        vec![HighlightSegment::new("<script>alert(1)</script>", None)]
    );
}

#[test]
fn highlighted_lines_preserve_trailing_empty_line() {
    let source = HighlightedSource::from_static_parts("let x = 1;\n", Language::Rust, &[]);
    let lines = source.lines();
    assert_eq!(lines.len(), 2);
    assert_eq!(lines[0], vec![HighlightSegment::new("let x = 1;", None)]);
    assert!(lines[1].is_empty());
}

#[test]
fn lines_preserve_trailing_empty_line() {
    let source = HighlightedSource::from_static_parts("let x = 1;\n", Language::Rust, &[]);
    let lines = source.lines();
    assert_eq!(lines.len(), 2);
    assert_eq!(lines[0], vec![HighlightSegment::new("let x = 1;", None)]);
    assert!(lines[1].is_empty());
}

#[test]
fn runtime_source_code_highlights() {
    let tree: HighlightedSource = SourceCode::new(Language::Rust, "fn main() {}").into();
    assert_eq!(tree.language(), Language::Rust);
    assert!(tree.spans().iter().any(|span| {
        span.tag() == "k" && &tree.source()[span.start() as usize..span.end() as usize] == "fn"
    }));
}

#[test]
fn static_parts_keep_source_language_and_spans() {
    let spans = leak(vec![HighlightSpan::new(0..2, "k")]);
    let src = HighlightedSource::from_static_parts("fn main() {}", Language::Rust, spans);
    assert_eq!(src.source(), "fn main() {}");
    assert_eq!(src.language(), Language::Rust);
    assert_eq!(src.error(), None);
    assert_eq!(src.spans().len(), 1);
    assert_eq!(
        src.segments(),
        vec![
            HighlightSegment::new("fn", Some("k")),
            HighlightSegment::new(" main() {}", None),
        ]
    );
}

#[test]
fn span_accessors_report_their_parts() {
    let span = HighlightSpan::from_offsets(3, 7, "f");
    assert_eq!(span.start(), 3);
    assert_eq!(span.end(), 7);
    assert_eq!(span.range(), 3..7);
    assert_eq!(span.tag(), "f");
    assert_eq!(HighlightSpan::new(1..4, "s"), HighlightSpan::from_offsets(1, 4, "s"));
    let segment = HighlightSegment::new("abc", Some("k"));
    assert_eq!(segment.text(), "abc");
    assert_eq!(segment.tag(), Some("k"));
}

#[test]
fn nested_spans_take_the_innermost_tag() {
    let spans = vec![HighlightSpan::new(0..6, "a"), HighlightSpan::new(2..4, "b")];
    assert_eq!(
        highlighted_segments("abcdef", &spans),
        vec![
            HighlightSegment::new("ab", Some("a")),
            HighlightSegment::new("cd", Some("b")),
            HighlightSegment::new("ef", Some("a")),
        ]
    );
}

#[test]
fn gaps_between_spans_are_untagged() {
    let spans = vec![HighlightSpan::new(1..2, "a"), HighlightSpan::new(4..5, "b")];
    assert_eq!(
        highlighted_segments("abcdef", &spans),
        vec![
            HighlightSegment::new("a", None),
            HighlightSegment::new("b", Some("a")),
            HighlightSegment::new("cd", None),
            HighlightSegment::new("e", Some("b")),
            HighlightSegment::new("f", None),
        ]
    );
}

#[test]
fn spans_past_the_end_are_cut_at_the_end() {
    let spans = vec![HighlightSpan::new(2..40, "c")];
    assert_eq!(
        highlighted_segments("abcd", &spans),
        vec![HighlightSegment::new("ab", None), HighlightSegment::new("cd", Some("c"))]
    );
}

#[test]
fn empty_spans_cover_no_byte() {
    let spans = vec![HighlightSpan::new(1..1, "k")];
    let segments = highlighted_segments("abcd", &spans);
    assert_eq!(segments.iter().map(|s| s.text()).collect::<String>(), "abcd");
    assert!(segments.iter().all(|s| s.tag().is_none()));
}

#[test]
fn trimmed_segments_keep_spans_that_run_into_the_trailing_newline() {
    let spans = leak(vec![HighlightSpan::new(0..6, "c")]);
    let h = HighlightedSource::from_static_parts("// hi\n", Language::Rust, spans);
    assert_eq!(h.trimmed_segments(), vec![HighlightSegment::new("// hi", Some("c"))]);
}

#[test]
fn empty_source_has_no_segments_when_spans_exist() {
    let spans = vec![HighlightSpan::new(0..0, "k")];
    assert_eq!(highlighted_segments("", &spans), vec![]);
    assert_eq!(highlighted_segments("", &[]), vec![HighlightSegment::new("", None)]);
}

#[test]
fn lines_split_segments_at_newlines() {
    let spans = vec![HighlightSpan::new(0..5, "s")];
    let lines = highlighted_lines("ab\ncd\n\ne", &spans);
    assert_eq!(lines.len(), 4);
    assert_eq!(lines[0], vec![HighlightSegment::new("ab", Some("s"))]);
    assert_eq!(lines[1], vec![HighlightSegment::new("cd", Some("s"))]);
    assert!(lines[2].is_empty());
    assert_eq!(lines[3], vec![HighlightSegment::new("e", None)]);
}

#[test]
fn push_line_segments_opens_a_line_per_newline() {
    let mut lines = vec![Vec::new()];
    push_line_segments(&mut lines, HighlightSegment::new("x\n\ny", Some("k")));
    assert_eq!(lines.len(), 3);
    assert_eq!(lines[0], vec![HighlightSegment::new("x", Some("k"))]);
    assert!(lines[1].is_empty());
    assert_eq!(lines[2], vec![HighlightSegment::new("y", Some("k"))]);
}

#[test]
fn trimmed_segments_leave_out_trailing_newlines() {
    let spans = leak(vec![HighlightSpan::new(0..2, "k")]);
    let src = HighlightedSource::from_static_parts("fn\n\n", Language::Rust, spans);
    assert_eq!(src.trimmed_segments(), vec![HighlightSegment::new("fn", Some("k"))]);
}

#[test]
fn span_boundaries_are_checked() {
    let good = leak(vec![HighlightSpan::new(0..1, "k"), HighlightSpan::new(3..9, "s")]);
    assert!(HighlightedSource::from_static_parts("aé", Language::Rust, good).spans_fit_source());
    let bad = leak(vec![HighlightSpan::new(0..2, "k")]);
    assert!(!HighlightedSource::from_static_parts("aé", Language::Rust, bad).spans_fit_source());
}

#[test]
fn segments_join_back_to_the_source() {
    let spans = vec![
        HighlightSpan::new(0..3, "k"),
        HighlightSpan::new(2..8, "s"),
        HighlightSpan::new(5..6, "f"),
        HighlightSpan::new(10..12, "c"),
    ];
    let source = "fn main() { x }";
    let joined: String = highlighted_segments(source, &spans)
        .iter()
        .map(|s| s.text())
        .collect();
    assert_eq!(joined, source);
}

/// Segmentation by its definition: the source is cut at every span offset
/// inside it, and each piece takes the tag of the span that covers it and
/// ranks highest (latest start, then earliest end, then latest in the list).
fn covering_segments<'a>(source: &'a str, spans: &[HighlightSpan]) -> Vec<HighlightSegment<'a>> {
    if spans.is_empty() {
        return vec![HighlightSegment::new(source, None)];
    }
    let len = source.len() as u32;
    let mut cuts: Vec<u32> = vec![0, len];
    for span in spans {
        for p in [span.start(), span.end()] {
            if p > 0 && p < len {
                cuts.push(p);
            }
        }
    }
    cuts.sort();
    cuts.dedup();
    let mut segments = Vec::new();
    for pair in cuts.windows(2) {
        let (lo, hi) = (pair[0], pair[1]);
        let mut best: Option<usize> = None;
        for (i, span) in spans.iter().enumerate() {
            if span.start() < hi && span.end() >= hi {
                let better = match best {
                    None => true,
                    Some(b) => {
                        let o = spans[b];
                        span.start() > o.start() || (span.start() == o.start() && span.end() <= o.end())
                    }
                };
                if better {
                    best = Some(i);
                }
            }
        }
        segments.push(HighlightSegment::new(
            &source[lo as usize..hi as usize],
            best.map(|b| spans[b].tag()),
        ));
    }
    segments
}

#[test]
fn segments_agree_with_covering_spans_on_nested_spans() {
    let tags = ["a", "b", "c", "d"];
    let source = "0123456789abcdef";
    let mut seed: u64 = 0x2545_f491_4f6c_dd1d;
    let mut next = |bound: u64| {
        seed = seed.wrapping_mul(6364136223846793005).wrapping_add(1442695040888963407);
        (seed >> 33) % bound
    };
    for _ in 0..2000 {
        let count = next(5) as usize;
        let mut spans = Vec::new();
        // Properly nested or disjoint spans, as a grammar reports them.
        let mut open: Vec<u32> = Vec::new();
        let mut pos = 0u32;
        while spans.len() < count && pos < 16 {
            pos += next(3) as u32;
            if !open.is_empty() && next(2) == 0 {
                let start = open.pop().unwrap();
                if pos >= start {
                    spans.push(HighlightSpan::new(start..pos, tags[next(4) as usize]));
                }
            } else {
                open.push(pos);
            }
        }
        while let Some(start) = open.pop() {
            pos += next(2) as u32;
            spans.push(HighlightSpan::new(start..pos, tags[next(4) as usize]));
        }
        assert_eq!(
            highlighted_segments(source, &spans),
            covering_segments(source, &spans),
            "spans: {:?}",
            spans
        );
    }
}

#[test]
fn segments_agree_with_covering_spans_on_any_spans() {
    let tags = ["a", "b", "c"];
    let source = "0123456789";
    let mut seed: u64 = 0x9e37_79b9_7f4a_7c15;
    let mut next = |bound: u64| {
        seed = seed.wrapping_mul(6364136223846793005).wrapping_add(1442695040888963407);
        (seed >> 33) % bound
    };
    for _ in 0..5000 {
        let count = next(5) as usize;
        let mut spans = Vec::new();
        for _ in 0..count {
            let start = next(12) as u32;
            let end = start + next(6) as u32;
            spans.push(HighlightSpan::new(start..end, tags[next(3) as usize]));
        }
        assert_eq!(
            highlighted_segments(source, &spans),
            covering_segments(source, &spans),
            "spans: {:?}",
            spans
        );
    }
}

#[test]
fn segments_do_not_depend_on_span_order() {
    let spans = vec![
        HighlightSpan::new(0..2, "k"),
        HighlightSpan::new(1..5, "s"),
        HighlightSpan::new(3..4, "n"),
    ];
    let mut reversed = spans.clone();
    reversed.reverse();
    assert_eq!(highlighted_segments("abcdefg", &spans), highlighted_segments("abcdefg", &reversed));
}
