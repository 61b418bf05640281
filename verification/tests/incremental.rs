use dioxus_code::advanced::{HighlightedSource, IncrementalHighlighter, SourceEdit};
use dioxus_code::incremental::grammar_for;
use dioxus_code::{Language, SourceCode};

fn keyword_ranges(hl: &HighlightedSource) -> Vec<(u32, u32, &'static str)> {
    hl.spans().iter().map(|s| (s.start(), s.end(), s.tag())).collect()
}

fn batch(source: &str) -> HighlightedSource {
    SourceCode::new(Language::Rust, source).into()
}

#[test]
fn first_parse_matches_batch_path() {
    let mut hl = IncrementalHighlighter::new();
    let source = "fn main() { let x = 1; }";
    let inc = hl.highlight(source, None, Some("rust"));
    let batch = batch(source);

    assert_eq!(inc.language(), Language::Rust);
    assert_eq!(inc.error(), None);
    assert_eq!(keyword_ranges(&inc), keyword_ranges(&batch));
}

#[test]
fn incremental_edit_with_explicit_source_edit() {
    let mut hl = IncrementalHighlighter::new();
    let first = "fn main() { let x = 1; }";
    let _ = hl.highlight(first, None, Some("rust"));

    let second = "fn main() { let x = 12; }";
    let edit = SourceEdit { start_byte: 21, old_end_byte: 21, new_end_byte: 22 };
    let inc = hl.highlight(second, Some(edit), Some("rust"));

    assert_eq!(keyword_ranges(&inc), keyword_ranges(&batch(second)));
}

#[test]
fn malformed_edit_falls_back_to_full_parse() {
    let mut hl = IncrementalHighlighter::new();
    let first = "fn main() { let x = 1; }";
    let _ = hl.highlight(first, None, Some("rust"));

    let second = "fn main() { let x = 12; }";
    let edit = SourceEdit { start_byte: 21, old_end_byte: 999, new_end_byte: 22 };
    let inc = hl.highlight(second, Some(edit), Some("rust"));
    assert_eq!(keyword_ranges(&inc), keyword_ranges(&batch(second)));
}

#[test]
fn missing_edit_falls_back_to_full_parse() {
    let mut hl = IncrementalHighlighter::new();
    let _ = hl.highlight("fn main() { 1 }", None, Some("rust"));

    let updated = "fn main() { 2 }";
    let inc = hl.highlight(updated, None, Some("rust"));
    assert_eq!(keyword_ranges(&inc), keyword_ranges(&batch(updated)));
}

#[test]
fn unchanged_source_returns_cached_spans() {
    let mut hl = IncrementalHighlighter::new();
    let source = "fn main() {}";
    let first = hl.highlight(source, None, Some("rust"));
    let second = hl.highlight(source, None, Some("rust"));
    assert_eq!(first.spans(), second.spans());
}

#[test]
fn language_switch_resets_state() {
    let mut hl = IncrementalHighlighter::new();
    let _ = hl.highlight("fn main() {}", None, Some("rust"));
    let result = hl.highlight("hello", None, Some("definitely-not-a-real-language"));
    assert_eq!(result.source(), "hello");

    let after = hl.highlight("fn x() {}", None, Some("rust"));
    assert_eq!(after.language(), Language::Rust);
    assert!(after
        .spans()
        .iter()
        .any(|s| &after.source()[s.start() as usize..s.end() as usize] == "fn"));
}

#[test]
fn unknown_slugs_fall_back_to_detection() {
    let mut hl = IncrementalHighlighter::default();
    let result = hl.highlight("hello", None, Some("definitely-not-a-real-language"));
    assert_eq!(result.error(), Some("could not detect language"));
    assert!(result.spans().is_empty());
    assert_eq!(result.language(), Language::Auto);

    let empty = hl.highlight("main.rs", None, Some(""));
    let detected = IncrementalHighlighter::new().highlight("main.rs", None, None);
    assert_eq!(empty.language(), Language::Rust);
    assert_eq!(empty.spans(), detected.spans());
    assert_eq!(empty.error(), None);
}

#[test]
fn grammars_that_are_not_built_in_are_unsupported() {
    let mut hl = IncrementalHighlighter::new();
    let result = hl.highlight("a = 1", None, Some("toml"));
    assert_eq!(result.error(), Some("unsupported language: toml"));
    assert!(result.spans().is_empty());
    assert_eq!(result.source(), "a = 1");
}

#[test]
fn undetected_languages_report_it() {
    let mut hl = IncrementalHighlighter::new();
    let result = hl.highlight("hello there", None, None);
    assert_eq!(result.error(), Some("could not detect language"));
    assert_eq!(result.source(), "hello there");
}

#[test]
fn python_parses_incrementally_too() {
    let mut hl = IncrementalHighlighter::new();
    let source = "def f():\n    return 1\n";
    let inc = hl.highlight(source, None, Some("python"));
    let batch: HighlightedSource = SourceCode::new(Language::Python, source).into();
    assert_eq!(inc.language(), Language::Python);
    assert_eq!(keyword_ranges(&inc), keyword_ranges(&batch));
    assert!(grammar_for("python").is_some());
    assert!(grammar_for("rust").is_some());
    assert!(grammar_for("toml").is_none());
}

#[test]
fn exact_edits_give_what_a_fresh_highlighter_gives() {
    let mut hl = IncrementalHighlighter::new();
    let _ = hl.highlight("def f():\n    return 1\n", None, Some("python"));
    let second = "def f():\n    return 10\n";
    let edit = SourceEdit { start_byte: 21, old_end_byte: 21, new_end_byte: 22 };
    let inc = hl.highlight(second, Some(edit), Some("python"));
    let fresh = IncrementalHighlighter::new().highlight(second, None, Some("python"));
    assert_eq!(inc.error(), None);
    assert_eq!(inc.spans(), fresh.spans());
}

#[test]
fn spans_end_within_the_source() {
    let mut hl = IncrementalHighlighter::new();
    let first = "fn main() { let s = \"hi\"; }";
    let _ = hl.highlight(first, None, Some("rust"));
    let second = "fn main() { let s = \"hey\"; }";
    let edit = SourceEdit { start_byte: 22, old_end_byte: 23, new_end_byte: 24 };
    let inc = hl.highlight(second, Some(edit), Some("rust"));
    assert!(!inc.spans().is_empty());
    assert!(inc.spans().iter().all(|s| s.start() <= s.end() && s.end() as usize <= second.len()));
    let fresh = IncrementalHighlighter::new().highlight(second, None, Some("rust"));
    assert_eq!(inc.spans(), fresh.spans());
}

#[test]
fn the_same_call_twice_gives_the_same_result() {
    let mut hl = IncrementalHighlighter::new();
    let source = "x = [1, 2]\n";
    let a = hl.highlight(source, None, Some("python"));
    let b = hl.highlight(source, None, Some("python"));
    assert_eq!(a, b);
    assert_eq!(a.error(), None);
}

#[test]
fn macro_bodies_are_injected_only_by_the_one_shot_highlighter() {
    // arborium's highlighter re-parses macro token trees as Rust; the
    // incremental highlighter runs the highlights query alone.
    let source = "fn main() { println!(\"{}\", x.len()); }";
    let inc = IncrementalHighlighter::new().highlight(source, None, Some("rust"));
    let one_shot = batch(source);
    assert!(one_shot.spans().iter().any(|s| (s.start(), s.end()) == (29, 32)));
    assert!(!inc.spans().iter().any(|s| (s.start(), s.end()) == (29, 32)));
}
