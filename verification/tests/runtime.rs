use dioxus_code::advanced::HighlightedSource;
use dioxus_code::runtime::RawCapture;
use dioxus_code::{HighlightError, Language, SourceCode};

#[test]
fn highlight_reports_spans_for_rust() {
    let highlighted = SourceCode::new(Language::Rust, "fn main() {}").highlight().unwrap();
    assert_eq!(highlighted.source(), "fn main() {}");
    assert_eq!(highlighted.language(), Language::Rust);
    assert_eq!(highlighted.error(), None);
    assert!(!highlighted.spans().is_empty());
}

#[test]
fn auto_detects_from_the_source() {
    let highlighted = SourceCode::new(Language::Auto, "use std::fmt;\nfn main() { println!(\"hi\"); }")
        .highlight()
        .unwrap();
    assert_eq!(highlighted.language(), Language::Rust);
    assert_eq!(
        SourceCode::new(Language::Auto, "").highlight(),
        Err(HighlightError::Undetected)
    );
    assert_eq!(HighlightError::Undetected.message(), "could not detect language");
}

#[test]
fn failures_fall_back_to_plain_text() {
    let plain: HighlightedSource = SourceCode::new(Language::Auto, "").into();
    assert_eq!(plain.source(), "");
    assert_eq!(plain.language(), Language::Auto);
    assert!(plain.spans().is_empty());
    assert_eq!(plain.error(), None);
}

#[test]
fn builders_set_the_language() {
    let code = SourceCode::builder("fn main() {}").with_language(Language::Rust);
    assert_eq!(code, SourceCode::new(Language::Rust, "fn main() {}"));
    assert_eq!(
        SourceCode::new(Language::Python, "x").with_language(Language::Rust),
        SourceCode::new(Language::Rust, "x")
    );
}

#[test]
fn error_messages_match_the_highlighter() {
    assert_eq!(
        HighlightError::Parse { language: "rust".to_string(), message: "boom".to_string() }
            .message(),
        "parse error for rust: boom"
    );
    assert_eq!(
        HighlightError::Query { language: "rust".to_string(), message: "bad".to_string() }
            .message(),
        "query error for rust: bad"
    );
    assert_eq!(HighlightError::Io { message: "eof".to_string() }.message(), "I/O error: eof");
}

#[test]
fn captures_are_tagged_and_normalised() {
    let capture = |start, end, name: &str, pattern_index| RawCapture {
        start,
        end,
        capture: name.to_string(),
        pattern_index,
    };
    let captures = vec![
        capture(0, 2, "keyword", 0),
        capture(0, 2, "keyword.function", 3),
        capture(3, 7, "function", 1),
        capture(8, 9, "punctuation.bracket", 2),
        capture(9, 9, "not-a-real-capture", 2),
    ];
    let h = HighlightedSource::from_captures("fn main() {}".to_string(), Language::Rust, captures);
    let tags: Vec<_> = h.spans().iter().map(|s| (s.start(), s.end(), s.tag())).collect();
    let keyword = arborium_theme::tag_for_capture("keyword.function").unwrap();
    let function = arborium_theme::tag_for_capture("function").unwrap();
    let bracket = arborium_theme::tag_for_capture("punctuation.bracket").unwrap();
    assert_eq!(tags[0], (0, 2, keyword));
    assert_eq!(tags[1], (3, 7, function));
    assert_eq!(tags[2], (8, 9, bracket));
}

#[test]
fn the_typed_and_the_lossy_paths_agree() {
    let source = "fn main() { let x = 1; }";
    let typed = SourceCode::new(Language::Rust, source).highlight().unwrap();
    let lossy: HighlightedSource = SourceCode::new(Language::Rust, source).into();
    assert_eq!(typed, lossy);
    assert!(typed.spans().iter().all(|s| s.end() as usize <= source.len()));
}
