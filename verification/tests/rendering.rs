use dioxus_code::advanced::{HighlightSpan, HighlightedSource, SpanMarkup, TokenSpan, TokenSpanProps};
use dioxus_code::{Code, CodeProps, CodeTheme, Language, Theme};

#[test]
fn token_spans_are_classed_by_tag() {
    assert_eq!(
        TokenSpan(TokenSpanProps { text: "fn".to_string(), tag: "k" }),
        SpanMarkup { class: Some("a-k".to_string()), text: "fn".to_string() }
    );
}

#[test]
fn code_renders_segments_inside_a_themed_container() {
    let spans: &'static [HighlightSpan] = Box::leak(vec![HighlightSpan::new(0..2, "k")].into_boxed_slice());
    let src = HighlightedSource::from_static_parts("fn main() {}\n\n", Language::Rust, spans);
    let markup = Code(CodeProps { src, theme: CodeTheme::fixed(Theme::TOKYO_NIGHT) });
    assert_eq!(markup.class, "dxc dxc-tokyo-night");
    assert_eq!(markup.language, "rust");
    assert_eq!(markup.stylesheets.len(), 1);
    assert_eq!(markup.stylesheets[0].file, "tokyo-night.css");
    assert_eq!(
        markup.spans,
        vec![
            SpanMarkup { class: Some("a-k".to_string()), text: "fn".to_string() },
            SpanMarkup { class: None, text: " main() {}".to_string() },
        ]
    );
}

#[test]
fn system_themes_render_both_slots() {
    let src = HighlightedSource::from_static_parts("x", Language::Rust, &[]);
    let markup = Code(CodeProps {
        src,
        theme: CodeTheme::system(Theme::GITHUB_LIGHT, Theme::TOKYO_NIGHT),
    });
    assert_eq!(
        markup.class,
        "dxc dxc-system dxc-system-light-github-light dxc-system-dark-tokyo-night"
    );
    assert_eq!(markup.stylesheets.len(), 2);
    assert_eq!(markup.spans, vec![SpanMarkup { class: None, text: "x".to_string() }]);
}
