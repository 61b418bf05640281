//! What a highlighted code block renders: the container's classes and
//! language, the theme stylesheets it needs, and one span per segment of
//! the source, with `a-{tag}` as the class of each highlighted one.

use vstd::prelude::*;
use vstd::string::*;
use vstd::utf8::*;

use crate::highlight::{segment_content, segments_match, segments_spec};
use crate::language::slug_of;
use crate::source::{HighlightedSource, lemma_trimmed_len, trimmed_len};
use crate::theme::{CodeTheme, ThemeSelection, ThemeStylesheet, selection_classes, theme_class,
    system_light_class, system_dark_class};

verus! {

/// Props of a highlighted token.
#[derive(Debug, Clone, PartialEq, Eq)]
pub struct TokenSpanProps {
    /// The literal text rendered inside the span.
    pub text: String,
    /// Highlight tag, the suffix of the span's class name.
    pub tag: &'static str,
}

/// One rendered span: its class, when it is highlighted, and its text.
#[derive(Debug, Clone, PartialEq, Eq)]
pub struct SpanMarkup {
    /// The span's class: `a-` and the highlight tag.
    pub class: Option<String>,
    /// The text inside the span.
    pub text: String,
}

/// The class of a token highlighted with `tag`.
pub open spec fn tag_class(tag: Seq<char>) -> Seq<char> {
    "a-"@ + tag
}

/// The class a segment's tag gives its span, if any.
pub open spec fn class_for_tag(tag: Option<&'static str>, class: Option<String>) -> bool {
    match tag {
        Some(t) => class matches Some(c) && c@ == tag_class(t@),
        None => class is None,
    }
}

fn tag_class_string(tag: &'static str) -> (r: String)
    ensures
        r@ == tag_class(tag@),
{
    let mut class = String::from_str("a-");
    class.append(tag);
    class
}

/// One highlighted token: `<span class="a-{tag}">{text}</span>`.
#[allow(non_snake_case)]
pub fn TokenSpan(props: TokenSpanProps) -> (r: SpanMarkup)
    ensures
        class_for_tag(Some(props.tag), r.class),
        r.text@ == props.text@,
{
    SpanMarkup { class: Some(tag_class_string(props.tag)), text: props.text }
}

/// Props of a highlighted code block.
#[derive(Debug, Clone, PartialEq, Eq)]
pub struct CodeProps {
    /// The source to render.
    pub src: HighlightedSource,
    /// The syntax theme selection.
    pub theme: CodeTheme,
}

/// What a highlighted code block renders.
#[derive(Debug, Clone, PartialEq, Eq)]
pub struct CodeMarkup {
    /// The classes of the `pre` container.
    pub class: String,
    /// The slug of the source's language, for `data-language`.
    pub language: &'static str,
    /// The theme stylesheets the block needs, besides the shared one.
    pub stylesheets: Vec<ThemeStylesheet>,
    /// The spans inside the `code` element, in order.
    pub spans: Vec<SpanMarkup>,
}

/// `spans` render the segments `ranges` of `source`: same number, each
/// with the segment's text and the class its tag gives.
pub open spec fn spans_render(
    source: Seq<u8>,
    ranges: Seq<(int, int, Option<&'static str>)>,
    spans: Seq<SpanMarkup>,
) -> bool {
    &&& spans.len() == ranges.len()
    &&& forall|k: int|
        #![trigger spans[k]]
        0 <= k < spans.len() ==> {
            &&& encode_utf8(spans[k].text@) == source.subrange(ranges[k].0, ranges[k].1)
            &&& class_for_tag(ranges[k].2, spans[k].class)
        }
}

/// The stylesheets a selection needs, by their classes.
pub open spec fn stylesheets_for(selection: ThemeSelection, sheets: Seq<ThemeStylesheet>) -> bool {
    match selection {
        ThemeSelection::Fixed(theme) => sheets.len() == 1 && sheets[0].class@ == theme_class(theme),
        ThemeSelection::System { light, dark } => {
            &&& sheets.len() == 2
            &&& sheets[0].class@ == system_light_class(light)
            &&& sheets[1].class@ == system_dark_class(dark)
        },
    }
}

/// Render highlighted source: the container gets `dxc` and the theme's
/// classes, and the source, its trailing newlines left out, becomes one
/// span per segment.
#[allow(non_snake_case)]
pub fn Code(props: CodeProps) -> (r: CodeMarkup)
    requires
        props.src.spans_fit(),
    ensures
        r.class@ == "dxc "@ + selection_classes(props.theme@),
        r.language@ == slug_of(props.src.spec_language()),
        stylesheets_for(props.theme@, r.stylesheets@),
        spans_render(
            props.src.source_bytes(),
            segments_spec(props.src.spec_spans(), trimmed_len(props.src.source_bytes())),
            r.spans@,
        ),
{
    let segments = props.src.trimmed_segments();
    let ghost bytes = props.src.source_bytes();
    let ghost cut = trimmed_len(bytes);
    let ghost ranges = segments_spec(props.src.spec_spans(), cut);
    proof {
        lemma_trimmed_len(bytes);
    }
    let mut spans: Vec<SpanMarkup> = Vec::new();
    let mut k: usize = 0;
    while k < segments.len()
        invariant
            0 <= k <= segments@.len(),
            segments@.len() == ranges.len(),
            0 <= cut <= bytes.len(),
            segments_match(bytes.take(cut), ranges, segments@),
            spans@.len() == k,
            forall|j: int|
                #![trigger spans@[j]]
                0 <= j < k ==> {
                    &&& encode_utf8(spans@[j].text@) == bytes.take(cut).subrange(
                        ranges[j].0,
                        ranges[j].1,
                    )
                    &&& class_for_tag(ranges[j].2, spans@[j].class)
                },
        decreases segments@.len() - k,
    {
        let segment = segments[k];
        proof {
            assert(segment_content(segments@[k as int]) == (
                bytes.take(cut).subrange(ranges[k as int].0, ranges[k as int].1),
                ranges[k as int].2,
            ));
        }
        let text = String::from_str(segment.text());
        let class = match segment.tag() {
            Some(tag) => Some(tag_class_string(tag)),
            None => None,
        };
        spans.push(SpanMarkup { class, text });
        k = k + 1;
    }
    proof {
        crate::highlight::lemma_segments_spec_within(props.src.spec_spans(), cut);
        assert forall|j: int| #![trigger spans@[j]] 0 <= j < spans@.len() implies encode_utf8(
            spans@[j].text@,
        ) == bytes.subrange(ranges[j].0, ranges[j].1) by {
            assert(bytes.take(cut).subrange(ranges[j].0, ranges[j].1) =~= bytes.subrange(
                ranges[j].0,
                ranges[j].1,
            ));
        }
    }
    let class = {
        let mut class = String::from_str("dxc ");
        let classes = props.theme.classes();
        class.append(classes.as_str());
        class
    };
    CodeMarkup {
        class,
        language: props.src.language().slug(),
        stylesheets: props.theme.stylesheets(),
        spans,
    }
}

} // verus!
