//! Runtime highlighting: a source string and a language, highlighted with
//! the grammars that `arborium` ships.

use vstd::prelude::*;
use vstd::string::*;

use arborium::Error as ArboriumError;

use crate::highlight::HighlightSpan;
use crate::language::{Language, language_for_betlang_slug, slug_of};
use crate::normalize::{RawHighlightSpan, coalesce, normalize_spans, sorted_kept, triple_of, triples_of};
use crate::source::HighlightedSource;
use crate::edit::utf8;

verus! {

/// Why runtime highlighting failed.
#[derive(Debug, Clone, PartialEq, Eq)]
pub enum HighlightError {
    /// No grammar is available for the language.
    UnsupportedLanguage {
        /// The language that was asked for.
        language: String,
    },
    /// The source could not be parsed.
    Parse {
        /// The language being parsed.
        language: String,
        /// What went wrong.
        message: String,
    },
    /// A highlight query could not be compiled.
    Query {
        /// The language whose query failed.
        language: String,
        /// What went wrong.
        message: String,
    },
    /// Writing the output failed.
    Io {
        /// What went wrong.
        message: String,
    },
    /// Another failure, shown by its text.
    Other {
        /// What went wrong.
        message: String,
    },
    /// `Language::Auto` was asked for and no language was detected.
    Undetected,
}

/// The text an error is shown as.
pub open spec fn error_message(e: HighlightError) -> Seq<char> {
    match e {
        HighlightError::UnsupportedLanguage { language } => "unsupported language: "@ + language@,
        HighlightError::Parse { language, message } => "parse error for "@ + language@ + ": "@
            + message@,
        HighlightError::Query { language, message } => "query error for "@ + language@ + ": "@
            + message@,
        HighlightError::Io { message } => "I/O error: "@ + message@,
        HighlightError::Other { message } => message@,
        HighlightError::Undetected => "could not detect language"@,
    }
}

impl HighlightError {
    /// The text this error is shown as.
    pub fn message(&self) -> (r: String)
        ensures
            r@ == error_message(*self),
    {
        match self {
            HighlightError::UnsupportedLanguage { language } => {
                String::from_str("unsupported language: ").concat(language.as_str())
            },
            HighlightError::Parse { language, message } => {
                String::from_str("parse error for ").concat(language.as_str()).concat(": ").concat(
                    message.as_str(),
                )
            },
            HighlightError::Query { language, message } => {
                String::from_str("query error for ").concat(language.as_str()).concat(": ").concat(
                    message.as_str(),
                )
            },
            HighlightError::Io { message } => String::from_str("I/O error: ").concat(
                message.as_str(),
            ),
            HighlightError::Other { message } => String::from_str(message.as_str()),
            HighlightError::Undetected => String::from_str("could not detect language"),
        }
    }
}

/// A capture as the grammar reports it: a byte range, the capture name from
/// the highlight query, and the index of the pattern that matched.
#[derive(Debug, Clone, PartialEq, Eq)]
pub struct RawCapture {
    /// Byte offset, inclusive, where the capture starts.
    pub start: u32,
    /// Byte offset, exclusive, where the capture ends.
    pub end: u32,
    /// The capture name, for example `"keyword.function"`.
    pub capture: String,
    /// The index of the query pattern that produced the capture.
    pub pattern_index: u32,
}

/// A capture as plain values.
pub type CaptureView = (u32, u32, Seq<char>, u32);

/// The captures of a sequence as plain values.
pub open spec fn captures_view(caps: Seq<RawCapture>) -> Seq<CaptureView> {
    caps.map_values(|c: RawCapture| (c.start, c.end, c.capture@, c.pattern_index))
}

/// The tag `arborium_theme` gives a capture name, if any.
pub uninterp spec fn capture_tag(capture: Seq<char>) -> Option<Seq<char>>;

/// The captures `arborium` reports for a source in a language, or the text
/// of the error it reports.
pub uninterp spec fn arborium_captures(language: Seq<char>, source: Seq<char>) -> Result<
    Seq<CaptureView>,
    Seq<char>,
>;

/// Calls `arborium_theme::highlights::tag_for_capture`, which maps a capture
/// name to the short tag of its theme slot. The contract claims only that
/// the result depends on the name alone: it is named `capture_tag`.
#[verifier::external_body]
fn tag_for_capture(capture: &str) -> (r: Option<&'static str>)
    ensures
        match r {
            Some(t) => capture_tag(capture@) == Some(t@),
            None => capture_tag(capture@) is None,
        },
{
    arborium_theme::highlights::tag_for_capture(capture)
}

/// Calls `arborium::Highlighter::highlight_spans` on a fresh highlighter.
/// On success it hands out each span's range, capture name and pattern
/// index; on failure it turns the error into a [`HighlightError`], one
/// variant for each variant of `arborium::Error`. The contract claims that
/// the result depends on the language and the source alone (it is named
/// `arborium_captures`), and that the error's `Display` text, as
/// `arborium`'s source writes it, is the text of the returned error.
///
/// Two more facts come from `arborium`'s source. Its grammar store, after
/// mapping aliases to names, compiles only the grammars of the `lang-*`
/// features this crate enables (`rust` and `python`); any other language
/// is answered with `UnsupportedLanguage`, naming the language as asked.
/// And every span is a captured node's range in the source, or in an
/// injected range that lies inside the source, moved to its place there: it
/// ends within the source.
#[verifier::external_body]
pub(crate) fn arborium_highlight_spans(language: &str, source: &str) -> (r: Result<Vec<RawCapture>, HighlightError>)
    ensures
        match r {
            Ok(v) => {
                &&& arborium_captures(language@, source@) == Ok::<Seq<CaptureView>, Seq<char>>(captures_view(v@))
                &&& served_here(language@)
                &&& captures_end_within(captures_view(v@), utf8(source@).len() as int)
            },
            Err(e) => {
                &&& arborium_captures(language@, source@) == Err::<Seq<CaptureView>, Seq<char>>(error_message(e))
                &&& !served_here(language@) ==> unsupported_error_for(e, language@)
            },
        },
{
    match arborium::Highlighter::new().highlight_spans(language, source) {
        Ok(spans) => Ok(spans.into_iter().map(|s| RawCapture { start: s.start, end: s.end, capture: s.capture, pattern_index: s.pattern_index }).collect()),
        Err(ArboriumError::UnsupportedLanguage { language }) => Err(HighlightError::UnsupportedLanguage { language }),
        Err(ArboriumError::ParseError { language, message }) => Err(HighlightError::Parse { language, message }),
        Err(ArboriumError::QueryError { language, message }) => Err(HighlightError::Query { language, message }),
        Err(ArboriumError::Io(e)) => Err(HighlightError::Io { message: e.to_string() }),
        Err(other) => Err(HighlightError::Other { message: other.to_string() }),
    }
}

/// The language names `arborium` highlights in this build: the grammars it
/// is built with, `rust` and `python`, and the aliases its store maps to
/// them.
pub open spec fn served_here(language: Seq<char>) -> bool {
    ||| language == "rust"@
    ||| language == "rs"@
    ||| language == "python"@
    ||| language == "py"@
    ||| language == "py3"@
    ||| language == "python3"@
}

/// `e` reports `language` as unsupported.
pub open spec fn unsupported_error_for(e: HighlightError, language: Seq<char>) -> bool {
    match e {
        HighlightError::UnsupportedLanguage { language: l } => l@ == language,
        _ => false,
    }
}

/// `raws` are the captures `caps` with each capture name replaced by its tag.
pub open spec fn raws_match_captures(raws: Seq<RawHighlightSpan>, caps: Seq<CaptureView>) -> bool {
    &&& raws.len() == caps.len()
    &&& forall|i: int|
        #![trigger raws[i]]
        0 <= i < raws.len() ==> {
            &&& raws[i].start == caps[i].0
            &&& raws[i].end == caps[i].1
            &&& raws[i].pattern_index == caps[i].3
            &&& match raws[i].tag {
                Some(t) => capture_tag(caps[i].2) == Some(t@),
                None => capture_tag(caps[i].2) is None,
            }
        }
}

/// `spans` are the captures `caps`, tagged and normalised.
pub open spec fn spans_from_captures(caps: Seq<CaptureView>, spans: Seq<HighlightSpan>) -> bool {
    exists|raws: Seq<RawHighlightSpan>|
        raws_match_captures(raws, caps) && exists|s: Seq<crate::normalize::SpanTriple>|
            sorted_kept(raws, s) && triples_of(spans) == coalesce(s)
}

/// The ranges and tag texts of spans.
pub open spec fn span_views(spans: Seq<HighlightSpan>) -> Seq<crate::normalize::TripleView> {
    spans.map_values(|s: HighlightSpan| (s.spec_start(), s.spec_end(), s.spec_tag()@))
}

/// The spans are fixed by the captures alone: two span lists made from the
/// same captures agree in every range and tag.
pub proof fn lemma_spans_from_captures_unique(caps: Seq<CaptureView>, s1: Seq<HighlightSpan>, s2: Seq<HighlightSpan>)
    requires
        spans_from_captures(caps, s1),
        spans_from_captures(caps, s2),
    ensures
        span_views(s1) == span_views(s2),
{
    let raws1 = choose|raws: Seq<RawHighlightSpan>|
        raws_match_captures(raws, caps) && exists|s: Seq<crate::normalize::SpanTriple>|
            sorted_kept(raws, s) && triples_of(s1) == coalesce(s);
    let t1 = choose|s: Seq<crate::normalize::SpanTriple>| sorted_kept(raws1, s) && triples_of(s1) == coalesce(s);
    let raws2 = choose|raws: Seq<RawHighlightSpan>|
        raws_match_captures(raws, caps) && exists|s: Seq<crate::normalize::SpanTriple>|
            sorted_kept(raws, s) && triples_of(s2) == coalesce(s);
    let t2 = choose|s: Seq<crate::normalize::SpanTriple>| sorted_kept(raws2, s) && triples_of(s2) == coalesce(s);
    assert forall|i: int| #![trigger raws1[i], raws2[i]] 0 <= i < raws1.len() implies {
        &&& raws1[i].start == raws2[i].start
        &&& raws1[i].end == raws2[i].end
        &&& raws1[i].pattern_index == raws2[i].pattern_index
        &&& crate::normalize::tag_view(raws1[i].tag) == crate::normalize::tag_view(raws2[i].tag)
    } by {
        assert(raws1[i].start == caps[i].0 && raws2[i].start == caps[i].0);
    }
    crate::normalize::lemma_normal_form_alike(raws1, raws2, t1, t2);
    let v1 = crate::normalize::triple_views(coalesce(t1));
    assert(v1 == crate::normalize::triple_views(coalesce(t2)));
    assert(s1.len() == triples_of(s1).len() && triples_of(s1).len() == v1.len());
    assert(s2.len() == triples_of(s2).len() && triples_of(s2).len() == crate::normalize::triple_views(coalesce(t2)).len());
    assert forall|i: int| 0 <= i < s1.len() implies #[trigger] span_views(s1)[i] == v1[i] by {
        assert(triples_of(s1)[i] == triple_of(s1[i]));
    }
    assert forall|i: int| 0 <= i < s2.len() implies #[trigger] span_views(s2)[i] == v1[i] by {
        assert(triples_of(s2)[i] == triple_of(s2[i]));
    }
    assert(span_views(s1) =~= span_views(s2));
}

/// Every capture ends at or before byte `n`.
pub open spec fn captures_end_within(caps: Seq<CaptureView>, n: int) -> bool {
    forall|i: int| #![trigger caps[i]] 0 <= i < caps.len() ==> caps[i].1 <= n
}

/// Every span ends at or before byte `n`.
pub open spec fn spans_end_within(spans: Seq<HighlightSpan>, n: int) -> bool {
    forall|i: int| #![trigger spans[i]] 0 <= i < spans.len() ==> spans[i].spec_end() <= n
}

/// Spans made from captures end no later than the captures do.
pub proof fn lemma_spans_end_within(caps: Seq<CaptureView>, spans: Seq<HighlightSpan>, n: int)
    requires
        spans_from_captures(caps, spans),
        captures_end_within(caps, n),
    ensures
        spans_end_within(spans, n),
{
    let raws = choose|raws: Seq<RawHighlightSpan>|
        raws_match_captures(raws, caps) && exists|s: Seq<crate::normalize::SpanTriple>|
            sorted_kept(raws, s) && triples_of(spans) == coalesce(s);
    let s = choose|s: Seq<crate::normalize::SpanTriple>|
        sorted_kept(raws, s) && triples_of(spans) == coalesce(s);
    assert forall|k: int| #![trigger raws[k]] 0 <= k < raws.len() implies raws[k].end <= n by {
        assert(raws[k].end == caps[k].1);
    }
    crate::normalize::lemma_sorted_kept_end_within(raws, s, n);
    crate::normalize::lemma_coalesce_end_within(s, n);
    assert forall|i: int| #![trigger spans[i]] 0 <= i < spans.len() implies spans[i].spec_end() <= n by {
        assert(triples_of(spans)[i] == triple_of(spans[i]));
        assert(coalesce(s)[i].1 <= n);
    }
}

/// `h` is `source` in `language`, highlighted with the spans `caps` give.
pub open spec fn highlighted_with(
    source: Seq<char>,
    language: Language,
    caps: Seq<CaptureView>,
    h: HighlightedSource,
) -> bool {
    &&& h.spec_source() == source
    &&& h.spec_language() == language
    &&& h.spec_error() is None
    &&& spans_from_captures(caps, h.spec_spans())
}

/// What highlighting `source` in `language` gives: the highlighted source
/// when `arborium` reports captures, the error it reports otherwise.
pub open spec fn highlight_outcome(
    source: Seq<char>,
    language: Language,
    r: Result<HighlightedSource, HighlightError>,
) -> bool {
    match arborium_captures(slug_of(language), source) {
        Ok(caps) => r matches Ok(h) && highlighted_with(source, language, caps, h),
        Err(m) => r matches Err(e) && error_message(e) == m,
    }
}

/// What the lossy conversion gives for `source` in `language`: the source
/// without an error, highlighted when `arborium` reports captures, and
/// unhighlighted, in that language, otherwise.
pub open spec fn plaintext_outcome(source: Seq<char>, language: Language, p: HighlightedSource) -> bool {
    &&& p.spec_source() == source
    &&& p.spec_error() is None
    &&& match arborium_captures(slug_of(language), source) {
        Ok(caps) => highlighted_with(source, language, caps, p),
        Err(_) => p.spec_language() == language && p.spec_spans().len() == 0,
    }
}

/// The typed and the lossy path agree. Where highlighting succeeds, the
/// lossy conversion gives the same source and language, no error, and spans
/// with the same ranges and tags; where it fails,
/// the lossy conversion gives the source unhighlighted, without an error.
pub proof fn lemma_lossy_path_agrees(
    source: Seq<char>,
    language: Language,
    r: Result<HighlightedSource, HighlightError>,
    p: HighlightedSource,
)
    requires
        highlight_outcome(source, language, r),
        plaintext_outcome(source, language, p),
    ensures
        match r {
            Ok(h) => {
                &&& p.spec_source() == h.spec_source()
                &&& p.spec_language() == h.spec_language()
                &&& p.spec_error() == h.spec_error()
                &&& span_views(p.spec_spans()) == span_views(h.spec_spans())
            },
            Err(_) => {
                &&& p.spec_source() == source
                &&& p.spec_language() == language
                &&& p.spec_error() is None
                &&& p.spec_spans().len() == 0
            },
        },
{
    if let Ok(h) = r {
        if let Ok(caps) = arborium_captures(slug_of(language), source) {
            lemma_spans_from_captures_unique(caps, p.spec_spans(), h.spec_spans());
        }
    }
}

/// The spans that the captures a grammar reported give: each capture is
/// tagged by its name, then the captures are normalised.
pub fn spans_from_raw_captures(captures: &Vec<RawCapture>) -> (r: Vec<HighlightSpan>)
    ensures
        spans_from_captures(captures_view(captures@), r@),
{
    let mut raws: Vec<RawHighlightSpan> = Vec::new();
    let mut i: usize = 0;
    while i < captures.len()
        invariant
            0 <= i <= captures@.len(),
            raws_match_captures(raws@, captures_view(captures@).take(i as int)),
        decreases captures@.len() - i,
    {
        let c = &captures[i];
        let tag = tag_for_capture(c.capture.as_str());
        let ghost old_raws = raws@;
        raws.push(RawHighlightSpan { start: c.start, end: c.end, tag, pattern_index: c.pattern_index });
        proof {
            let caps = captures_view(captures@).take(i + 1);
            assert forall|k: int| #![trigger raws@[k]] 0 <= k < raws@.len() implies {
                &&& raws@[k].start == caps[k].0
                &&& raws@[k].end == caps[k].1
                &&& raws@[k].pattern_index == caps[k].3
                &&& match raws@[k].tag {
                    Some(t) => capture_tag(caps[k].2) == Some(t@),
                    None => capture_tag(caps[k].2) is None,
                }
            } by {
                if k < i {
                    assert(raws@[k] == old_raws[k]);
                    assert(captures_view(captures@).take(i as int)[k] == caps[k]);
                }
            }
        }
        i = i + 1;
    }
    assert(captures_view(captures@).take(captures@.len() as int) =~= captures_view(captures@));
    let ghost raws_seq = raws@;
    normalize_spans(raws)
}

impl HighlightedSource {
    /// Highlighted source from the captures a grammar reported for it: each
    /// capture is tagged, then the captures are normalised into spans.
    pub fn from_captures(source: String, language: Language, captures: Vec<RawCapture>) -> (r: Self)
        ensures
            highlighted_with(source@, language, captures_view(captures@), r),
    {
        let spans = spans_from_raw_captures(&captures);
        HighlightedSource::from_owned_parts(source, language, spans, None)
    }
}

/// Source text to highlight at runtime.
#[derive(Debug, Clone, PartialEq, Eq)]
pub struct SourceCode {
    source: String,
    language: Language,
}

/// Source-first builder for [`SourceCode`].
#[derive(Debug, Clone, PartialEq, Eq)]
pub struct SourceCodeBuilder {
    source: String,
}

impl SourceCodeBuilder {
    /// The source text.
    pub closed spec fn spec_source(&self) -> Seq<char> {
        self.source@
    }

    /// Finish the builder with an explicit language.
    pub fn with_language(self, language: Language) -> (r: SourceCode)
        ensures
            r.spec_source() == self.spec_source(),
            r.spec_language() == language,
    {
        SourceCode { source: self.source, language }
    }
}

impl SourceCode {
    /// The source text.
    pub closed spec fn spec_source(&self) -> Seq<char> {
        self.source@
    }

    /// The language to highlight with.
    pub closed spec fn spec_language(&self) -> Language {
        self.language
    }

    /// Wrap a raw source string with an explicit language.
    pub fn new(language: Language, source: &str) -> (r: Self)
        ensures
            r.spec_source() == source@,
            r.spec_language() == language,
    {
        SourceCode { source: source.to_owned(), language }
    }

    /// Start a source-first builder.
    pub fn builder(source: &str) -> (r: SourceCodeBuilder)
        ensures
            r.spec_source() == source@,
    {
        SourceCodeBuilder { source: source.to_owned() }
    }

    /// Replace the language used to highlight this source.
    pub fn with_language(self, language: Language) -> (r: Self)
        ensures
            r.spec_source() == self.spec_source(),
            r.spec_language() == language,
    {
        SourceCode { source: self.source, language }
    }

    /// Highlight this source. With [`Language::Auto`], the language is
    /// first detected from the source; when none is detected the result is
    /// [`HighlightError::Undetected`].
    pub fn highlight(self) -> (r: Result<HighlightedSource, HighlightError>)
        ensures
            self.spec_language() != Language::Auto ==> highlight_outcome(
                self.spec_source(),
                self.spec_language(),
                r,
            ),
            self.spec_language() == Language::Auto ==> match r {
                Err(HighlightError::Undetected) => true,
                Ok(h) => {
                    &&& h.spec_language() != Language::Auto
                    &&& exists|label: Seq<char>| language_for_betlang_slug(label) == Some(h.spec_language())
                    &&& highlight_outcome(self.spec_source(), h.spec_language(), r)
                },
                Err(e) => exists|l: Language|
                    l != Language::Auto && highlight_outcome(self.spec_source(), l, r),
            },
            self.spec_language() == Language::Auto && self.spec_source().len() == 0 ==> r matches Err(
                HighlightError::Undetected,
            ),
    {
        let language = if self.language == Language::Auto {
            match Language::detect_source(self.source.as_str()) {
                Some(l) if l != Language::Auto => l,
                _ => return Err(HighlightError::Undetected),
            }
        } else {
            self.language
        };
        let ghost src = self.spec_source();
        let ghost lang0 = self.spec_language();
        let r = match arborium_highlight_spans(language.slug(), self.source.as_str()) {
            Ok(captures) => Ok(HighlightedSource::from_captures(self.source, language, captures)),
            Err(e) => Err(e),
        };
        proof {
            assert(highlight_outcome(src, language, r));
            assert(language != Language::Auto || lang0 != Language::Auto);
            if lang0 == Language::Auto {
                assert(language != Language::Auto);
                assert(exists|l: Language| l != Language::Auto && highlight_outcome(src, l, r));
            }
        }
        r
    }

    /// Highlight this source, falling back to the unhighlighted source when
    /// highlighting fails.
    pub fn highlight_or_plaintext(self) -> (r: HighlightedSource)
        ensures
            r.spec_source() == self.spec_source(),
            r.spec_error() is None,
            self.spec_language() != Language::Auto ==> plaintext_outcome(
                self.spec_source(),
                self.spec_language(),
                r,
            ),
    {
        let language = self.language;
        let source = self.source.clone();
        match self.highlight() {
            Ok(h) => h,
            Err(_) => HighlightedSource::plaintext(source, language),
        }
    }
}

impl From<SourceCode> for HighlightedSource {
    fn from(code: SourceCode) -> (r: Self)
        ensures
            r.spec_source() == code.spec_source(),
            r.spec_error() is None,
            code.spec_language() != Language::Auto ==> plaintext_outcome(
                code.spec_source(),
                code.spec_language(),
                r,
            ),
    {
        code.highlight_or_plaintext()
    }
}

impl vstd::std_specs::convert::FromSpecImpl<SourceCode> for HighlightedSource {
    open spec fn obeys_from_spec() -> bool {
        false
    }

    open spec fn from_spec(code: SourceCode) -> Self {
        vstd::pervasive::arbitrary()
    }
}

} // verus!
