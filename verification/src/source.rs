//! A source string together with its language, highlight spans and the
//! error that made highlighting fall back to plain text, if any.

use vstd::prelude::*;
use vstd::string::*;
use vstd::utf8::*;

use crate::highlight::{
    HighlightSegment, HighlightSpan, highlighted_lines, highlighted_segments, lines_content,
    lines_spec, segments_match, segments_spec, spans_on_boundaries,
};
use crate::language::Language;
use crate::text::{lemma_ascii_byte_boundaries, lemma_boundary_in_prefix, lemma_str_valid, substr};

verus! {

/// A highlighted source string with metadata and token spans.
#[derive(Debug, Clone, PartialEq, Eq)]
pub struct HighlightedSource {
    source: String,
    language: Language,
    spans: Vec<HighlightSpan>,
    error: Option<String>,
}

/// The number of bytes left once trailing newlines are removed.
pub open spec fn trimmed_len(bytes: Seq<u8>) -> int
    decreases bytes.len(),
{
    if bytes.len() > 0 && bytes.last() == 10 {
        trimmed_len(bytes.drop_last())
    } else {
        bytes.len() as int
    }
}

/// Trailing newlines are what trimming drops: the kept prefix ends in
/// anything but a newline, and only newlines follow it.
pub proof fn lemma_trimmed_len(bytes: Seq<u8>)
    ensures
        0 <= trimmed_len(bytes) <= bytes.len(),
        trimmed_len(bytes) < bytes.len() ==> bytes[trimmed_len(bytes)] == 10,
        trimmed_len(bytes) > 0 ==> bytes[trimmed_len(bytes) - 1] != 10,
        forall|i: int| trimmed_len(bytes) <= i < bytes.len() ==> bytes[i] == 10,
    decreases bytes.len(),
{
    if bytes.len() > 0 && bytes.last() == 10 {
        lemma_trimmed_len(bytes.drop_last());
        assert forall|i: int| trimmed_len(bytes) <= i < bytes.len() implies bytes[i] == 10 by {
            if i < bytes.len() - 1 {
                assert(bytes[i] == bytes.drop_last()[i]);
            }
        }
    }
}

impl HighlightedSource {
    /// The source text.
    pub closed spec fn spec_source(&self) -> Seq<char> {
        self.source@
    }

    /// The language of the source.
    pub closed spec fn spec_language(&self) -> Language {
        self.language
    }

    /// The highlight spans.
    pub closed spec fn spec_spans(&self) -> Seq<HighlightSpan> {
        self.spans@
    }

    /// The error that made highlighting fall back to plain text, if any.
    pub closed spec fn spec_error(&self) -> Option<Seq<char>> {
        match self.error {
            Some(e) => Some(e@),
            None => None,
        }
    }

    /// The UTF-8 bytes of the source.
    pub open spec fn source_bytes(&self) -> Seq<u8> {
        encode_utf8(self.spec_source())
    }

    /// Every span offset inside the source falls on a character boundary.
    pub open spec fn spans_fit(&self) -> bool {
        spans_on_boundaries(self.source_bytes(), self.spec_spans())
    }

    pub(crate) fn from_owned_parts(
        source: String,
        language: Language,
        spans: Vec<HighlightSpan>,
        error: Option<String>,
    ) -> (r: Self)
        ensures
            r.spec_source() == source@,
            r.spec_language() == language,
            r.spec_spans() == spans@,
            r.spec_error() == match error {
                Some(e) => Some(e@),
                None => None::<Seq<char>>,
            },
    {
        HighlightedSource { source, language, spans, error }
    }

    /// Build highlighted source from static text and spans.
    pub fn from_static_parts(
        source: &'static str,
        language: Language,
        spans: &'static [HighlightSpan],
    ) -> (r: Self)
        ensures
            r.spec_source() == source@,
            r.spec_language() == language,
            r.spec_spans() == spans@,
            r.spec_error() is None,
    {
        let mut v: Vec<HighlightSpan> = Vec::new();
        let mut i: usize = 0;
        while i < spans.len()
            invariant
                0 <= i <= spans@.len(),
                v@ == spans@.take(i as int),
            decreases spans@.len() - i,
        {
            v.push(spans[i]);
            i = i + 1;
            assert(v@ =~= spans@.take(i as int));
        }
        assert(spans@.take(spans@.len() as int) =~= spans@);
        HighlightedSource { source: source.to_owned(), language, spans: v, error: None }
    }

    /// Unhighlighted source: no spans, no error.
    pub(crate) fn plaintext(source: String, language: Language) -> (r: Self)
        ensures
            r.spec_source() == source@,
            r.spec_language() == language,
            r.spec_spans() == Seq::<HighlightSpan>::empty(),
            r.spec_error() is None,
    {
        HighlightedSource { source, language, spans: Vec::new(), error: None }
    }

    /// The raw source text.
    pub fn source(&self) -> (r: &str)
        ensures
            r@ == self.spec_source(),
    {
        self.source.as_str()
    }

    /// The detected or explicitly set language.
    pub fn language(&self) -> (r: Language)
        ensures
            r == self.spec_language(),
    {
        self.language
    }

    /// The highlighting error, if parsing fell back to plain text.
    pub fn error(&self) -> (r: Option<&str>)
        ensures
            match r {
                Some(e) => self.spec_error() == Some(e@),
                None => self.spec_error() is None,
            },
    {
        match &self.error {
            Some(e) => Some(e.as_str()),
            None => None,
        }
    }

    /// The highlight spans covering the source.
    pub fn spans(&self) -> (r: &[HighlightSpan])
        ensures
            r@ == self.spec_spans(),
    {
        self.spans.as_slice()
    }

    /// Whether every span offset inside the source falls between two
    /// characters, so that the source can be cut into segments.
    pub fn spans_fit_source(&self) -> (r: bool)
        ensures
            r == self.spans_fit(),
    {
        let source = self.source.as_str();
        let len = source.as_bytes().len();
        let mut i: usize = 0;
        while i < self.spans.len()
            invariant
                0 <= i <= self.spans@.len(),
                len == self.source_bytes().len(),
                source@ == self.source@,
                forall|j: int|
                    #![trigger self.spans@[j]]
                    0 <= j < i ==> (self.spans@[j].spec_start() <= len ==> is_char_boundary(
                        self.source_bytes(),
                        self.spans@[j].spec_start() as int,
                    )) && (self.spans@[j].spec_end() <= len ==> is_char_boundary(
                        self.source_bytes(),
                        self.spans@[j].spec_end() as int,
                    )),
            decreases self.spans@.len() - i,
        {
            let span = self.spans[i];
            let start = span.start() as usize;
            let end = span.end() as usize;
            if start <= len && !source.is_char_boundary(start) {
                return false;
            }
            if end <= len && !source.is_char_boundary(end) {
                return false;
            }
            i = i + 1;
        }
        true
    }

    /// Split the source into renderable highlighted segments.
    pub fn segments(&self) -> (r: Vec<HighlightSegment<'_>>)
        requires
            self.spans_fit(),
        ensures
            segments_match(
                self.source_bytes(),
                segments_spec(self.spec_spans(), self.source_bytes().len() as int),
                r@,
            ),
    {
        highlighted_segments(self.source.as_str(), self.spans.as_slice())
    }

    /// The segments of the source with its trailing newlines left out.
    pub fn trimmed_segments(&self) -> (r: Vec<HighlightSegment<'_>>)
        requires
            self.spans_fit(),
        ensures
            segments_match(
                self.source_bytes().take(trimmed_len(self.source_bytes())),
                segments_spec(self.spec_spans(), trimmed_len(self.source_bytes())),
                r@,
            ),
    {
        let source = self.source.as_str();
        let bytes = source.as_bytes();
        let ghost full = source.spec_bytes();
        proof {
            lemma_str_valid(source);
            lemma_trimmed_len(full);
        }
        let mut end = bytes.len();
        assert(full.take(end as int) =~= full);
        while end > 0 && bytes[end - 1] == 10
            invariant
                bytes@ == full,
                0 <= end <= full.len(),
                trimmed_len(full) == trimmed_len(full.take(end as int)),
            decreases end,
        {
            assert(full.take(end as int).drop_last() =~= full.take(end - 1));
            end = end - 1;
        }
        proof {
            assert(full.take(end as int) =~= full.take(end as int));
            if end > 0 {
                assert(full.take(end as int).last() == full[end - 1]);
            }
            assert(trimmed_len(full.take(end as int)) == end);
            if end < full.len() {
                lemma_ascii_byte_boundaries(full, end as int);
            }
        }
        let trimmed = substr(source, 0, end);
        proof {
            assert(trimmed.spec_bytes() =~= full.take(end as int));
            lemma_str_valid(trimmed);
            assert forall|i: int|
                #![trigger self.spans@[i]]
                0 <= i < self.spans@.len() implies (self.spans@[i].spec_start() <= end ==> is_char_boundary(
                trimmed.spec_bytes(),
                self.spans@[i].spec_start() as int,
            )) && (self.spans@[i].spec_end() <= end ==> is_char_boundary(
                trimmed.spec_bytes(),
                self.spans@[i].spec_end() as int,
            )) by {
                let sp = self.spans@[i];
                if sp.spec_start() <= end {
                    lemma_boundary_in_prefix(full, end as int, sp.spec_start() as int);
                }
                if sp.spec_end() <= end {
                    lemma_boundary_in_prefix(full, end as int, sp.spec_end() as int);
                }
            }
        }
        highlighted_segments(trimmed, self.spans.as_slice())
    }

    /// Split the source into highlighted lines. Trailing empty lines are
    /// preserved so that line numbers stay aligned with the source text.
    pub fn lines(&self) -> (r: Vec<Vec<HighlightSegment<'_>>>)
        requires
            self.spans_fit(),
        ensures
            lines_content(r@) == lines_spec(self.source_bytes(), self.spec_spans()),
    {
        highlighted_lines(self.source.as_str(), self.spans.as_slice())
    }
}

} // verus!
