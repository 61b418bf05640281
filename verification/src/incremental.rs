//! Incremental highlighting: a highlighter that keeps its parser, the last
//! parse tree and the last source between calls, so that an edit can be
//! applied to the tree and only the changed part re-parsed.

use vstd::prelude::*;
use vstd::string::*;

use arborium_tree_sitter::Language as TsLanguage;
use arborium_tree_sitter::Point as TsPoint;
use arborium_tree_sitter::StreamingIterator;

use crate::catalog::{ArboriumLanguage, catalog_with_slug};
use crate::edit::{InputEdit, SourceEdit, edit_fits, point_of, point_view, utf8};
use crate::highlight::HighlightSpan;
use crate::language::{Language, arborium_detect_language, detected_language, language_with_slug, slug_of};
use crate::runtime::{
    CaptureView,
    RawCapture,
    captures_end_within,
    lemma_spans_end_within,
    lemma_spans_from_captures_unique,
    span_views,
    spans_end_within,
    arborium_captures,
    arborium_highlight_spans,
    captures_view,
    error_message,
    served_here,
    spans_from_captures,
    spans_from_raw_captures,
};
use crate::source::HighlightedSource;
use crate::text::str_eq;

verus! {

#[verifier::external_type_specification]
#[verifier::external_body]
pub struct ExParser(arborium_tree_sitter::Parser);

#[verifier::external_type_specification]
#[verifier::external_body]
pub struct ExQueryCursor(arborium_tree_sitter::QueryCursor);

#[verifier::external_type_specification]
#[verifier::external_body]
pub struct ExQuery(arborium_tree_sitter::Query);

#[verifier::external_type_specification]
#[verifier::external_body]
pub struct ExTree(arborium_tree_sitter::Tree);

#[verifier::external_type_specification]
#[verifier::external_body]
pub struct ExGrammar(TsLanguage);

/// Calls `arborium_tree_sitter::Parser::new`: a parser with no language.
#[verifier::external_body]
fn new_parser() -> (r: arborium_tree_sitter::Parser) {
    arborium_tree_sitter::Parser::new()
}

/// Calls `arborium_tree_sitter::QueryCursor::new`.
#[verifier::external_body]
fn new_query_cursor() -> (r: arborium_tree_sitter::QueryCursor) {
    arborium_tree_sitter::QueryCursor::new()
}

/// What the captures of a parse tree stand for: the slug of the grammar it
/// was parsed with; the text it is the full parse of, when it is known to be
/// such a tree; and the edit made to it since, if any.
pub type TreeView = (Seq<char>, Option<Seq<char>>, Option<InputEdit>);

/// A grammar this build ships, with its highlights query. Its view is its
/// slug.
pub struct BundledGrammar {
    language: TsLanguage,
    highlights: &'static str,
    slug: Ghost<Seq<char>>,
}

impl View for BundledGrammar {
    type V = Seq<char>;

    closed spec fn view(&self) -> Seq<char> {
        self.slug@
    }
}

/// A compiled highlights query. Its view is the slug of the grammar it was
/// compiled for.
pub struct HighlightsQuery {
    query: arborium_tree_sitter::Query,
    grammar: Ghost<Seq<char>>,
}

impl View for HighlightsQuery {
    type V = Seq<char>;

    closed spec fn view(&self) -> Seq<char> {
        self.grammar@
    }
}

/// A parse tree, viewed as what it stands for (see `TreeView`).
pub struct SyntaxTree {
    tree: arborium_tree_sitter::Tree,
    grammar: Ghost<Seq<char>>,
    text: Ghost<Option<Seq<char>>>,
    pending: Ghost<Option<InputEdit>>,
}

impl View for SyntaxTree {
    type V = TreeView;

    closed spec fn view(&self) -> TreeView {
        (self.grammar@, self.text@, self.pending@)
    }
}

/// The captures that the highlights query of the bundled grammar `grammar`
/// finds in the tree a full parse of `text` gives, in the order
/// `QueryCursor::matches` reports them.
pub uninterp spec fn tree_captures(grammar: Seq<char>, text: Seq<char>) -> Seq<CaptureView>;

/// Why the highlights query of the bundled grammar `grammar` does not
/// compile against it, or `None` when it compiles.
pub uninterp spec fn query_compile_error(grammar: Seq<char>) -> Option<Seq<char>>;

/// `edit` describes exactly how `old` became `new`: its offsets lie in
/// both texts, the bytes before its start and after its two ends agree, and
/// its positions are the rows and columns of its offsets.
pub open spec fn edit_is_exact(old: Seq<char>, edit: InputEdit, new: Seq<char>) -> bool {
    let a = utf8(old);
    let b = utf8(new);
    &&& edit.start_byte <= edit.old_end_byte <= a.len()
    &&& edit.start_byte <= edit.new_end_byte <= b.len()
    &&& a.take(edit.start_byte as int) == b.take(edit.start_byte as int)
    &&& a.skip(edit.old_end_byte as int) == b.skip(edit.new_end_byte as int)
    &&& point_view(edit.start_position) == point_of(a, edit.start_byte as int)
    &&& point_view(edit.old_end_position) == point_of(a, edit.old_end_byte as int)
    &&& point_view(edit.new_end_position) == point_of(b, edit.new_end_byte as int)
}

/// What a parse of `source` with `grammar`, reusing `old`, is known to be the
/// full parse of: `source` when there is no old tree, or when the old tree is
/// the full parse of a text and was edited exactly as that text became
/// `source`; nothing otherwise.
pub open spec fn reparsed_text(grammar: Seq<char>, old: Option<TreeView>, source: Seq<char>) -> Option<Seq<char>> {
    match old {
        None => Some(source),
        Some((g, Some(text), Some(edit))) => if g == grammar && edit_is_exact(text, edit, source) {
            Some(source)
        } else {
            None
        },
        Some(_) => None,
    }
}

/// The view of an optional tree.
pub open spec fn tree_view(tree: Option<&SyntaxTree>) -> Option<TreeView> {
    match tree {
        Some(t) => Some(t@),
        None => None,
    }
}

/// Arborium's Rust grammar (`arborium::lang_rust::language()`) and its
/// highlights query (`arborium::lang_rust::HIGHLIGHTS_QUERY`), under the slug
/// `rust`.
#[verifier::external_body]
fn rust_grammar() -> (r: BundledGrammar)
    ensures
        r@ == "rust"@,
{
    let language = arborium::lang_rust::language().into();
    BundledGrammar { language, highlights: arborium::lang_rust::HIGHLIGHTS_QUERY, slug: Ghost("rust"@) }
}

/// Arborium's Python grammar (`arborium::lang_python::language()`) and its
/// highlights query (`arborium::lang_python::HIGHLIGHTS_QUERY`), under the
/// slug `python`.
#[verifier::external_body]
fn python_grammar() -> (r: BundledGrammar)
    ensures
        r@ == "python"@,
{
    let language = arborium::lang_python::language().into();
    BundledGrammar { language, highlights: arborium::lang_python::HIGHLIGHTS_QUERY, slug: Ghost("python"@) }
}

/// Calls `arborium_tree_sitter::Query::new` on a bundled grammar and its
/// highlights query, and hands a failure out as its `Display` text. The
/// outcome depends on that grammar alone: it is named `query_compile_error`,
/// and a compiled query keeps the grammar's slug.
#[verifier::external_body]
fn compile_highlights(grammar: &BundledGrammar) -> (r: Result<HighlightsQuery, String>)
    ensures
        match r {
            Ok(q) => q@ == grammar@ && query_compile_error(grammar@) is None,
            Err(e) => query_compile_error(grammar@) == Some(e@),
        },
{
    match arborium_tree_sitter::Query::new(&grammar.language, grammar.highlights) {
        Ok(query) => Ok(HighlightsQuery { query, grammar: Ghost(grammar@) }),
        Err(error) => Err(error.to_string()),
    }
}

/// Calls `arborium_tree_sitter::Tree::edit` with the same edit, written as
/// `arborium_tree_sitter`'s own `InputEdit`; the tree's view records it. A
/// tree is edited at most once between two parses, so the view holds one
/// edit.
#[verifier::external_body]
fn edit_tree(tree: &mut SyntaxTree, edit: &InputEdit)
    requires
        old(tree)@.2 is None,
    ensures
        final(tree)@ == (old(tree)@.0, old(tree)@.1, Some(*edit)),
{
    let (start, old_end, new_end) = (edit.start_position, edit.old_end_position, edit.new_end_position);
    tree.tree.edit(&arborium_tree_sitter::InputEdit {
        start_byte: edit.start_byte,
        old_end_byte: edit.old_end_byte,
        new_end_byte: edit.new_end_byte,
        start_position: TsPoint { row: start.row, column: start.column },
        old_end_position: TsPoint { row: old_end.row, column: old_end.column },
        new_end_position: TsPoint { row: new_end.row, column: new_end.column },
    });
    tree.pending = Ghost(Some(*edit));
}

/// Sets the parser's language to a bundled grammar with
/// `Parser::set_language`, then parses `source` with `Parser::parse`,
/// reusing `reused`. The bundled grammars' ABI version, 15 in their
/// `parser.c`, lies in the range that `set_language` accepts (13 to 15), and
/// `parse` gives `None` only when no language is set or parsing is
/// cancelled, which nothing here asks for: a tree comes back. It is claimed
/// to be the full parse of `source` when no old tree is given, or when the
/// old tree was edited to match `source` as tree-sitter documents for
/// reusing a tree (`reparsed_text`); otherwise nothing is claimed of it.
#[verifier::external_body]
fn parse_with(
    parser: &mut arborium_tree_sitter::Parser,
    grammar: &BundledGrammar,
    source: &str,
    reused: Option<&SyntaxTree>,
) -> (r: Option<SyntaxTree>)
    ensures
        r is Some,
        r.unwrap()@ == (grammar@, reparsed_text(grammar@, tree_view(reused), source@), None::<InputEdit>),
{
    parser.set_language(&grammar.language).ok()?;
    let tree = parser.parse(source, reused.map(|t| &t.tree))?;
    let text = Ghost(reparsed_text(grammar@, tree_view(reused), source@));
    Some(SyntaxTree { tree, grammar: Ghost(grammar@), text, pending: Ghost(None) })
}

/// Runs a highlights query over the whole tree with `QueryCursor::matches`
/// and hands out every capture of every match: the captured node's byte
/// range, the capture's name and the index of the matching pattern. When the
/// query is that of the tree's grammar and the tree is the full parse of
/// `source`, the captures depend on the grammar and `source` alone: they are
/// named `tree_captures`, and each ends within `source`, as the nodes of a
/// tree of `source` do. Otherwise nothing is claimed of them.
#[verifier::external_body]
fn query_captures(
    query: &HighlightsQuery,
    cursor: &mut arborium_tree_sitter::QueryCursor,
    tree: &SyntaxTree,
    source: &str,
) -> (r: Vec<RawCapture>)
    ensures
        query@ == tree@.0 && tree@.1 == Some(source@) && tree@.2 is None ==> captures_view(r@)
            == tree_captures(tree@.0, source@),
        query@ == tree@.0 && tree@.1 == Some(source@) && tree@.2 is None ==> captures_end_within(
            captures_view(r@),
            utf8(source@).len() as int,
        ),
{
    let names = query.query.capture_names();
    let mut captures = Vec::new();
    let mut matches = cursor.matches(&query.query, tree.tree.root_node(), source.as_bytes());
    while let Some(m) = matches.next() {
        for c in m.captures {
            let capture = names[c.index as usize].to_string();
            captures.push(RawCapture { start: c.node.start_byte() as u32, end: c.node.end_byte() as u32, capture, pattern_index: m.pattern_index as u32 });
        }
    }
    captures
}

/// The slugs of the languages this build parses incrementally: those whose
/// grammar it was built with.
pub open spec fn has_incremental_grammar(slug: Seq<char>) -> bool {
    slug == "rust"@ || slug == "python"@
}

/// Every language this build offers, but `Auto`, has its grammar built in,
/// and every grammar built in is that of a language it offers.
pub proof fn lemma_languages_have_bundled_grammars(l: Language, slug: Seq<char>)
    ensures
        l != Language::Auto ==> has_incremental_grammar(slug_of(l)),
        has_incremental_grammar(slug) ==> (language_with_slug(slug) matches Some(m) && m
            != Language::Auto && slug_of(m) == slug),
{
    reveal_strlit("rust");
    reveal_strlit("python");
    assert("python"@ != "rust"@) by {
        assert("python"@.len() != "rust"@.len());
    }
    if l != Language::Auto {
        crate::language::lemma_slug_round_trip(l);
    }
}

/// The grammar and highlights query of a slug, when this build ships the
/// grammar: the slug's own grammar, whose view is the slug. Other languages
/// go through `arborium`'s highlighter.
pub fn grammar_for(slug: &str) -> (r: Option<BundledGrammar>)
    ensures
        r is Some <==> has_incremental_grammar(slug@),
        r matches Some(g) ==> g@ == slug@,
{
    proof {
        reveal_strlit("rust");
        reveal_strlit("python");
    }
    if str_eq(slug, "rust") {
        Some(rust_grammar())
    } else if str_eq(slug, "python") {
        Some(python_grammar())
    } else {
        None
    }
}

/// A capture the highlighter leaves out: a name that starts with `_`, or an
/// `injection.` capture.
pub open spec fn is_hidden_capture(name: Seq<char>) -> bool {
    (name.len() > 0 && name[0] == '_') || (name.len() >= 10 && name.take(10) == "injection."@)
}

/// Whether a capture name is one the highlighter leaves out.
fn hidden_capture(name: &str) -> (r: bool)
    ensures
        r == is_hidden_capture(name@),
{
    let n = name.unicode_len();
    if n > 0 && name.get_char(0) == '_' {
        return true;
    }
    if n >= 10 {
        let head = name.substring_char(0, 10);
        proof {
            assert(head@ =~= name@.take(10));
        }
        return str_eq(head, "injection.");
    }
    false
}

/// The captures that are not left out, in order.
pub open spec fn visible_captures(caps: Seq<CaptureView>) -> Seq<CaptureView>
    decreases caps.len(),
{
    if caps.len() == 0 {
        caps
    } else if is_hidden_capture(caps.last().2) {
        visible_captures(caps.drop_last())
    } else {
        visible_captures(caps.drop_last()).push(caps.last())
    }
}

/// The captures a highlighter keeps from what a query reports: every capture
/// whose name starts neither with `_` nor with `injection.`, in the order
/// reported, and nothing else.
pub open spec fn named_capture(c: CaptureView) -> bool {
    &&& !(c.2.len() > 0 && c.2[0] == '_')
    &&& !(c.2.len() >= 10 && c.2.take(10) == "injection."@)
}

/// A capture is left out of the spans only when its name starts with `_` or
/// with `injection.`: the kept captures are exactly the others, in order.
/// So a `comment` capture, say, is kept, and its span is tagged as comments
/// are.
pub proof fn lemma_visible_captures_keep_every_named_capture(caps: Seq<CaptureView>)
    ensures
        visible_captures(caps) == caps.filter(|c: CaptureView| named_capture(c)),
        forall|i: int|
            0 <= i < caps.len() && named_capture(caps[i]) ==> #[trigger] visible_captures(
                caps,
            ).contains(caps[i]),
        forall|c: CaptureView| #[trigger] visible_captures(caps).contains(c) ==> caps.contains(c)
            && named_capture(c),
    decreases caps.len(),
{
    let pred = |c: CaptureView| named_capture(c);
    reveal(Seq::filter);
    if caps.len() > 0 {
        let d = caps.drop_last();
        lemma_visible_captures_keep_every_named_capture(d);
        assert(is_hidden_capture(caps.last().2) == !named_capture(caps.last()));
        assert(d.filter(pred) == d.filter(|c: CaptureView| named_capture(c)));
        let v = visible_captures(caps);
        let w = visible_captures(d);
        assert forall|c: CaptureView| #[trigger] v.contains(c) implies caps.contains(c) && named_capture(c) by {
            let j = choose|j: int| 0 <= j < v.len() && v[j] == c;
            if j < w.len() {
                assert(v[j] == w[j]);
                assert(w.contains(c));
                let k = choose|k: int| 0 <= k < d.len() && d[k] == c;
                assert(caps[k] == d[k]);
            } else {
                assert(c == caps[caps.len() - 1]);
            }
        }
    }
    assert(visible_captures(caps) == caps.filter(pred));
    #[allow(deprecated)]
    caps.filter_lemma(pred);
}

fn copy_capture(c: &RawCapture) -> (r: RawCapture)
    ensures
        r.start == c.start,
        r.end == c.end,
        r.capture@ == c.capture@,
        r.pattern_index == c.pattern_index,
{
    RawCapture { start: c.start, end: c.end, capture: c.capture.clone(), pattern_index: c.pattern_index }
}

/// The spans of a parse tree: the query's captures, those left out dropped,
/// each tagged and then normalised.
fn collect_spans(
    query: &HighlightsQuery,
    cursor: &mut arborium_tree_sitter::QueryCursor,
    tree: &SyntaxTree,
    source: &str,
) -> (r: Vec<HighlightSpan>)
    ensures
        exists|caps: Seq<CaptureView>| spans_from_captures(visible_captures(caps), r@),
        query@ == tree@.0 && tree@.1 == Some(source@) && tree@.2 is None ==> full_parse_spans(
            tree@.0,
            source@,
            r@,
        ),
{
    let captures = query_captures(query, cursor, tree, source);
    let mut kept: Vec<RawCapture> = Vec::new();
    let mut i: usize = 0;
    while i < captures.len()
        invariant
            0 <= i <= captures@.len(),
            captures_view(kept@) == visible_captures(captures_view(captures@).take(i as int)),
        decreases captures@.len() - i,
    {
        let ghost all = captures_view(captures@);
        proof {
            assert(all.take(i + 1).drop_last() =~= all.take(i as int));
            assert(all.take(i + 1).last() == all[i as int]);
        }
        if !hidden_capture(captures[i].capture.as_str()) {
            let ghost before = kept@;
            kept.push(copy_capture(&captures[i]));
            proof {
                assert(captures_view(kept@) =~= captures_view(before).push(all[i as int]));
            }
        }
        i = i + 1;
    }
    proof {
        assert(captures_view(captures@).take(captures@.len() as int) =~= captures_view(captures@));
    }
    let spans = spans_from_raw_captures(&kept);
    proof {
        if query@ == tree@.0 && tree@.1 == Some(source@) && tree@.2 is None {
            let n = utf8(source@).len() as int;
            lemma_visible_captures_end_within(captures_view(captures@), n);
            lemma_spans_end_within(captures_view(kept@), spans@, n);
        }
    }
    spans
}

/// `spans` are the spans of the captures that the highlights query of the
/// bundled grammar `slug` finds in a full parse of `source`, and each ends
/// within `source`.
pub open spec fn full_parse_spans(slug: Seq<char>, source: Seq<char>, spans: Seq<HighlightSpan>) -> bool {
    &&& spans_from_captures(visible_captures(tree_captures(slug, source)), spans)
    &&& spans_end_within(spans, utf8(source).len() as int)
}

/// Whenever two calls highlight the full parse of one source with one
/// grammar (whatever tree each highlighter kept before, and whether an edit
/// was reused or not), their spans agree in every range and tag.
pub proof fn lemma_full_parse_spans_agree(
    slug: Seq<char>,
    source: Seq<char>,
    s1: Seq<HighlightSpan>,
    s2: Seq<HighlightSpan>,
)
    requires
        full_parse_spans(slug, source, s1),
        full_parse_spans(slug, source, s2),
    ensures
        span_views(s1) == span_views(s2),
{
    lemma_spans_from_captures_unique(visible_captures(tree_captures(slug, source)), s1, s2);
}

/// Leaving captures out keeps the rest ending where they did.
proof fn lemma_visible_captures_end_within(caps: Seq<CaptureView>, n: int)
    requires
        captures_end_within(caps, n),
    ensures
        captures_end_within(visible_captures(caps), n),
    decreases caps.len(),
{
    if caps.len() > 0 {
        let d = caps.drop_last();
        assert forall|i: int| #![trigger d[i]] 0 <= i < d.len() implies d[i].1 <= n by {
            assert(d[i] == caps[i]);
        }
        lemma_visible_captures_end_within(d, n);
        assert(caps.last() == caps[caps.len() - 1]);
        let v = visible_captures(caps);
        let w = visible_captures(d);
        assert forall|i: int| #![trigger v[i]] 0 <= i < v.len() implies v[i].1 <= n by {
            if i < w.len() {
                assert(v[i] == w[i]);
            }
        }
    }
}

/// Highlighted source from `arborium`'s highlighter, or the source as plain
/// text with the error's text when it fails.
fn batch_highlight_via_arborium(source: &str, slug: &str) -> (r: HighlightedSource)
    ensures
        r.spec_source() == source@,
        match arborium_captures(slug@, source@) {
            Ok(caps) => {
                &&& r.spec_error() is None
                &&& spans_from_captures(caps, r.spec_spans())
                &&& spans_end_within(r.spec_spans(), utf8(source@).len() as int)
                &&& r.spec_language() == language_or_auto(slug@)
            },
            Err(m) => {
                &&& r.spec_error() == Some(m)
                &&& r.spec_spans().len() == 0
                &&& r.spec_language() == Language::Auto
            },
        },
        !served_here(slug@) ==> r.spec_error() == Some("unsupported language: "@ + slug@),
{
    match arborium_highlight_spans(slug, source) {
        Ok(captures) => {
            let spans = spans_from_raw_captures(&captures);
            proof {
                lemma_spans_end_within(captures_view(captures@), spans@, utf8(source@).len() as int);
            }
            HighlightedSource::from_owned_parts(
                String::from_str(source),
                language_for_slug(slug),
                spans,
                None,
            )
        },
        Err(error) => plain_with_error(source, error.message()),
    }
}

/// The language of a slug, or `Auto` for a slug that names none.
pub open spec fn language_or_auto(slug: Seq<char>) -> Language {
    match language_with_slug(slug) {
        Some(l) => l,
        None => Language::Auto,
    }
}

fn language_for_slug(slug: &str) -> (r: Language)
    ensures
        r == language_or_auto(slug@),
{
    match Language::from_slug(slug) {
        Some(l) => l,
        None => Language::Auto,
    }
}

/// The source as plain text, with why it could not be highlighted.
fn plain_with_error(source: &str, error: String) -> (r: HighlightedSource)
    ensures
        r.spec_source() == source@,
        r.spec_language() == Language::Auto,
        r.spec_spans().len() == 0,
        r.spec_error() == Some(error@),
{
    HighlightedSource::from_owned_parts(String::from_str(source), Language::Auto, Vec::new(), Some(error))
}

/// A slot for the compiled highlights query of the bundled grammar `slug`:
/// the query, or why it did not compile.
pub open spec fn query_slot(q: &Result<HighlightsQuery, String>, slug: Seq<char>) -> bool {
    match q {
        Ok(query) => query@ == slug && query_compile_error(slug) is None,
        Err(e) => query_compile_error(slug) == Some(e@),
    }
}

/// The bytes before an edit's start, and those after its two ends, agree in
/// the two texts.
pub open spec fn edit_keeps_context(e: SourceEdit, old: Seq<u8>, new: Seq<u8>) -> bool {
    &&& old.take(e.start_byte as int) == new.take(e.start_byte as int)
    &&& old.skip(e.old_end_byte as int) == new.skip(e.new_end_byte as int)
}

/// Persistent syntax highlighter that re-uses parse trees across edits.
pub struct IncrementalHighlighter {
    parser: arborium_tree_sitter::Parser,
    cursor: arborium_tree_sitter::QueryCursor,
    rust_query: Result<HighlightsQuery, String>,
    python_query: Result<HighlightsQuery, String>,
    grammar: Option<String>,
    tree: Option<SyntaxTree>,
    last_source: String,
    last_spans: Vec<HighlightSpan>,
}

impl IncrementalHighlighter {
    /// The highlighter's invariant: each query slot holds what compiling the
    /// bundled grammar's query gives; a kept tree was parsed with the kept
    /// grammar and has no edit pending; and when it is the full parse of a
    /// text, that text is the kept source and the kept spans are those of its
    /// full parse.
    pub closed spec fn wf(&self) -> bool {
        &&& query_slot(&self.rust_query, "rust"@)
        &&& query_slot(&self.python_query, "python"@)
        &&& match self.tree {
            Some(t) => {
                &&& self.grammar matches Some(g) && t@.0 == g@
                &&& t@.2 is None
                &&& match t@.1 {
                    Some(text) => {
                        &&& text == self.last_source@
                        &&& full_parse_spans(t@.0, text, self.last_spans@)
                    },
                    None => true,
                }
            },
            None => true,
        }
    }

    /// The slug of the grammar the kept tree was parsed with, if any.
    pub closed spec fn spec_grammar(&self) -> Option<Seq<char>> {
        match self.grammar {
            Some(slug) => Some(slug@),
            None => None,
        }
    }

    /// A parse tree is kept from the last call.
    pub closed spec fn spec_has_tree(&self) -> bool {
        self.tree is Some
    }

    /// The kept tree is the full parse of the kept source: it was parsed
    /// afresh, or reused after edits that each matched the two texts.
    pub closed spec fn spec_exact(&self) -> bool {
        self.tree matches Some(t) && t@.1 == Some(self.last_source@)
    }

    /// The source of the last call that parsed.
    pub closed spec fn spec_last_source(&self) -> Seq<char> {
        self.last_source@
    }

    /// The spans of the last call that parsed.
    pub closed spec fn spec_last_spans(&self) -> Seq<HighlightSpan> {
        self.last_spans@
    }

    /// Nothing is kept from an earlier call: no grammar, no tree, no source,
    /// no spans.
    pub open spec fn is_reset(&self) -> bool {
        &&& self.spec_grammar() is None
        &&& !self.spec_has_tree()
        &&& self.spec_last_source().len() == 0
        &&& self.spec_last_spans().len() == 0
    }

    /// The highlighter holds the parse of `source` with the grammar `slug`.
    pub open spec fn holds_parse(&self, slug: Seq<char>, source: Seq<char>) -> bool {
        &&& self.spec_grammar() == Some(slug)
        &&& self.spec_has_tree()
        &&& self.spec_last_source() == source
    }

    /// A call that parses `source` with the grammar `slug` and `edit` gives
    /// the full parse of `source`: no edit is given; no tree of that grammar
    /// is kept; the edit does not fit the kept source and `source`, so the
    /// tree is dropped; or the kept tree is the full parse of the kept
    /// source and the edit matches the two texts.
    pub open spec fn parses_in_full(&self, slug: Seq<char>, edit: Option<SourceEdit>, source: Seq<char>) -> bool {
        match edit {
            None => true,
            Some(e) => {
                ||| !(self.spec_grammar() == Some(slug) && self.spec_has_tree())
                ||| !edit_fits(e, utf8(self.spec_last_source()), utf8(source))
                ||| (self.spec_exact() && edit_keeps_context(
                    e,
                    utf8(self.spec_last_source()),
                    utf8(source),
                ))
            },
        }
    }

    /// A highlighter with no parse kept yet; the highlights queries of the
    /// bundled grammars are compiled once, here.
    pub fn new() -> (r: Self)
        ensures
            r.wf(),
            r.is_reset(),
    {
        let rust_query = compile_highlights(&rust_grammar());
        let python_query = compile_highlights(&python_grammar());
        IncrementalHighlighter {
            parser: new_parser(),
            cursor: new_query_cursor(),
            rust_query,
            python_query,
            grammar: None,
            tree: None,
            last_source: String::new(),
            last_spans: Vec::new(),
        }
    }

    fn reset(&mut self)
        requires
            old(self).wf(),
        ensures
            final(self).wf(),
            final(self).is_reset(),
    {
        self.grammar = None;
        self.tree = None;
        self.last_source = String::new();
        self.last_spans = Vec::new();
    }

    /// Highlight `source`, reusing the previous parse tree when possible.
    ///
    /// `language` is an Arborium slug such as `"rust"`; without one, or
    /// when it is not one of `arborium`'s slugs, the slug is detected with
    /// `arborium::detect_language`. A language whose grammar this build does
    /// not parse incrementally is highlighted by `arborium`'s own
    /// highlighter. `edit` says which bytes changed since the last call;
    /// without it, or when it does not fit the two sources, the source is
    /// parsed from scratch. The same source again, with the same language
    /// and no edit, gives back the spans of the last parse. Whenever the tree
    /// parsed is the full parse of `source`, the spans are those of the
    /// captures a full parse gives, as with no tree kept at all, and each
    /// ends within `source`.
    pub fn highlight(&mut self, source: &str, edit: Option<SourceEdit>, language: Option<&str>) -> (r:
        HighlightedSource)
        requires
            old(self).wf(),
        ensures
            final(self).wf(),
            r.spec_source() == source@,
            match requested_slug(language, source@) {
                None => {
                    &&& final(self).is_reset()
                    &&& r.spec_error() == Some("could not detect language"@)
                    &&& r.spec_spans().len() == 0
                    &&& r.spec_language() == Language::Auto
                },
                Some(slug) => if !has_incremental_grammar(slug) {
                    &&& final(self).is_reset()
                    &&& !served_here(slug) ==> r.spec_error() == Some(
                        "unsupported language: "@ + slug,
                    )
                    &&& match arborium_captures(slug, source@) {
                        Ok(caps) => {
                            &&& r.spec_error() is None
                            &&& spans_from_captures(caps, r.spec_spans())
                            &&& spans_end_within(r.spec_spans(), utf8(source@).len() as int)
                            &&& r.spec_language() == language_or_auto(slug)
                        },
                        Err(m) => {
                            &&& r.spec_error() == Some(m)
                            &&& r.spec_spans().len() == 0
                            &&& r.spec_language() == Language::Auto
                        },
                    }
                } else if query_compile_error(slug) is Some {
                    &&& final(self).is_reset()
                    &&& r.spec_error() == query_compile_error(slug)
                    &&& r.spec_spans().len() == 0
                    &&& r.spec_language() == Language::Auto
                } else if old(self).holds_parse(slug, source@) && edit is None {
                    &&& *final(self) == *old(self)
                    &&& r.spec_error() is None
                    &&& r.spec_spans() == old(self).spec_last_spans()
                    &&& r.spec_language() == language_or_auto(slug)
                    &&& old(self).spec_exact() ==> full_parse_spans(slug, source@, r.spec_spans())
                } else {
                    &&& r.spec_error() is None
                    &&& r.spec_language() == language_or_auto(slug)
                    &&& final(self).holds_parse(slug, source@)
                    &&& final(self).spec_last_spans() == r.spec_spans()
                    &&& final(self).spec_exact() == old(self).parses_in_full(slug, edit, source@)
                    &&& old(self).parses_in_full(slug, edit, source@) ==> full_parse_spans(
                        slug,
                        source@,
                        r.spec_spans(),
                    )
                    &&& exists|caps: Seq<CaptureView>|
                        spans_from_captures(visible_captures(caps), r.spec_spans())
                },
            },
    {
        let requested = match language {
            Some(slug) => match ArboriumLanguage::from_slug(slug) {
                Some(_) => Some(String::from_str(slug)),
                None => None,
            },
            None => None,
        };
        let slug = match requested {
            Some(slug) => slug,
            None => match arborium_detect_language(source) {
                Some(slug) => String::from_str(slug),
                None => {
                    self.reset();
                    return plain_with_error(source, String::from_str("could not detect language"));
                },
            },
        };
        let is_rust = str_eq(slug.as_str(), "rust");
        let is_python = str_eq(slug.as_str(), "python");
        if !is_rust && !is_python {
            self.reset();
            return batch_highlight_via_arborium(source, slug.as_str());
        }
        let query_error = if is_rust {
            match &self.rust_query {
                Ok(_) => None,
                Err(error) => Some(error.clone()),
            }
        } else {
            match &self.python_query {
                Ok(_) => None,
                Err(error) => Some(error.clone()),
            }
        };
        if let Some(error) = query_error {
            self.reset();
            return plain_with_error(source, error);
        }
        let same_grammar = match &self.grammar {
            Some(loaded) => str_eq(loaded.as_str(), slug.as_str()),
            None => false,
        };
        if same_grammar && str_eq(self.last_source.as_str(), source) && self.tree.is_some()
            && edit.is_none() {
            let spans = self.last_spans.clone();
            assert(spans@ =~= self.last_spans@);
            return HighlightedSource::from_owned_parts(
                String::from_str(source),
                language_for_slug(slug.as_str()),
                spans,
                None,
            );
        }
        if !same_grammar {
            self.grammar = Some(String::from_str(slug.as_str()));
            self.tree = None;
            self.last_source = String::new();
            self.last_spans = Vec::new();
        }
        let ghost before = *self;
        let last = self.last_source.as_str();
        let old_tree = match edit {
            Some(edit) => match self.tree.take() {
                Some(mut tree) => match edit.into_input_edit(last, source) {
                    Some(input_edit) => {
                        edit_tree(&mut tree, &input_edit);
                        proof {
                            let a = utf8(before.last_source@);
                            let b = utf8(source@);
                            assert(last.spec_bytes() == a);
                            assert(source.spec_bytes() == b);
                            if before.spec_exact() && edit_keeps_context(edit, a, b) {
                                assert(edit_is_exact(before.last_source@, input_edit, source@));
                            }
                        }
                        Some(tree)
                    },
                    None => None,
                },
                None => None,
            },
            None => None,
        };
        let grammar = grammar_for(slug.as_str()).unwrap();
        let new_tree = parse_with(&mut self.parser, &grammar, source, old_tree.as_ref()).unwrap();
        let spans = if is_rust {
            match &self.rust_query {
                Ok(query) => collect_spans(query, &mut self.cursor, &new_tree, source),
                Err(_) => Vec::new(),
            }
        } else {
            match &self.python_query {
                Ok(query) => collect_spans(query, &mut self.cursor, &new_tree, source),
                Err(_) => Vec::new(),
            }
        };
        self.tree = Some(new_tree);
        self.last_source = String::from_str(source);
        let kept = spans.clone();
        assert(kept@ =~= spans@);
        self.last_spans = kept;
        HighlightedSource::from_owned_parts(String::from_str(source), language_for_slug(slug.as_str()), spans, None)
    }
}

/// The slug a call highlights with: the one asked for, when it is one of
/// `arborium`'s slugs, or else the one `arborium` detects.
pub open spec fn requested_slug(language: Option<&str>, source: Seq<char>) -> Option<Seq<char>> {
    match language {
        Some(slug) => if catalog_with_slug(slug@) is Some {
            Some(slug@)
        } else {
            detected_language(source)
        },
        None => detected_language(source),
    }
}

impl Default for IncrementalHighlighter {
    /// A highlighter with no grammar loaded yet.
    fn default() -> (r: Self)
        ensures
            r.wf(),
            r.is_reset(),
    {
        Self::new()
    }
}

} // verus!
