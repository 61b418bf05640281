//! Compile-time highlighting, as the `code!` and `code_str!` macros do it.
//!
//! The options expression that a macro receives is read syntactically: a
//! chain of builder calls in which `with_language(..)` names the language.
//! When it names none, the language is detected from the file's extension,
//! then from the source text. The source is then highlighted with the
//! grammar of that language, and the spans are normalised as at runtime.

use vstd::prelude::*;

use crate::highlight::HighlightSpan;
use crate::catalog::{
    ArboriumLanguage,
    catalog_for_betlang_label,
    catalog_slug,
    catalog_variant_name,
    catalog_with_slug,
    catalog_with_variant_name,
};
use crate::language::{arborium_detect_language, betlang_detect_label, detected_language};
use crate::runtime::{
    CaptureView,
    HighlightError,
    arborium_captures,
    arborium_highlight_spans,
    captures_view,
    error_message,
    spans_from_captures,
    spans_from_raw_captures,
};
use crate::text::str_eq;

verus! {

/// The language a macro expands for: the name of its [`Language`] variant
/// and its Arborium slug.
#[derive(Debug, Clone, Copy, PartialEq, Eq)]
pub struct LanguageSpec {
    /// The name of the [`Language`] variant.
    pub variant: &'static str,
    /// The Arborium slug of the language.
    pub slug: &'static str,
}

/// `spec` names the language `language`.
pub open spec fn names_language(spec: LanguageSpec, language: ArboriumLanguage) -> bool {
    spec.variant@ == catalog_variant_name(language) && spec.slug@ == catalog_slug(language)
}

/// `spec` names `language` when there is one, and is `None` when not.
pub open spec fn describes(spec: Option<LanguageSpec>, language: Option<ArboriumLanguage>) -> bool {
    match (spec, language) {
        (Some(s), Some(l)) => names_language(s, l),
        (None, None) => true,
        _ => false,
    }
}

fn spec_for(language: ArboriumLanguage) -> (r: LanguageSpec)
    ensures
        names_language(r, language),
{
    LanguageSpec { variant: language.variant_name(), slug: language.slug() }
}

fn spec_for_option(language: Option<ArboriumLanguage>) -> (r: Option<LanguageSpec>)
    ensures
        describes(r, language),
{
    match language {
        Some(l) => Some(spec_for(l)),
        None => None,
    }
}

/// The language whose [`Language`] variant is named `variant`.
pub fn language_spec_for_variant(variant: &str) -> (r: Option<LanguageSpec>)
    ensures
        describes(r, catalog_with_variant_name(variant@)),
{
    spec_for_option(ArboriumLanguage::from_variant_name(variant))
}

/// The language whose Arborium slug is `slug`.
pub fn language_spec_for_slug(slug: &str) -> (r: Option<LanguageSpec>)
    ensures
        describes(r, catalog_with_slug(slug@)),
{
    spec_for_option(ArboriumLanguage::from_slug(slug))
}

/// The language that a `betlang` model label stands for.
pub fn language_spec_for_betlang(label: &str) -> (r: Option<LanguageSpec>)
    ensures
        describes(r, catalog_for_betlang_label(label@)),
{
    spec_for_option(ArboriumLanguage::from_betlang_label(label))
}

/// The language `betlang` detects from the source text, if it stands for
/// one of ours.
pub fn detect_source_language(source: &str) -> (r: Option<LanguageSpec>)
    ensures
        r matches Some(s) ==> exists|label: Seq<char>, l: ArboriumLanguage|
            catalog_for_betlang_label(label) == Some(l) && names_language(s, l),
        source@.len() == 0 ==> r is None,
{
    match betlang_detect_label(source) {
        Some(label) => spec_for_option(ArboriumLanguage::from_betlang_label(label)),
        None => None,
    }
}

/// An options expression, as far as the language lookup reads it.
#[derive(Debug)]
pub enum OptionsExpr {
    /// An invisible group around an expression.
    Group(Box<OptionsExpr>),
    /// An expression in parentheses.
    Paren(Box<OptionsExpr>),
    /// A method call `receiver.method(args..)`.
    MethodCall {
        /// The expression the method is called on.
        receiver: Box<OptionsExpr>,
        /// The method's name.
        method: String,
        /// The arguments.
        args: Vec<OptionsExpr>,
    },
    /// A call `func(args..)`.
    Call {
        /// The expression that is called.
        func: Box<OptionsExpr>,
        /// The arguments.
        args: Vec<OptionsExpr>,
    },
    /// A path such as `Language::Rust`: its segments' identifiers.
    Path {
        /// The identifiers of the segments, in order.
        segments: Vec<String>,
    },
    /// Any other expression.
    Other,
}

/// The last of `segments` is the identifier `name`.
pub open spec fn last_segment_is(segments: Seq<String>, name: Seq<char>) -> bool {
    segments.len() > 0 && segments.last()@ == name
}

/// `call` is a call of a path that ends in `Some`.
pub open spec fn spec_is_some_call(call: OptionsExpr) -> bool {
    match call {
        OptionsExpr::Call { func, .. } => match *func {
            OptionsExpr::Path { segments } => last_segment_is(segments@, "Some"@),
            _ => false,
        },
        _ => false,
    }
}

/// `path` is a path that ends in `None`.
pub open spec fn spec_is_none_path(path: OptionsExpr) -> bool {
    match path {
        OptionsExpr::Path { segments } => last_segment_is(segments@, "None"@),
        _ => false,
    }
}

/// The language an argument of `with_language` names: a variant path, or
/// `Some` of one, through groups and parentheses; `None` names none.
pub open spec fn parsed_language_arg(arg: OptionsExpr) -> Option<ArboriumLanguage>
    decreases arg,
{
    match arg {
        OptionsExpr::Group(inner) => parsed_language_arg(*inner),
        OptionsExpr::Paren(inner) => parsed_language_arg(*inner),
        OptionsExpr::Call { func, args } => {
            if spec_is_some_call(arg) && args.len() == 1 {
                parsed_language_arg(args@[0])
            } else {
                None
            }
        },
        OptionsExpr::Path { segments } => {
            if segments.len() > 0 && !last_segment_is(segments@, "None"@) {
                catalog_with_variant_name(segments@.last()@)
            } else {
                None
            }
        },
        _ => None,
    }
}

/// The language an options expression names: the outermost
/// `with_language(..)` call with one argument that names a language, looking
/// through groups, parentheses and the receivers of method calls.
pub open spec fn extracted_language(expr: OptionsExpr) -> Option<ArboriumLanguage>
    decreases expr,
{
    match expr {
        OptionsExpr::Group(inner) => extracted_language(*inner),
        OptionsExpr::Paren(inner) => extracted_language(*inner),
        OptionsExpr::MethodCall { receiver, method, args } => {
            if method@ == "with_language"@ && args.len() == 1 && parsed_language_arg(args@[0]) is Some {
                parsed_language_arg(args@[0])
            } else {
                extracted_language(*receiver)
            }
        },
        _ => None,
    }
}

/// The last identifier of a path's segments, when there are any.
fn last_segment(segments: &Vec<String>) -> (r: Option<&str>)
    ensures
        match r {
            Some(s) => segments@.len() > 0 && s@ == segments@.last()@,
            None => segments@.len() == 0,
        },
{
    if segments.len() == 0 {
        None
    } else {
        Some(segments[segments.len() - 1].as_str())
    }
}

/// Whether `call` is a call of a path that ends in `Some`.
pub fn is_some_call(call: &OptionsExpr) -> (r: bool)
    ensures
        r == spec_is_some_call(*call),
{
    match call {
        OptionsExpr::Call { func, .. } => match &**func {
            OptionsExpr::Path { segments } => match last_segment(segments) {
                Some(name) => str_eq(name, "Some"),
                None => false,
            },
            _ => false,
        },
        _ => false,
    }
}

/// Whether `path` is a path that ends in `None`.
pub fn is_none_path(path: &OptionsExpr) -> (r: bool)
    ensures
        r == spec_is_none_path(*path),
{
    match path {
        OptionsExpr::Path { segments } => match last_segment(segments) {
            Some(name) => str_eq(name, "None"),
            None => false,
        },
        _ => false,
    }
}

/// The language an argument of `with_language` names.
pub fn try_parse_language_arg(expr: &OptionsExpr) -> (r: Option<LanguageSpec>)
    ensures
        describes(r, parsed_language_arg(*expr)),
    decreases expr,
{
    match expr {
        OptionsExpr::Group(inner) => try_parse_language_arg(&**inner),
        OptionsExpr::Paren(inner) => try_parse_language_arg(&**inner),
        OptionsExpr::Call { args, .. } => {
            if is_some_call(expr) && args.len() == 1 {
                proof {
                    assert(args@[0] == args[0]);
                }
                try_parse_language_arg(&args[0])
            } else {
                None
            }
        },
        OptionsExpr::Path { segments } => {
            if is_none_path(expr) {
                None
            } else {
                match last_segment(segments) {
                    Some(name) => language_spec_for_variant(name),
                    None => None,
                }
            }
        },
        _ => None,
    }
}

/// The language an options expression names, if it names one.
pub fn try_extract_language(expr: &OptionsExpr) -> (r: Option<LanguageSpec>)
    ensures
        describes(r, extracted_language(*expr)),
    decreases expr,
{
    match expr {
        OptionsExpr::Group(inner) => try_extract_language(&**inner),
        OptionsExpr::Paren(inner) => try_extract_language(&**inner),
        OptionsExpr::MethodCall { receiver, method, args } => {
            if str_eq(method.as_str(), "with_language") && args.len() == 1 {
                if let Some(language) = try_parse_language_arg(&args[0]) {
                    return Some(language);
                }
            }
            try_extract_language(&**receiver)
        },
        _ => None,
    }
}

/// The language the options name, if there are options and they name one.
pub open spec fn options_language(options: Option<&OptionsExpr>) -> Option<ArboriumLanguage> {
    match options {
        Some(expr) => extracted_language(*expr),
        None => None,
    }
}

/// The language detected from the extension of the file a macro reads.
pub open spec fn path_language(origin_path: Option<&str>) -> Option<ArboriumLanguage> {
    match origin_path {
        Some(path) => match detected_language(path@) {
            Some(slug) => catalog_with_slug(slug),
            None => None,
        },
        None => None,
    }
}

/// What a macro reports when it cannot tell the language.
pub open spec fn undetected_message(origin_path: Option<&str>) -> Seq<char> {
    match origin_path {
        Some(path) => "could not detect language for `"@ + path@
            + "`; pass `CodeOptions::builder().with_language(Language::Rust)` or enable `detection` with the matching `lang-*` feature or `all-languages`"@,
        None => "could not determine language for `code_str!`; pass `CodeOptions::builder().with_language(Language::Rust)` or enable `detection` with the matching `lang-*` feature or `all-languages`"@,
    }
}

/// `spec` is a language that detection from the source text may give.
pub open spec fn source_detectable(spec: LanguageSpec) -> bool {
    exists|label: Seq<char>, l: ArboriumLanguage|
        catalog_for_betlang_label(label) == Some(l) && names_language(spec, l)
}

/// `spec` is a language a macro may pick: the one the options name, else
/// the one the file's extension gives, else one detected from the source.
pub open spec fn chosen_language(
    options: Option<&OptionsExpr>,
    origin_path: Option<&str>,
    spec: LanguageSpec,
) -> bool {
    match options_language(options) {
        Some(l) => names_language(spec, l),
        None => match path_language(origin_path) {
            Some(l) => names_language(spec, l),
            None => source_detectable(spec),
        },
    }
}

/// The text that reports an undetected language.
fn undetected_text(origin_path: Option<&str>) -> (r: String)
    ensures
        r@ == undetected_message(origin_path),
{
    match origin_path {
        Some(path) => {
            let mut message = String::from_str("could not detect language for `");
            message.append(path);
            message.append(
                "`; pass `CodeOptions::builder().with_language(Language::Rust)` or enable `detection` with the matching `lang-*` feature or `all-languages`",
            );
            message
        },
        None => String::from_str(
            "could not determine language for `code_str!`; pass `CodeOptions::builder().with_language(Language::Rust)` or enable `detection` with the matching `lang-*` feature or `all-languages`",
        ),
    }
}

/// The language a macro highlights in: the one the options name, else the
/// one the extension of the file it reads gives, else one detected from
/// the source; the report of an undetected language when there is none.
pub fn select_language(options: Option<&OptionsExpr>, origin_path: Option<&str>, source: &str) -> (r:
    Result<LanguageSpec, String>)
    ensures
        match r {
            Ok(spec) => chosen_language(options, origin_path, spec),
            Err(message) => {
                &&& options_language(options) is None
                &&& path_language(origin_path) is None
                &&& message@ == undetected_message(origin_path)
            },
        },
        options_language(options) is Some ==> r is Ok,
        options_language(options) is None && path_language(origin_path) is Some ==> r is Ok,
        options_language(options) is None && path_language(origin_path) is None && source@.len()
            == 0 ==> r is Err,
{
    let from_options = match options {
        Some(expr) => try_extract_language(expr),
        None => None,
    };
    if let Some(spec) = from_options {
        return Ok(spec);
    }
    let from_path = match origin_path {
        Some(path) => match arborium_detect_language(path) {
            Some(slug) => spec_for_option(ArboriumLanguage::from_slug(slug)),
            None => None,
        },
        None => None,
    };
    if let Some(spec) = from_path {
        return Ok(spec);
    }
    match detect_source_language(source) {
        Some(spec) => Ok(spec),
        None => Err(undetected_text(origin_path)),
    }
}

/// What a macro expands to: the language and the normalised spans.
#[derive(Debug, Clone, PartialEq, Eq)]
pub struct Expansion {
    /// The language the source was highlighted in.
    pub language: LanguageSpec,
    /// The spans of the highlighted source.
    pub spans: Vec<HighlightSpan>,
}

/// Why a macro could not expand to highlighted source.
#[derive(Debug, Clone, PartialEq, Eq)]
pub enum ExpansionError {
    /// No language was named or detected; the message says what to do.
    Undetected {
        /// The report of the undetected language.
        message: String,
    },
    /// The grammar of the language failed on the source.
    Highlight {
        /// The text of the failure.
        message: String,
    },
}

/// The outcome of highlighting `source` in the language of `spec`: its spans
/// from the captures `arborium` reports, or the text of its error.
pub open spec fn expansion_outcome(
    spec: LanguageSpec,
    source: Seq<char>,
    r: Result<Expansion, ExpansionError>,
) -> bool {
    match arborium_captures(spec.slug@, source) {
        Ok(caps) => r matches Ok(x) && x.language == spec && spans_from_captures(caps, x.spans@),
        Err(m) => r matches Err(ExpansionError::Highlight { message }) && message@ == m,
    }
}

/// Highlight a macro's source: pick the language, then highlight the source
/// with its grammar and normalise the spans.
pub fn expand_shared(options: Option<&OptionsExpr>, source: &str, origin_path: Option<&str>) -> (r:
    Result<Expansion, ExpansionError>)
    ensures
        match r {
            Err(ExpansionError::Undetected { message }) => {
                &&& options_language(options) is None
                &&& path_language(origin_path) is None
                &&& message@ == undetected_message(origin_path)
            },
            _ => exists|spec: LanguageSpec|
                chosen_language(options, origin_path, spec) && expansion_outcome(spec, source@, r),
        },
        options_language(options) is Some || path_language(origin_path) is Some ==> !(r matches Err(
            ExpansionError::Undetected { .. },
        )),
        options_language(options) is None && path_language(origin_path) is None && source@.len()
            == 0 ==> r matches Err(ExpansionError::Undetected { .. }),
{
    let language = match select_language(options, origin_path, source) {
        Ok(language) => language,
        Err(message) => {
            return Err(ExpansionError::Undetected { message });
        },
    };
    match arborium_highlight_spans(language.slug, source) {
        Ok(captures) => {
            let spans = spans_from_raw_captures(&captures);
            let r = Ok(Expansion { language, spans });
            assert(expansion_outcome(language, source@, r));
            r
        },
        Err(error) => {
            let r = Err(ExpansionError::Highlight { message: error.message() });
            assert(expansion_outcome(language, source@, r));
            r
        },
    }
}

/// A path that no platform reads as absolute or as starting with a drive,
/// network or device prefix: it holds no `:` and starts with neither `/` nor
/// `\`.
pub open spec fn plainly_relative(p: Seq<char>) -> bool {
    &&& !p.contains(':')
    &&& !(p.len() > 0 && (p[0] == '/' || p[0] == '\\'))
}

/// `r` is `base`, then possibly a separator, then `rest`: it starts with
/// `base` and ends with `rest`, the two not overlapping.
pub open spec fn joined_under(base: Seq<char>, rest: Seq<char>, r: Seq<char>) -> bool {
    &&& r.len() >= base.len() + rest.len()
    &&& r.take(base.len() as int) == base
    &&& r.skip(r.len() - rest.len()) == rest
}

/// Calls `std::path::Path::is_absolute`. What makes a path absolute
/// depends on the platform (a root on Unix; a prefix and a root on
/// Windows), but a plainly relative path has neither: the contract claims
/// only that such a path is not absolute.
#[verifier::external_body]
fn path_is_absolute(path: &str) -> (r: bool)
    ensures
        plainly_relative(path@) ==> !r,
{
    std::path::Path::new(path).is_absolute()
}

/// Calls `std::path::Path::starts_with`, which compares the paths'
/// components as the platform splits them; the contract claims nothing of
/// the result.
#[verifier::external_body]
fn path_starts_with(path: &str, base: &str) -> (r: bool) {
    std::path::Path::new(path).starts_with(base)
}

/// Calls `std::path::Path::join` and reads the result back as a string.
/// `PathBuf::push`, which `join` documents itself by, appends a path that
/// has no prefix and no root to the base, with a separator when the base
/// does not end in one; only a base with a Windows verbatim prefix
/// (`\\?\`) is rewritten on the way. Both halves are valid UTF-8, so
/// reading back loses nothing. The contract claims that much for a plainly
/// relative `rest` and a base that does not start with `\`; the separator
/// is left to the platform.
#[verifier::external_body]
fn path_join(base: &str, rest: &str) -> (r: String)
    ensures
        plainly_relative(rest@) && !(base@.len() > 0 && base@[0] == '\\') ==> joined_under(
            base@,
            rest@,
            r@,
        ),
{
    std::path::Path::new(base).join(rest).to_string_lossy().into_owned()
}

/// Where a path given to a macro is read from.
#[derive(Debug, Clone, Copy, PartialEq, Eq)]
pub enum ManifestPath<'a> {
    /// The path as given.
    AsGiven,
    /// This path, relative to the manifest directory.
    Relative(&'a str),
}

/// Where a macro reads `path`: as given when it is an absolute path inside
/// the manifest directory (such as one built with
/// `concat!(env!("CARGO_MANIFEST_DIR"), ..)`); otherwise relative to the
/// manifest directory, a leading `/` anchoring it there.
pub fn manifest_path_choice<'a>(path: &'a str, absolute: bool, inside_manifest: bool) -> (r:
    ManifestPath<'a>)
    ensures
        absolute && inside_manifest ==> r == ManifestPath::AsGiven,
        !(absolute && inside_manifest) ==> (r matches ManifestPath::Relative(rest)
            && rest@ == if path@.len() > 0 && path@[0] == '/' {
            path@.drop_first()
        } else {
            path@
        }),
{
    if absolute && inside_manifest {
        return ManifestPath::AsGiven;
    }
    match crate::text::strip_leading_slash(path) {
        Some(rest) => ManifestPath::Relative(rest),
        None => ManifestPath::Relative(path),
    }
}

/// The path a macro reads `path` from, given the manifest directory: what
/// [`manifest_path_choice`] picks, with the absoluteness and the prefix of
/// the path as `std::path` reports them. A plainly relative path is joined
/// onto the manifest directory; one that is plainly relative after a
/// leading `/` is joined there without the `/`, unless it is an absolute
/// path inside the manifest directory, which is read as given. The
/// separator is the platform's.
pub fn resolve_manifest_path(manifest_dir: &str, path: &str) -> (r: String)
    ensures
        plainly_relative(path@) && !(manifest_dir@.len() > 0 && manifest_dir@[0] == '\\')
            ==> joined_under(manifest_dir@, path@, r@),
        path@.len() > 0 && path@[0] == '/' && plainly_relative(path@.drop_first()) && !(
        manifest_dir@.len() > 0 && manifest_dir@[0] == '\\') ==> (r@ == path@ || joined_under(
            manifest_dir@,
            path@.drop_first(),
            r@,
        )),
{
    let absolute = path_is_absolute(path);
    let inside = absolute && path_starts_with(path, manifest_dir);
    match manifest_path_choice(path, absolute, inside) {
        ManifestPath::AsGiven => String::from_str(path),
        ManifestPath::Relative(rest) => path_join(manifest_dir, rest),
    }
}

} // verus!
