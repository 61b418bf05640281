//! Tree-sitter grammar selection.
//!
//! [`Language`] is the closed set of languages whose grammar this build of
//! the library ships (Rust and Python), with an extra `Auto` variant that
//! asks for detection from the source text. A language whose grammar is not
//! built in has no variant: its slug parses to `None`, and detection that
//! finds it finds no [`Language`].

use vstd::prelude::*;

use crate::text::str_eq;

verus! {

/// Tree-sitter grammar identifier.
///
/// Each variant maps to an Arborium language slug via [`Language::slug`].
#[derive(Debug, Clone, Copy, PartialEq, Eq, Hash, Structural)]
#[non_exhaustive]
pub enum Language {
    /// Automatically detect the language from the source text.
    Auto,
    /// Arborium slug `"rust"`.
    Rust,
    /// Arborium slug `"python"`.
    Python,
}

/// The Arborium slug of a language.
pub open spec fn slug_of(l: Language) -> Seq<char> {
    match l {
        Language::Auto => "auto"@,
        Language::Rust => "rust"@,
        Language::Python => "python"@,
    }
}

/// The name of a language's variant, as it is written in source code.
pub open spec fn variant_name_of(l: Language) -> Seq<char> {
    match l {
        Language::Auto => "Auto"@,
        Language::Rust => "Rust"@,
        Language::Python => "Python"@,
    }
}

/// The language whose Arborium slug is `s`, if any (`Auto` has none).
pub open spec fn language_with_slug(s: Seq<char>) -> Option<Language> {
    if s == "rust"@ {
        Some(Language::Rust)
    } else if s == "python"@ {
        Some(Language::Python)
    } else {
        None
    }
}

/// The language whose variant is named `s`, if any (`Auto` excepted).
pub open spec fn language_with_variant_name(s: Seq<char>) -> Option<Language> {
    if s == "Rust"@ {
        Some(Language::Rust)
    } else if s == "Python"@ {
        Some(Language::Python)
    } else {
        None
    }
}

/// The language a `betlang` detection with model label `s` stands for, if
/// its grammar is built in.
pub open spec fn language_for_betlang_slug(s: Seq<char>) -> Option<Language> {
    if s == "python"@ {
        Some(Language::Python)
    } else if s == "rust"@ {
        Some(Language::Rust)
    } else {
        None
    }
}

/// Every language but `Auto` is found again from its slug and from the name
/// of its variant.
pub proof fn lemma_slug_round_trip(l: Language)
    requires
        l != Language::Auto,
    ensures
        language_with_slug(slug_of(l)) == Some(l),
        language_with_variant_name(variant_name_of(l)) == Some(l),
{
    reveal_strlit("rust");
    reveal_strlit("python");
    reveal_strlit("Rust");
    reveal_strlit("Python");
    assert("python"@ != "rust"@) by {
        assert("python"@.len() != "rust"@.len());
    }
    assert("Python"@ != "Rust"@) by {
        assert("Python"@.len() != "Rust"@.len());
    }
}

/// `betlang` labels the languages built in here by their own slugs: the
/// label a language's slug spells stands for that language, and a label
/// stands for a language only when it spells that language's slug.
pub proof fn lemma_betlang_labels_are_slugs(l: Language, label: Seq<char>)
    ensures
        l != Language::Auto ==> language_for_betlang_slug(slug_of(l)) == Some(l),
        language_for_betlang_slug(label) matches Some(m) ==> m != Language::Auto && label == slug_of(m),
{
    reveal_strlit("rust");
    reveal_strlit("python");
    assert("python"@ != "rust"@) by {
        assert("python"@.len() != "rust"@.len());
    }
}

/// The slug the `arborium` crate detects for a path or file name, if any.
pub uninterp spec fn detected_language(path: Seq<char>) -> Option<Seq<char>>;

/// Calls `arborium::detect_language`, which maps the extension of a path or
/// file name to an Arborium language slug. The contract claims only that the
/// result depends on the path alone: it is named `detected_language`.
#[verifier::external_body]
pub(crate) fn arborium_detect_language(path: &str) -> (r: Option<&'static str>)
    ensures
        match r {
            Some(s) => detected_language(path@) == Some(s@),
            None => detected_language(path@) is None,
        },
{
    arborium::detect_language(path)
}

/// Calls `betlang::detect` on the source and reads the model label (the
/// `slug`) of the top prediction. The prediction comes from a floating-point
/// model, so the contract claims nothing of which label comes back; it
/// claims only what `betlang` documents, that an empty source gives none.
#[verifier::external_body]
pub(crate) fn betlang_detect_label(source: &str) -> (r: Option<&'static str>)
    ensures
        source@.len() == 0 ==> r is None,
{
    match betlang::detect(source).language() {
        Some(language) => Some(language.slug()),
        None => None,
    }
}

impl Language {
    /// Every variant, in declaration order.
    pub fn all() -> (r: Vec<Language>)
        ensures
            r@ == seq![Language::Auto, Language::Rust, Language::Python],
    {
        let v = vec![Language::Auto, Language::Rust, Language::Python];
        assert(v@ =~= seq![Language::Auto, Language::Rust, Language::Python]);
        v
    }

    /// Arborium slug for this language.
    pub fn slug(self) -> (r: &'static str)
        ensures
            r@ == slug_of(self),
    {
        match self {
            Language::Auto => "auto",
            Language::Rust => "rust",
            Language::Python => "python",
        }
    }

    /// The name of this variant, as it is written in source code.
    pub fn variant_name(self) -> (r: &'static str)
        ensures
            r@ == variant_name_of(self),
    {
        match self {
            Language::Auto => "Auto",
            Language::Rust => "Rust",
            Language::Python => "Python",
        }
    }

    /// Parse an Arborium slug into a [`Language`]; `None` for unknown slugs
    /// and for slugs whose grammar is not built in.
    pub fn from_slug(slug: &str) -> (r: Option<Self>)
        ensures
            r == language_with_slug(slug@),
    {
        if str_eq(slug, "rust") {
            return Some(Language::Rust);
        }
        if str_eq(slug, "python") {
            return Some(Language::Python);
        }
        None
    }

    /// The language whose variant is named `name`; `None` for other names.
    pub fn from_variant_name(name: &str) -> (r: Option<Self>)
        ensures
            r == language_with_variant_name(name@),
    {
        if str_eq(name, "Rust") {
            return Some(Language::Rust);
        }
        if str_eq(name, "Python") {
            return Some(Language::Python);
        }
        None
    }

    /// Map a `betlang` model label to the [`Language`] it stands for;
    /// `None` for labels whose grammar is not built in.
    pub fn from_betlang_language(label: &str) -> (r: Option<Self>)
        ensures
            r == language_for_betlang_slug(label@),
    {
        if str_eq(label, "python") {
            return Some(Language::Python);
        }
        if str_eq(label, "rust") {
            return Some(Language::Rust);
        }
        None
    }

    /// Best-effort detection from a path or file name: the slug that
    /// `arborium` detects from the extension, mapped to a [`Language`].
    pub fn detect(input: &str) -> (r: Option<Self>)
        ensures
            r == match detected_language(input@) {
                Some(s) => language_with_slug(s),
                None => None,
            },
    {
        match arborium_detect_language(input) {
            Some(slug) => Self::from_slug(slug),
            None => None,
        }
    }

    /// Best-effort detection from source contents with `betlang`: the
    /// language that the top prediction's label stands for, if any.
    pub fn detect_source(source: &str) -> (r: Option<Self>)
        ensures
            r matches Some(l) ==> exists|label: Seq<char>| language_for_betlang_slug(label) == Some(l),
            source@.len() == 0 ==> r is None,
    {
        match betlang_detect_label(source) {
            Some(label) => Self::from_betlang_language(label),
            None => None,
        }
    }
}

} // verus!
