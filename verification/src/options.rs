//! Options for compile-time highlighting.
//!
//! The compile-time highlighting front end reads a [`CodeOptions`] builder
//! expression syntactically; the same builder is an ordinary value, so the
//! expression also type-checks against it.

use vstd::prelude::*;

use crate::language::Language;

verus! {

/// A value that names an optional language: a [`Language`] names itself,
/// an `Option<Language>` names what it holds.
pub trait LanguageChoice: Sized {
    /// The language this value names, if any.
    spec fn spec_language(self) -> Option<Language>;

    /// The language this value names, if any.
    fn into_language(self) -> (r: Option<Language>)
        ensures
            r == self.spec_language(),
    ;
}

impl LanguageChoice for Language {
    open spec fn spec_language(self) -> Option<Language> {
        Some(self)
    }

    fn into_language(self) -> (r: Option<Language>) {
        Some(self)
    }
}

impl LanguageChoice for Option<Language> {
    open spec fn spec_language(self) -> Option<Language> {
        self
    }

    fn into_language(self) -> (r: Option<Language>) {
        self
    }
}

/// Compile-time options for highlighting: the language, when it is not to
/// be inferred.
#[derive(Debug, Clone, Copy, Default, PartialEq, Eq, Structural)]
pub struct CodeOptions {
    language: Option<Language>,
}

impl CodeOptions {
    /// The language that was configured, if any.
    pub closed spec fn spec_language(self) -> Option<Language> {
        self.language
    }

    /// Default options: no language configured.
    pub fn new() -> (r: Self)
        ensures
            r.spec_language() is None,
    {
        CodeOptions { language: None }
    }

    /// Default options; the same as [`CodeOptions::new`], in builder style.
    pub fn builder() -> (r: Self)
        ensures
            r.spec_language() is None,
    {
        Self::new()
    }

    /// Set the language explicitly: a [`Language`], `Some(language)`, or
    /// `None` to let it be inferred.
    pub fn with_language<L: LanguageChoice>(self, language: L) -> (r: Self)
        ensures
            r.spec_language() == language.spec_language(),
    {
        CodeOptions { language: language.into_language() }
    }

    /// The explicit language, if one was configured.
    pub fn language(self) -> (r: Option<Language>)
        ensures
            r == self.spec_language(),
    {
        self.language
    }
}

} // verus!
