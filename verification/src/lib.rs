//! Syntax-highlighted source code: the data, the rules and the proofs.
//!
//! Source text is highlighted with the tree-sitter grammars that `arborium`
//! ships, into spans that tag byte ranges of the source. The spans are
//! normalised, cut the source into segments and lines, and render as
//! `a-{tag}` classed spans inside a container scoped by a theme's class.
//! Highlighting can run at runtime ([`SourceCode`]), incrementally across
//! edits ([`advanced::IncrementalHighlighter`]), or ahead of time for the
//! `code!` and `code_str!` macros ([`expansion`]).

use vstd::prelude::*;

pub mod text;
pub mod language;
pub mod catalog;
pub mod highlight;
pub mod normalize;
pub mod source;
pub mod runtime;
pub mod edit;
pub mod theme;
pub mod options;
pub mod expansion;
pub mod render;
pub mod incremental;
pub mod ctype;
pub mod showcase;
pub mod advanced;

pub use language::Language;
pub use options::CodeOptions;
pub use render::{Code, CodeMarkup, CodeProps};
pub use runtime::{HighlightError, SourceCode, SourceCodeBuilder};
pub use theme::{CodeTheme, Theme};

verus! {
} // verus!
