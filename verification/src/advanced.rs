//! Building blocks for custom syntax-highlighted renderers: highlighted
//! source, spans and segments, the token renderer, incremental
//! highlighting and the edits that drive it.

pub use crate::edit::{InputEdit, InputEditTracker, Point, SourceEdit};
pub use crate::highlight::{HighlightSegment, HighlightSpan};
pub use crate::incremental::IncrementalHighlighter;
pub use crate::render::{SpanMarkup, TokenSpan, TokenSpanProps};
pub use crate::source::HighlightedSource;
pub use crate::theme::ThemeStylesheet;

use vstd::prelude::*;

verus! {
} // verus!
