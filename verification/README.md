# dioxus_code

Syntax-highlighted code blocks for Dioxus, with the highlighting logic
written in Verus and proved against its contracts.

Source text is parsed by the tree-sitter grammars that `arborium` ships. The
captures become highlight spans, which are normalised (one tag per byte
range, sorted, same-tag runs merged), cut the source into segments and lines,
and render as `a-{tag}` spans inside a container scoped by a theme's class.

## Languages

This build ships two grammars, Rust and Python, and `Language` offers
exactly those (and `Auto`, which detects one of them): every language it
offers can be highlighted. `catalog::ArboriumLanguage` lists all of
Arborium's languages, for the macros' language names and for detection;
a slug among them whose grammar is not built in is reported as an
unsupported language. The incremental highlighter parses Rust and Python
itself, reusing the last tree across edits; any other slug goes through
Arborium's one-shot highlighter.

## Layout

- `src/` – the verified library.
  - `highlight.rs`, `source.rs` – spans, segments, lines; the laws that
    segments and lines give back the source.
  - `normalize.rs` – span normalisation and its uniqueness and shape laws.
  - `runtime.rs`, `incremental.rs` – highlighting at runtime, one-shot or
    across edits with a cached parse tree.
  - `edit.rs` – byte-range edits: diffs, UTF-16 selection offsets, row and
    column positions, and the tracker that pairs edits with renders.
  - `language.rs`, `catalog.rs`, `options.rs`, `expansion.rs` – languages,
    Arborium's language catalog, their slugs and
    detection, and the language choice and highlighting behind the
    `code!`/`code_str!` macros.
  - `theme.rs`, `render.rs` – themes, their slugged CSS classes, and what a
    code block renders.
  - `ctype.rs`, `showcase.rs`, `text.rs` – C character classes for WASM
    grammar scanners, the showcase site's theme choices, string helpers.
- `app/` – the Dioxus components, the macro front end (input parsing, file
  reading, token output) and the exported C symbols.
- `tests/` – tests of the library on concrete values.
