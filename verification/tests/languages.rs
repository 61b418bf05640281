use dioxus_code::{CodeOptions, Language};

#[test]
fn language_maps_betlang_languages_directly() {
    assert_eq!(
        Language::from_betlang_language(betlang::Language::Rust.slug()),
        Some(Language::Rust),
    );
    // Only the grammars built in (Rust and Python) are languages here; the
    // other labels name grammars that are not.
    let cases = [
        betlang::Language::Cs,
        betlang::Language::Lisp,
        betlang::Language::ObjectiveC,
        betlang::Language::Shell,
        betlang::Language::Vba,
        betlang::Language::Gemfile,
        betlang::Language::Gemspec,
        betlang::Language::Gradle,
    ];
    for betlang in cases {
        assert_eq!(Language::from_betlang_language(betlang.slug()), None);
    }
    assert_eq!(
        Language::from_betlang_language(betlang::Language::Python.slug()),
        Some(Language::Python),
    );
}

#[test]
fn detect_does_not_fall_back_to_source_contents() {
    let source = "use std::fmt;\nfn main() { println!(\"hi\"); }";

    assert_eq!(Language::detect(source), None);
    assert_eq!(Language::detect_source(source), Some(Language::Rust));
}

#[test]
fn detection_from_paths_uses_the_extension() {
    assert_eq!(Language::detect("main.rs"), Some(Language::Rust));
    assert_eq!(Language::detect("/path/to/script.py"), Some(Language::Python));
    assert_eq!(Language::detect("unknown.xyz"), None);
    assert_eq!(Language::detect_source(""), None);
}

#[test]
fn slugs_and_variant_names_round_trip() {
    let all = Language::all();
    assert_eq!(all.len(), 3);
    assert_eq!(all[0], Language::Auto);
    for language in all.iter().copied().filter(|l| *l != Language::Auto) {
        assert_eq!(Language::from_slug(language.slug()), Some(language));
        assert_eq!(Language::from_variant_name(language.variant_name()), Some(language));
    }
    assert_eq!(Language::Rust.slug(), "rust");
    assert_eq!(Language::Python.slug(), "python");
    assert_eq!(Language::from_slug("toml"), None);
    assert_eq!(Language::Auto.slug(), "auto");
    assert_eq!(Language::from_slug("auto"), None);
    assert_eq!(Language::from_slug("brainfuck"), None);
    assert_eq!(Language::from_variant_name("Auto"), None);
}

#[test]
fn every_betlang_label_maps_to_a_language_or_none() {
    for label in ["asm", "cs", "gemfile", "shell", "vba", "python", "unknown"] {
        let mapped = Language::from_betlang_language(label);
        assert_eq!(mapped.is_some(), label == "python");
    }
}

#[test]
fn code_options_accepts_language_options() {
    assert_eq!(
        CodeOptions::builder().with_language(Language::Rust).language(),
        Some(Language::Rust),
    );
    assert_eq!(
        CodeOptions::builder().with_language(Some(Language::Rust)).language(),
        Some(Language::Rust),
    );
    assert_eq!(CodeOptions::builder().with_language(None).language(), None);
}

#[test]
fn code_options_start_without_a_language() {
    assert_eq!(CodeOptions::new().language(), None);
    assert_eq!(CodeOptions::default(), CodeOptions::new());
    assert_eq!(
        CodeOptions::new().with_language(Language::Rust).with_language(None).language(),
        None
    );
}
