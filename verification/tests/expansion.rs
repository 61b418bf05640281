use dioxus_code::expansion::{
    detect_source_language, expand_shared, is_none_path, is_some_call, language_spec_for_betlang,
    language_spec_for_slug, language_spec_for_variant, manifest_path_choice, resolve_manifest_path,
    select_language, try_extract_language, try_parse_language_arg, ExpansionError, LanguageSpec,
    ManifestPath, OptionsExpr,
};

/// The options expression as the language lookup reads it.
fn options_expr(expr: &syn::Expr) -> OptionsExpr {
    match expr {
        syn::Expr::Group(group) => OptionsExpr::Group(Box::new(options_expr(&group.expr))),
        syn::Expr::Paren(paren) => OptionsExpr::Paren(Box::new(options_expr(&paren.expr))),
        syn::Expr::MethodCall(call) => OptionsExpr::MethodCall {
            receiver: Box::new(options_expr(&call.receiver)),
            method: call.method.to_string(),
            args: call.args.iter().map(options_expr).collect(),
        },
        syn::Expr::Call(call) => OptionsExpr::Call {
            func: Box::new(options_expr(&call.func)),
            args: call.args.iter().map(options_expr).collect(),
        },
        syn::Expr::Path(path) => OptionsExpr::Path {
            segments: path.path.segments.iter().map(|s| s.ident.to_string()).collect(),
        },
        _ => OptionsExpr::Other,
    }
}

fn parse(expr: &str) -> OptionsExpr {
    options_expr(&syn::parse_str::<syn::Expr>(expr).unwrap())
}

fn language(expr: &str) -> Option<LanguageSpec> {
    try_extract_language(&parse(expr))
}

fn slug(expr: &str) -> Option<&'static str> {
    language(expr).map(|language| language.slug)
}

#[test]
fn extracts_language_variant_options() {
    assert_eq!(
        slug("CodeOptions::builder().with_language(Language::Rust)"),
        Some("rust"),
    );
    assert_eq!(
        slug("CodeOptions::builder().with_language(Some(Language::Rust))"),
        Some("rust"),
    );
}

#[test]
fn extracts_none_language_option() {
    assert_eq!(slug("CodeOptions::builder().with_language(None)"), None,);
}

#[test]
fn unknown_method_chains_fall_back_silently() {
    assert_eq!(slug("CodeOptions::builder()"), None);
    assert_eq!(
        slug("CodeOptions::builder().with_themes(Language::Rust)"),
        None,
    );
}

#[test]
fn lib_maps_betlang_languages_directly() {
    let cases = [
        (betlang::Language::Cs, "CSharp", "c-sharp"),
        (betlang::Language::Lisp, "CommonLisp", "commonlisp"),
        (betlang::Language::Shell, "Bash", "bash"),
        (betlang::Language::Vba, "VisualBasic", "vb"),
    ];
    for (betlang, variant, slug) in cases {
        assert_eq!(
            language_spec_for_betlang(betlang.slug()),
            Some(LanguageSpec { variant, slug })
        );
    }
}

#[test]
fn language_arguments_look_through_groups_and_parentheses() {
    assert_eq!(slug("(CodeOptions::builder().with_language((Language::Python)))"), Some("python"));
    assert_eq!(slug("CodeOptions::new().with_language(Some((Language::CSharp)))"), Some("c-sharp"));
    assert_eq!(slug("CodeOptions::new().with_language(Rust)"), Some("rust"));
    assert_eq!(slug("CodeOptions::new().with_language(Language::Nope)"), None);
    assert_eq!(slug("CodeOptions::new().with_language(Language::Rust, 1)"), None);
    assert_eq!(slug("CodeOptions::new().with_language(std::option::Option::None)"), None);
}

#[test]
fn the_outermost_naming_call_wins() {
    assert_eq!(
        slug("CodeOptions::new().with_language(Language::Rust).with_language(Language::Toml)"),
        Some("toml")
    );
    assert_eq!(
        slug("CodeOptions::new().with_language(Language::Rust).with_language(None)"),
        Some("rust")
    );
}

#[test]
fn some_calls_and_none_paths_are_recognised() {
    assert!(is_some_call(&parse("Some(Language::Rust)")));
    assert!(is_some_call(&parse("std::option::Option::Some(1)")));
    assert!(!is_some_call(&parse("Ok(Language::Rust)")));
    assert!(!is_some_call(&parse("Language::Rust")));
    assert!(is_none_path(&parse("None")));
    assert!(is_none_path(&parse("Option::None")));
    assert!(!is_none_path(&parse("Language::Rust")));
    assert_eq!(
        try_parse_language_arg(&parse("Some(Language::Json)")),
        Some(LanguageSpec { variant: "Json", slug: "json" })
    );
    assert_eq!(try_parse_language_arg(&parse("Some(None)")), None);
}

#[test]
fn specs_are_found_by_variant_and_slug() {
    assert_eq!(
        language_spec_for_variant("ObjectiveC"),
        Some(LanguageSpec { variant: "ObjectiveC", slug: "objc" })
    );
    assert_eq!(
        language_spec_for_slug("ssh-config"),
        Some(LanguageSpec { variant: "SshConfig", slug: "ssh-config" })
    );
    assert_eq!(language_spec_for_variant("Auto"), None);
    assert_eq!(language_spec_for_slug("brainfuck"), None);
}

#[test]
fn detection_from_source_finds_rust() {
    assert_eq!(
        detect_source_language("use std::fmt;\nfn main() { println!(\"hi\"); }"),
        Some(LanguageSpec { variant: "Rust", slug: "rust" })
    );
}

#[test]
fn language_selection_prefers_options_then_path() {
    let options = parse("CodeOptions::builder().with_language(Language::Toml)");
    assert_eq!(
        select_language(Some(&options), Some("/x/main.rs"), "fn main() {}"),
        Ok(LanguageSpec { variant: "Toml", slug: "toml" })
    );
    assert_eq!(
        select_language(None, Some("/x/main.py"), "fn main() {}"),
        Ok(LanguageSpec { variant: "Python", slug: "python" })
    );
}

#[test]
fn undetected_languages_are_reported() {
    assert_eq!(
        expand_shared(None, "", Some("/x/notes.unknownext")),
        Err(ExpansionError::Undetected {
            message: "could not detect language for `/x/notes.unknownext`; pass `CodeOptions::builder().with_language(Language::Rust)` or enable `detection` with the matching `lang-*` feature or `all-languages`".to_string(),
        })
    );
    assert_eq!(
        expand_shared(None, "", None),
        Err(ExpansionError::Undetected {
            message: "could not determine language for `code_str!`; pass `CodeOptions::builder().with_language(Language::Rust)` or enable `detection` with the matching `lang-*` feature or `all-languages`".to_string(),
        })
    );
}

#[test]
fn code_str_macro_highlights_inline_source() {
    let options = parse("CodeOptions::builder().with_language(Language::Rust)");
    let expansion = expand_shared(Some(&options), "fn main() {}", None).unwrap();
    assert_eq!(expansion.language, LanguageSpec { variant: "Rust", slug: "rust" });
    let source = "fn main() {}";
    assert!(expansion.spans.iter().any(|span| {
        span.tag() == "k" && &source[span.start() as usize..span.end() as usize] == "fn"
    }));
}

#[test]
fn code_str_macro_detects_inline_source() {
    let source = "fn main() { println!(\"hi\"); }";
    let expansion = expand_shared(None, source, None).unwrap();
    assert_eq!(expansion.language, LanguageSpec { variant: "Rust", slug: "rust" });
    assert!(expansion.spans.iter().any(|span| {
        span.tag() == "k" && &source[span.start() as usize..span.end() as usize] == "fn"
    }));
}

#[test]
fn grammars_that_are_not_built_in_fail_to_highlight() {
    let options = parse("CodeOptions::builder().with_language(Language::Toml)");
    assert_eq!(
        expand_shared(Some(&options), "a = 1", None),
        Err(ExpansionError::Highlight { message: "unsupported language: toml".to_string() })
    );
}

#[test]
fn manifest_paths_are_resolved() {
    assert_eq!(manifest_path_choice("/abs/x.rs", true, true), ManifestPath::AsGiven);
    assert_eq!(
        manifest_path_choice("/snippets/demo.rs", true, false),
        ManifestPath::Relative("snippets/demo.rs")
    );
    assert_eq!(
        manifest_path_choice("snippets/demo.rs", false, false),
        ManifestPath::Relative("snippets/demo.rs")
    );
    assert_eq!(
        resolve_manifest_path("/crate/root", "/snippets/demo.rs"),
        "/crate/root/snippets/demo.rs"
    );
    assert_eq!(resolve_manifest_path("/crate/root", "demo.rs"), "/crate/root/demo.rs");
    assert_eq!(resolve_manifest_path("/crate", "/crate/src/lib.rs"), "/crate/src/lib.rs");
}

#[test]
fn relative_manifest_paths_keep_the_directory_and_the_path() {
    let resolved = resolve_manifest_path("/crate/root", "snippets/demo.rs");
    assert!(resolved.starts_with("/crate/root"));
    assert!(resolved.ends_with("snippets/demo.rs"));
    assert_eq!(resolved, "/crate/root/snippets/demo.rs");
    assert_eq!(resolve_manifest_path("/crate/root/", "demo.rs"), "/crate/root/demo.rs");
}
