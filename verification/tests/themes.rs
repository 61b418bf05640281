use arborium_theme::builtin;
use dioxus_code::theme::{editor_class, slug, ThemeSelection, ThemeStylesheet};
use dioxus_code::{CodeTheme, Theme};

#[test]
fn system_theme_classes_include_scoped_slots() {
    assert_eq!(
        CodeTheme::system(Theme::GITHUB_LIGHT, Theme::TOKYO_NIGHT).classes(),
        "dxc-system dxc-system-light-github-light dxc-system-dark-tokyo-night",
    );
}

#[test]
fn fixed_theme_classes_name_the_theme() {
    let classes = CodeTheme::fixed(Theme::TOKYO_NIGHT).classes();
    assert!(classes.contains("dxc-tokyo-night"));
    assert_eq!(classes, "dxc-tokyo-night");
}

#[test]
fn editor_class_includes_theme_and_extra_class() {
    assert_eq!(
        editor_class(Theme::TOKYO_NIGHT, true, "is-compact"),
        "dxc-editor dxc-tokyo-night is-compact",
    );
}

#[test]
fn editor_class_can_hide_gutter() {
    assert_eq!(
        editor_class(Theme::TOKYO_NIGHT, false, ""),
        "dxc-editor dxc-tokyo-night dxc-editor-no-gutter",
    );
}

#[test]
fn editor_class_can_use_system_theme() {
    assert_eq!(
        editor_class(CodeTheme::system(Theme::GITHUB_LIGHT, Theme::TOKYO_NIGHT), true, ""),
        "dxc-editor dxc-system dxc-system-light-github-light dxc-system-dark-tokyo-night",
    );
}

#[test]
fn editor_class_puts_gutter_before_extra_class() {
    assert_eq!(
        editor_class(Theme::NORD, false, "wide"),
        "dxc-editor dxc-nord dxc-editor-no-gutter wide",
    );
}

#[test]
fn slugs_fold_case_accents_and_separators() {
    assert_eq!(slug("Tokyo Night"), "tokyo-night");
    assert_eq!(slug("Catppuccin Frappé"), "catppuccin-frappe");
    assert_eq!(slug("Rosé Pine Moon"), "rose-pine-moon");
    assert_eq!(slug("ÉCLAIR"), "eclair");
    assert_eq!(slug("EF Melissa Dark"), "ef-melissa-dark");
    assert_eq!(slug("Cobalt2"), "cobalt2");
    assert_eq!(slug("  --Hello__ World--  "), "hello-world");
    assert_eq!(slug("a.b+c"), "abc");
    assert_eq!(slug("---"), "");
    assert_eq!(slug(""), "");
}

#[test]
fn theme_names_are_arborium_builtin_names() {
    let cases = [
        (Theme::ALABASTER, builtin::alabaster()),
        (Theme::AYU_DARK, builtin::ayu_dark()),
        (Theme::AYU_LIGHT, builtin::ayu_light()),
        (Theme::CATPPUCCIN_FRAPPE, builtin::catppuccin_frappe()),
        (Theme::CATPPUCCIN_LATTE, builtin::catppuccin_latte()),
        (Theme::CATPPUCCIN_MACCHIATO, builtin::catppuccin_macchiato()),
        (Theme::CATPPUCCIN_MOCHA, builtin::catppuccin_mocha()),
        (Theme::COBALT2, builtin::cobalt2()),
        (Theme::DAYFOX, builtin::dayfox()),
        (Theme::DESERT256, builtin::desert256()),
        (Theme::DRACULA, builtin::dracula()),
        (Theme::EF_MELISSA_DARK, builtin::ef_melissa_dark()),
        (Theme::GITHUB_DARK, builtin::github_dark()),
        (Theme::GITHUB_LIGHT, builtin::github_light()),
        (Theme::GRUVBOX_DARK, builtin::gruvbox_dark()),
        (Theme::GRUVBOX_LIGHT, builtin::gruvbox_light()),
        (Theme::KANAGAWA_DRAGON, builtin::kanagawa_dragon()),
        (Theme::LIGHT_OWL, builtin::light_owl()),
        (Theme::LUCIUS_LIGHT, builtin::lucius_light()),
        (Theme::MELANGE_DARK, builtin::melange_dark()),
        (Theme::MELANGE_LIGHT, builtin::melange_light()),
        (Theme::MONOKAI, builtin::monokai()),
        (Theme::NORD, builtin::nord()),
        (Theme::ONE_DARK, builtin::one_dark()),
        (Theme::ROSE_PINE_MOON, builtin::rose_pine_moon()),
        (Theme::RUSTDOC_AYU, builtin::rustdoc_ayu()),
        (Theme::RUSTDOC_DARK, builtin::rustdoc_dark()),
        (Theme::RUSTDOC_LIGHT, builtin::rustdoc_light()),
        (Theme::SOLARIZED_DARK, builtin::solarized_dark()),
        (Theme::SOLARIZED_LIGHT, builtin::solarized_light()),
        (Theme::TOKYO_NIGHT, builtin::tokyo_night()),
        (Theme::ZENBURN, builtin::zenburn()),
    ];
    for (theme, builtin) in cases {
        assert_eq!(theme.name(), builtin.name);
        let slug = theme.slug();
        assert!(!slug.is_empty());
        assert!(!slug.starts_with('-') && !slug.ends_with('-') && !slug.contains("--"));
        assert!(slug.chars().all(|c| c.is_ascii_lowercase() || c.is_ascii_digit() || c == '-'));
        assert_eq!(theme.class(), format!("dxc-{slug}"));
    }
}

#[test]
fn theme_classes_and_stylesheets() {
    assert_eq!(Theme::CATPPUCCIN_FRAPPE.class(), "dxc-catppuccin-frappe");
    assert_eq!(Theme::ROSE_PINE_MOON.slug(), "rose-pine-moon");
    assert_eq!(Theme::GITHUB_LIGHT.system_light_class(), "dxc-system-light-github-light");
    assert_eq!(Theme::TOKYO_NIGHT.system_dark_class(), "dxc-system-dark-tokyo-night");
    assert_eq!(
        Theme::TOKYO_NIGHT.stylesheet(),
        ThemeStylesheet { class: "dxc-tokyo-night".to_string(), file: "tokyo-night.css".to_string() }
    );
    assert_eq!(
        Theme::GITHUB_LIGHT.system_light(),
        ThemeStylesheet {
            class: "dxc-system-light-github-light".to_string(),
            file: "github-light-system-light.css".to_string(),
        }
    );
    assert_eq!(
        Theme::TOKYO_NIGHT.system_dark(),
        ThemeStylesheet {
            class: "dxc-system-dark-tokyo-night".to_string(),
            file: "tokyo-night-system-dark.css".to_string(),
        }
    );
}

#[test]
fn code_theme_stylesheets_follow_the_selection() {
    let fixed = CodeTheme::fixed(Theme::NORD).stylesheets();
    assert_eq!(fixed.len(), 1);
    assert_eq!(fixed[0].class, "dxc-nord");
    let system = CodeTheme::system(Theme::GITHUB_LIGHT, Theme::TOKYO_NIGHT).stylesheets();
    assert_eq!(system.len(), 2);
    assert_eq!(system[0].class, "dxc-system-light-github-light");
    assert_eq!(system[1].class, "dxc-system-dark-tokyo-night");
}

#[test]
fn theme_defaults() {
    assert_eq!(Theme::default(), Theme::RUSTDOC_AYU);
    assert_eq!(CodeTheme::default(), CodeTheme::fixed(Theme::RUSTDOC_AYU));
    assert_eq!(CodeTheme::from(Theme::TOKYO_NIGHT), CodeTheme::fixed(Theme::TOKYO_NIGHT));
    assert_eq!(
        CodeTheme::system(Theme::DAYFOX, Theme::NORD).selection(),
        ThemeSelection::System { light: Theme::DAYFOX, dark: Theme::NORD }
    );
}
