use dioxus_code::showcase::{
    dark_demo_themes, demo_theme_pairs, light_demo_themes, Scheme, ThemeMode, ThemePair,
};
use dioxus_code::{CodeTheme, Theme};

#[test]
fn schemes_resolve_and_toggle() {
    assert_eq!(Scheme::System.class(), "site-shell theme-system");
    assert_eq!(Scheme::Dark.class(), "site-shell theme-dark");
    assert_eq!(Scheme::System.resolved(ThemeMode::Dark), ThemeMode::Dark);
    assert_eq!(Scheme::Light.resolved(ThemeMode::Dark), ThemeMode::Light);
    for scheme in [Scheme::System, Scheme::Light, Scheme::Dark] {
        assert_eq!(Scheme::from_toggle_index(scheme.toggle_index()), scheme);
    }
    assert_eq!(Scheme::from_toggle_index(7), Scheme::System);
}

#[test]
fn modes_pick_their_themes() {
    assert_eq!(ThemeMode::from_is_dark(true), ThemeMode::Dark);
    assert_eq!(ThemeMode::Light.pick(Theme::DAYFOX, Theme::NORD), Theme::DAYFOX);
    assert_eq!(ThemeMode::Light.demo_themes(), light_demo_themes());
    assert_eq!(ThemeMode::Dark.demo_themes(), dark_demo_themes());
    assert_eq!(light_demo_themes().len(), 11);
    assert_eq!(dark_demo_themes().len(), 21);
    assert_eq!(dark_demo_themes()[0].theme, Theme::AYU_DARK);
    assert_eq!(dark_demo_themes()[0].accent, "#ff8f40");
}

#[test]
fn theme_pairs_name_and_select_themes() {
    let pair = ThemePair::new("github-light", Theme::GITHUB_LIGHT, "github-dark", Theme::GITHUB_DARK);
    assert_eq!(pair.option_name(), "github-light / github-dark");
    assert_eq!(pair.display_name(Scheme::System), "github-light / github-dark");
    assert_eq!(pair.display_name(Scheme::Dark), "github-dark");
    assert_eq!(
        pair.code_theme(Scheme::System),
        CodeTheme::system(Theme::GITHUB_LIGHT, Theme::GITHUB_DARK)
    );
    assert_eq!(pair.code_theme(Scheme::Light), CodeTheme::fixed(Theme::GITHUB_LIGHT));
    let pairs = demo_theme_pairs();
    assert_eq!(pairs.len(), 11);
    assert_eq!(pairs[0], pair);
}
