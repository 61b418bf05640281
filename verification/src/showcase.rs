//! The colour-scheme and theme choices of the showcase site: which page
//! scheme is active, which code theme it picks, and the themes and theme
//! pairs on offer.

use vstd::prelude::*;
use vstd::string::*;

use crate::theme::{CodeTheme, Theme, ThemeSelection};

verus! {

/// The colour scheme a reader picked for the page.
#[derive(Debug, Clone, Copy, PartialEq, Eq, Structural)]
pub enum Scheme {
    /// Follow the system preference.
    System,
    /// Always light.
    Light,
    /// Always dark.
    Dark,
}

/// A light or a dark page.
#[derive(Debug, Clone, Copy, PartialEq, Eq, Structural)]
pub enum ThemeMode {
    /// A light page.
    Light,
    /// A dark page.
    Dark,
}

/// The class of the page shell for a scheme.
pub open spec fn scheme_class(scheme: Scheme) -> Seq<char> {
    match scheme {
        Scheme::System => "site-shell theme-system"@,
        Scheme::Light => "site-shell theme-light"@,
        Scheme::Dark => "site-shell theme-dark"@,
    }
}

/// The position of a scheme in the scheme toggle.
pub open spec fn spec_toggle_index(scheme: Scheme) -> int {
    match scheme {
        Scheme::System => 0,
        Scheme::Light => 1,
        Scheme::Dark => 2,
    }
}

/// The scheme at a position of the toggle: `System` for any position past
/// the toggle's.
pub open spec fn scheme_at_toggle_index(index: int) -> Scheme {
    if index == 1 {
        Scheme::Light
    } else if index == 2 {
        Scheme::Dark
    } else {
        Scheme::System
    }
}

impl Scheme {
    /// The class of the page shell.
    pub fn class(self) -> (r: &'static str)
        ensures
            r@ == scheme_class(self),
    {
        match self {
            Scheme::System => "site-shell theme-system",
            Scheme::Light => "site-shell theme-light",
            Scheme::Dark => "site-shell theme-dark",
        }
    }

    /// The mode the page shows: the system's for `System`, else the one
    /// picked.
    pub fn resolved(self, system_theme: ThemeMode) -> (r: ThemeMode)
        ensures
            r == match self {
                Scheme::System => system_theme,
                Scheme::Light => ThemeMode::Light,
                Scheme::Dark => ThemeMode::Dark,
            },
    {
        match self {
            Scheme::System => system_theme,
            Scheme::Light => ThemeMode::Light,
            Scheme::Dark => ThemeMode::Dark,
        }
    }

    /// The position of the scheme in the scheme toggle.
    pub fn toggle_index(self) -> (r: usize)
        ensures
            r == spec_toggle_index(self),
    {
        match self {
            Scheme::System => 0,
            Scheme::Light => 1,
            Scheme::Dark => 2,
        }
    }

    /// The scheme at a position of the toggle; `System` for any position
    /// past the toggle's.
    pub fn from_toggle_index(index: usize) -> (r: Scheme)
        ensures
            r == scheme_at_toggle_index(index as int),
    {
        match index {
            1 => Scheme::Light,
            2 => Scheme::Dark,
            _ => Scheme::System,
        }
    }
}

/// A scheme read back from its toggle position is the scheme itself.
pub proof fn lemma_toggle_index_round_trip(scheme: Scheme)
    ensures
        scheme_at_toggle_index(spec_toggle_index(scheme)) == scheme,
{
}

/// A theme the showcase offers, with the accent colour of its card.
#[derive(Debug, Clone, Copy, PartialEq, Eq)]
pub struct DemoTheme {
    /// The theme.
    pub theme: Theme,
    /// The accent colour, as CSS.
    pub accent: &'static str,
}

/// The themes and accents of a list of demo themes.
pub open spec fn demo_table(themes: Seq<DemoTheme>) -> Seq<(Theme, Seq<char>)> {
    themes.map_values(|d: DemoTheme| (d.theme, d.accent@))
}

impl ThemeMode {
    /// The dark mode when the page is dark, else the light mode.
    pub fn from_is_dark(is_dark: bool) -> (r: ThemeMode)
        ensures
            r == if is_dark {
                ThemeMode::Dark
            } else {
                ThemeMode::Light
            },
    {
        if is_dark {
            ThemeMode::Dark
        } else {
            ThemeMode::Light
        }
    }

    /// The themes offered in this mode.
    pub fn demo_themes(self) -> (r: Vec<DemoTheme>)
        ensures
            demo_table(r@) == match self {
                ThemeMode::Light => light_demo_themes_table(),
                ThemeMode::Dark => dark_demo_themes_table(),
            },
    {
        match self {
            ThemeMode::Light => light_demo_themes(),
            ThemeMode::Dark => dark_demo_themes(),
        }
    }

    /// The theme of a light/dark pair that suits this mode.
    pub fn pick(self, light: Theme, dark: Theme) -> (r: Theme)
        ensures
            r == match self {
                ThemeMode::Light => light,
                ThemeMode::Dark => dark,
            },
    {
        match self {
            ThemeMode::Light => light,
            ThemeMode::Dark => dark,
        }
    }
}

/// A light and a dark theme offered together, with the names shown for them.
#[derive(Debug, Clone, Copy, PartialEq, Eq)]
pub struct ThemePair {
    /// The name shown for the light theme.
    pub light_name: &'static str,
    /// The light theme.
    pub light: Theme,
    /// The name shown for the dark theme.
    pub dark_name: &'static str,
    /// The dark theme.
    pub dark: Theme,
}

/// The names and themes of a list of pairs.
pub open spec fn pairs_table(pairs: Seq<ThemePair>) -> Seq<(Seq<char>, Theme, Seq<char>, Theme)> {
    pairs.map_values(|p: ThemePair| (p.light_name@, p.light, p.dark_name@, p.dark))
}

impl ThemePair {
    /// A pair of a named light theme and a named dark theme.
    pub fn new(light_name: &'static str, light: Theme, dark_name: &'static str, dark: Theme) -> (r:
        ThemePair)
        ensures
            r == (ThemePair { light_name, light, dark_name, dark }),
    {
        ThemePair { light_name, light, dark_name, dark }
    }

    /// The code theme for a scheme: the pair as a system pair, or the
    /// light or the dark theme fixed.
    pub fn code_theme(self, scheme: Scheme) -> (r: CodeTheme)
        ensures
            r@ == match scheme {
                Scheme::System => ThemeSelection::System { light: self.light, dark: self.dark },
                Scheme::Light => ThemeSelection::Fixed(self.light),
                Scheme::Dark => ThemeSelection::Fixed(self.dark),
            },
    {
        match scheme {
            Scheme::System => CodeTheme::system(self.light, self.dark),
            Scheme::Light => CodeTheme::fixed(self.light),
            Scheme::Dark => CodeTheme::fixed(self.dark),
        }
    }

    /// The name shown for the pair in a scheme: both names for `System`,
    /// else the name of the theme shown.
    pub fn display_name(self, scheme: Scheme) -> (r: String)
        ensures
            r@ == match scheme {
                Scheme::System => self.light_name@ + " / "@ + self.dark_name@,
                Scheme::Light => self.light_name@,
                Scheme::Dark => self.dark_name@,
            },
    {
        match scheme {
            Scheme::System => self.option_name(),
            Scheme::Light => String::from_str(self.light_name),
            Scheme::Dark => String::from_str(self.dark_name),
        }
    }

    /// The name of the pair in the theme picker: `light / dark`.
    pub fn option_name(self) -> (r: String)
        ensures
            r@ == self.light_name@ + " / "@ + self.dark_name@,
    {
        let mut name = String::from_str(self.light_name);
        name.append(" / ");
        name.append(self.dark_name);
        name
    }
}

/// The light themes the showcase offers, each with its accent colour.
pub open spec fn light_demo_themes_table() -> Seq<(Theme, Seq<char>)> {
    seq![
        (Theme::Alabaster, "#aa3731"@),
        (Theme::AyuLight, "#f07171"@),
        (Theme::CatppuccinLatte, "#1e66f5"@),
        (Theme::Dayfox, "#2848a9"@),
        (Theme::GithubLight, "#0969da"@),
        (Theme::GruvboxLight, "#076678"@),
        (Theme::LightOwl, "#403f53"@),
        (Theme::LuciusLight, "#005f87"@),
        (Theme::MelangeLight, "#c47f2c"@),
        (Theme::RustdocLight, "#7c3aed"@),
        (Theme::SolarizedLight, "#268bd2"@),
    ]
}

/// The dark themes the showcase offers, each with its accent colour.
pub open spec fn dark_demo_themes_table() -> Seq<(Theme, Seq<char>)> {
    seq![
        (Theme::AyuDark, "#ff8f40"@),
        (Theme::CatppuccinFrappe, "#8caaee"@),
        (Theme::CatppuccinMacchiato, "#8aadf4"@),
        (Theme::CatppuccinMocha, "#89b4fa"@),
        (Theme::Cobalt2, "#ffc600"@),
        (Theme::Desert256, "#ffd700"@),
        (Theme::Dracula, "#bd93f9"@),
        (Theme::EfMelissaDark, "#ef9fe4"@),
        (Theme::GithubDark, "#58a6ff"@),
        (Theme::GruvboxDark, "#83a598"@),
        (Theme::KanagawaDragon, "#c5c9c5"@),
        (Theme::MelangeDark, "#e49b5d"@),
        (Theme::Monokai, "#66d9ef"@),
        (Theme::Nord, "#88c0d0"@),
        (Theme::OneDark, "#61afef"@),
        (Theme::RosePineMoon, "#c4a7e7"@),
        (Theme::RustdocAyu, "#ffb454"@),
        (Theme::RustdocDark, "#2bab63"@),
        (Theme::SolarizedDark, "#268bd2"@),
        (Theme::TokyoNight, "#7aa2f7"@),
        (Theme::Zenburn, "#efef8f"@),
    ]
}

/// The light themes the showcase offers.
pub fn light_demo_themes() -> (r: Vec<DemoTheme>)
    ensures
        demo_table(r@) == light_demo_themes_table(),
{
    let mut themes: Vec<DemoTheme> = Vec::new();
    themes.push(DemoTheme { theme: Theme::Alabaster, accent: "#aa3731" });
    themes.push(DemoTheme { theme: Theme::AyuLight, accent: "#f07171" });
    themes.push(DemoTheme { theme: Theme::CatppuccinLatte, accent: "#1e66f5" });
    themes.push(DemoTheme { theme: Theme::Dayfox, accent: "#2848a9" });
    themes.push(DemoTheme { theme: Theme::GithubLight, accent: "#0969da" });
    themes.push(DemoTheme { theme: Theme::GruvboxLight, accent: "#076678" });
    themes.push(DemoTheme { theme: Theme::LightOwl, accent: "#403f53" });
    themes.push(DemoTheme { theme: Theme::LuciusLight, accent: "#005f87" });
    themes.push(DemoTheme { theme: Theme::MelangeLight, accent: "#c47f2c" });
    themes.push(DemoTheme { theme: Theme::RustdocLight, accent: "#7c3aed" });
    themes.push(DemoTheme { theme: Theme::SolarizedLight, accent: "#268bd2" });
    assert(demo_table(themes@) =~= light_demo_themes_table());
    themes
}

/// The dark themes the showcase offers.
pub fn dark_demo_themes() -> (r: Vec<DemoTheme>)
    ensures
        demo_table(r@) == dark_demo_themes_table(),
{
    let mut themes: Vec<DemoTheme> = Vec::new();
    themes.push(DemoTheme { theme: Theme::AyuDark, accent: "#ff8f40" });
    themes.push(DemoTheme { theme: Theme::CatppuccinFrappe, accent: "#8caaee" });
    themes.push(DemoTheme { theme: Theme::CatppuccinMacchiato, accent: "#8aadf4" });
    themes.push(DemoTheme { theme: Theme::CatppuccinMocha, accent: "#89b4fa" });
    themes.push(DemoTheme { theme: Theme::Cobalt2, accent: "#ffc600" });
    themes.push(DemoTheme { theme: Theme::Desert256, accent: "#ffd700" });
    themes.push(DemoTheme { theme: Theme::Dracula, accent: "#bd93f9" });
    themes.push(DemoTheme { theme: Theme::EfMelissaDark, accent: "#ef9fe4" });
    themes.push(DemoTheme { theme: Theme::GithubDark, accent: "#58a6ff" });
    themes.push(DemoTheme { theme: Theme::GruvboxDark, accent: "#83a598" });
    themes.push(DemoTheme { theme: Theme::KanagawaDragon, accent: "#c5c9c5" });
    themes.push(DemoTheme { theme: Theme::MelangeDark, accent: "#e49b5d" });
    themes.push(DemoTheme { theme: Theme::Monokai, accent: "#66d9ef" });
    themes.push(DemoTheme { theme: Theme::Nord, accent: "#88c0d0" });
    themes.push(DemoTheme { theme: Theme::OneDark, accent: "#61afef" });
    themes.push(DemoTheme { theme: Theme::RosePineMoon, accent: "#c4a7e7" });
    themes.push(DemoTheme { theme: Theme::RustdocAyu, accent: "#ffb454" });
    themes.push(DemoTheme { theme: Theme::RustdocDark, accent: "#2bab63" });
    themes.push(DemoTheme { theme: Theme::SolarizedDark, accent: "#268bd2" });
    themes.push(DemoTheme { theme: Theme::TokyoNight, accent: "#7aa2f7" });
    themes.push(DemoTheme { theme: Theme::Zenburn, accent: "#efef8f" });
    assert(demo_table(themes@) =~= dark_demo_themes_table());
    themes
}

/// The light and dark theme pairs the showcase offers, with the names it shows.
pub open spec fn demo_theme_pairs_table() -> Seq<(Seq<char>, Theme, Seq<char>, Theme)> {
    seq![
        ("github-light"@, Theme::GithubLight, "github-dark"@, Theme::GithubDark),
        ("alabaster"@, Theme::Alabaster, "zenburn"@, Theme::Zenburn),
        ("ayu-light"@, Theme::AyuLight, "ayu-dark"@, Theme::AyuDark),
        ("catppuccin-latte"@, Theme::CatppuccinLatte, "catppuccin-mocha"@, Theme::CatppuccinMocha),
        ("dayfox"@, Theme::Dayfox, "tokyo-night"@, Theme::TokyoNight),
        ("gruvbox-light"@, Theme::GruvboxLight, "gruvbox-dark"@, Theme::GruvboxDark),
        ("light-owl"@, Theme::LightOwl, "dracula"@, Theme::Dracula),
        ("lucius-light"@, Theme::LuciusLight, "cobalt2"@, Theme::Cobalt2),
        ("melange-light"@, Theme::MelangeLight, "melange-dark"@, Theme::MelangeDark),
        ("rustdoc-light"@, Theme::RustdocLight, "rustdoc-ayu"@, Theme::RustdocAyu),
        ("solarized-light"@, Theme::SolarizedLight, "solarized-dark"@, Theme::SolarizedDark),
    ]
}

/// The light and dark theme pairs the showcase offers.
pub fn demo_theme_pairs() -> (r: Vec<ThemePair>)
    ensures
        pairs_table(r@) == demo_theme_pairs_table(),
{
    let mut pairs: Vec<ThemePair> = Vec::new();
    pairs.push(ThemePair::new("github-light", Theme::GithubLight, "github-dark", Theme::GithubDark));
    pairs.push(ThemePair::new("alabaster", Theme::Alabaster, "zenburn", Theme::Zenburn));
    pairs.push(ThemePair::new("ayu-light", Theme::AyuLight, "ayu-dark", Theme::AyuDark));
    pairs.push(ThemePair::new("catppuccin-latte", Theme::CatppuccinLatte, "catppuccin-mocha", Theme::CatppuccinMocha));
    pairs.push(ThemePair::new("dayfox", Theme::Dayfox, "tokyo-night", Theme::TokyoNight));
    pairs.push(ThemePair::new("gruvbox-light", Theme::GruvboxLight, "gruvbox-dark", Theme::GruvboxDark));
    pairs.push(ThemePair::new("light-owl", Theme::LightOwl, "dracula", Theme::Dracula));
    pairs.push(ThemePair::new("lucius-light", Theme::LuciusLight, "cobalt2", Theme::Cobalt2));
    pairs.push(ThemePair::new("melange-light", Theme::MelangeLight, "melange-dark", Theme::MelangeDark));
    pairs.push(ThemePair::new("rustdoc-light", Theme::RustdocLight, "rustdoc-ayu", Theme::RustdocAyu));
    pairs.push(ThemePair::new("solarized-light", Theme::SolarizedLight, "solarized-dark", Theme::SolarizedDark));
    assert(pairs_table(pairs@) =~= demo_theme_pairs_table());
    pairs
}
} // verus!
