//! Syntax themes and the CSS classes that scope them.
//!
//! Every theme is one of the built-in themes of `arborium-theme`. Its CSS
//! class is derived from the theme's display name: the name is turned into
//! a slug (lower-case ASCII letters and digits, words joined by single
//! dashes) and prefixed with `dxc-`, so several themes can coexist on one
//! page without leaking styles.

use vstd::prelude::*;
use vstd::string::*;

verus! {

/// How many themes `arborium_theme::builtin::all()` lists.
pub const BUILTIN_THEME_COUNT: usize = 33;

/// The display name of the theme at `index` in `arborium_theme::builtin::all()`.
pub uninterp spec fn builtin_theme_name(index: int) -> Seq<char>;

/// Calls `arborium_theme::builtin::all()` and takes the display name of the
/// theme at `index`. `all()` builds a list of 33 themes, so every smaller
/// index is in range. The contract claims only that the name depends on the
/// index alone: it is named `builtin_theme_name`.
#[verifier::external_body]
fn arborium_builtin_theme_name(index: usize) -> (r: String)
    requires
        index < BUILTIN_THEME_COUNT,
    ensures
        r@ == builtin_theme_name(index as int),
{
    arborium_theme::builtin::all().swap_remove(index).name
}

/// Calls `String::push`, which appends one character to the end of the string.
#[verifier::external_body]
fn push_char(s: &mut String, c: char)
    ensures
        final(s)@ == old(s)@.push(c),
{
    s.push(c);
}

/// An ASCII lower-case letter or an ASCII digit: kept as it is in a slug.
pub open spec fn is_slug_char(c: char) -> bool {
    ('a' as u32 <= c as u32 && c as u32 <= 'z' as u32) || ('0' as u32 <= c as u32 && c as u32
        <= '9' as u32)
}

/// An ASCII upper-case letter: lower-cased in a slug.
pub open spec fn is_ascii_upper(c: char) -> bool {
    'A' as u32 <= c as u32 && c as u32 <= 'Z' as u32
}

/// The lower-case letter of an ASCII upper-case letter.
pub open spec fn ascii_lower(c: char) -> char {
    (c as u32 + 32) as char
}

/// A word separator: turned into a single dash in a slug.
pub open spec fn is_separator(c: char) -> bool {
    c == ' ' || c == '_' || c == '-'
}

/// A slug in the making ends with a dash.
pub open spec fn ends_with_dash(acc: Seq<char>) -> bool {
    acc.len() > 0 && acc.last() == '-'
}

/// One step of slugging: what the character `c` adds to the slug `acc`
/// built from the characters before it.
pub open spec fn slug_step(acc: Seq<char>, c: char) -> Seq<char> {
    if is_slug_char(c) {
        acc.push(c)
    } else if is_ascii_upper(c) {
        acc.push(ascii_lower(c))
    } else if is_separator(c) && !ends_with_dash(acc) {
        acc.push('-')
    } else if c == 'é' || c == 'É' {
        acc.push('e')
    } else {
        acc
    }
}

/// The slug of `name` before dashes are trimmed from its ends.
pub open spec fn slug_untrimmed(name: Seq<char>) -> Seq<char>
    decreases name.len(),
{
    if name.len() == 0 {
        Seq::empty()
    } else {
        slug_step(slug_untrimmed(name.drop_last()), name.last())
    }
}

/// `s` without its leading dashes.
pub open spec fn trim_leading_dashes(s: Seq<char>) -> Seq<char>
    decreases s.len(),
{
    if s.len() > 0 && s[0] == '-' {
        trim_leading_dashes(s.drop_first())
    } else {
        s
    }
}

/// `s` without its trailing dashes.
pub open spec fn trim_trailing_dashes(s: Seq<char>) -> Seq<char>
    decreases s.len(),
{
    if s.len() > 0 && s.last() == '-' {
        trim_trailing_dashes(s.drop_last())
    } else {
        s
    }
}

/// The slug of a theme name: ASCII letters lower-cased, digits kept, `é`
/// and `É` read as `e`, each run of spaces, underscores and dashes turned
/// into one dash, everything else dropped, and no dash left at either end.
pub open spec fn theme_slug(name: Seq<char>) -> Seq<char> {
    trim_trailing_dashes(trim_leading_dashes(slug_untrimmed(name)))
}

/// A well-formed slug: lower-case ASCII letters, digits and dashes, with no
/// dash at either end and no two dashes in a row.
pub open spec fn is_slug(s: Seq<char>) -> bool {
    &&& forall|i: int| 0 <= i < s.len() ==> is_slug_char(#[trigger] s[i]) || s[i] == '-'
    &&& s.len() > 0 ==> s[0] != '-' && s.last() != '-'
    &&& forall|i: int| 0 <= i < s.len() - 1 ==> !(#[trigger] s[i] == '-' && s[i + 1] == '-')
}

/// A syntax-highlighting theme: one of the built-in themes of `arborium-theme`.
///
/// Each theme is also reachable through an associated constant, such as
/// [`Theme::TOKYO_NIGHT`].
#[derive(Debug, Clone, Copy, PartialEq, Eq, Hash, Structural)]
pub enum Theme {
    /// The `Alabaster` built-in theme.
    Alabaster,
    /// The `AyuDark` built-in theme.
    AyuDark,
    /// The `AyuLight` built-in theme.
    AyuLight,
    /// The `CatppuccinFrappe` built-in theme.
    CatppuccinFrappe,
    /// The `CatppuccinLatte` built-in theme.
    CatppuccinLatte,
    /// The `CatppuccinMacchiato` built-in theme.
    CatppuccinMacchiato,
    /// The `CatppuccinMocha` built-in theme.
    CatppuccinMocha,
    /// The `Cobalt2` built-in theme.
    Cobalt2,
    /// The `Dayfox` built-in theme.
    Dayfox,
    /// The `Desert256` built-in theme.
    Desert256,
    /// The `Dracula` built-in theme.
    Dracula,
    /// The `EfMelissaDark` built-in theme.
    EfMelissaDark,
    /// The `GithubDark` built-in theme.
    GithubDark,
    /// The `GithubLight` built-in theme.
    GithubLight,
    /// The `GruvboxDark` built-in theme.
    GruvboxDark,
    /// The `GruvboxLight` built-in theme.
    GruvboxLight,
    /// The `KanagawaDragon` built-in theme.
    KanagawaDragon,
    /// The `LightOwl` built-in theme.
    LightOwl,
    /// The `LuciusLight` built-in theme.
    LuciusLight,
    /// The `MelangeDark` built-in theme.
    MelangeDark,
    /// The `MelangeLight` built-in theme.
    MelangeLight,
    /// The `Monokai` built-in theme.
    Monokai,
    /// The `Nord` built-in theme.
    Nord,
    /// The `OneDark` built-in theme.
    OneDark,
    /// The `RosePineMoon` built-in theme.
    RosePineMoon,
    /// The `RustdocAyu` built-in theme.
    RustdocAyu,
    /// The `RustdocDark` built-in theme.
    RustdocDark,
    /// The `RustdocLight` built-in theme.
    RustdocLight,
    /// The `SolarizedDark` built-in theme.
    SolarizedDark,
    /// The `SolarizedLight` built-in theme.
    SolarizedLight,
    /// The `TokyoNight` built-in theme.
    TokyoNight,
    /// The `Zenburn` built-in theme.
    Zenburn,
}

impl Theme {
    /// The `Alabaster` syntax theme.
    pub const ALABASTER: Theme = Theme::Alabaster;
    /// The `AyuDark` syntax theme.
    pub const AYU_DARK: Theme = Theme::AyuDark;
    /// The `AyuLight` syntax theme.
    pub const AYU_LIGHT: Theme = Theme::AyuLight;
    /// The `CatppuccinFrappe` syntax theme.
    pub const CATPPUCCIN_FRAPPE: Theme = Theme::CatppuccinFrappe;
    /// The `CatppuccinLatte` syntax theme.
    pub const CATPPUCCIN_LATTE: Theme = Theme::CatppuccinLatte;
    /// The `CatppuccinMacchiato` syntax theme.
    pub const CATPPUCCIN_MACCHIATO: Theme = Theme::CatppuccinMacchiato;
    /// The `CatppuccinMocha` syntax theme.
    pub const CATPPUCCIN_MOCHA: Theme = Theme::CatppuccinMocha;
    /// The `Cobalt2` syntax theme.
    pub const COBALT2: Theme = Theme::Cobalt2;
    /// The `Dayfox` syntax theme.
    pub const DAYFOX: Theme = Theme::Dayfox;
    /// The `Desert256` syntax theme.
    pub const DESERT256: Theme = Theme::Desert256;
    /// The `Dracula` syntax theme.
    pub const DRACULA: Theme = Theme::Dracula;
    /// The `EfMelissaDark` syntax theme.
    pub const EF_MELISSA_DARK: Theme = Theme::EfMelissaDark;
    /// The `GithubDark` syntax theme.
    pub const GITHUB_DARK: Theme = Theme::GithubDark;
    /// The `GithubLight` syntax theme.
    pub const GITHUB_LIGHT: Theme = Theme::GithubLight;
    /// The `GruvboxDark` syntax theme.
    pub const GRUVBOX_DARK: Theme = Theme::GruvboxDark;
    /// The `GruvboxLight` syntax theme.
    pub const GRUVBOX_LIGHT: Theme = Theme::GruvboxLight;
    /// The `KanagawaDragon` syntax theme.
    pub const KANAGAWA_DRAGON: Theme = Theme::KanagawaDragon;
    /// The `LightOwl` syntax theme.
    pub const LIGHT_OWL: Theme = Theme::LightOwl;
    /// The `LuciusLight` syntax theme.
    pub const LUCIUS_LIGHT: Theme = Theme::LuciusLight;
    /// The `MelangeDark` syntax theme.
    pub const MELANGE_DARK: Theme = Theme::MelangeDark;
    /// The `MelangeLight` syntax theme.
    pub const MELANGE_LIGHT: Theme = Theme::MelangeLight;
    /// The `Monokai` syntax theme.
    pub const MONOKAI: Theme = Theme::Monokai;
    /// The `Nord` syntax theme.
    pub const NORD: Theme = Theme::Nord;
    /// The `OneDark` syntax theme.
    pub const ONE_DARK: Theme = Theme::OneDark;
    /// The `RosePineMoon` syntax theme.
    pub const ROSE_PINE_MOON: Theme = Theme::RosePineMoon;
    /// The `RustdocAyu` syntax theme.
    pub const RUSTDOC_AYU: Theme = Theme::RustdocAyu;
    /// The `RustdocDark` syntax theme.
    pub const RUSTDOC_DARK: Theme = Theme::RustdocDark;
    /// The `RustdocLight` syntax theme.
    pub const RUSTDOC_LIGHT: Theme = Theme::RustdocLight;
    /// The `SolarizedDark` syntax theme.
    pub const SOLARIZED_DARK: Theme = Theme::SolarizedDark;
    /// The `SolarizedLight` syntax theme.
    pub const SOLARIZED_LIGHT: Theme = Theme::SolarizedLight;
    /// The `TokyoNight` syntax theme.
    pub const TOKYO_NIGHT: Theme = Theme::TokyoNight;
    /// The `Zenburn` syntax theme.
    pub const ZENBURN: Theme = Theme::Zenburn;

    /// The position of this theme in the list of built-in themes of
    /// `arborium-theme` (the list holds one more theme, between
    /// `EF_MELISSA_DARK` and `GITHUB_DARK`, that has no constant here).
    pub open spec fn spec_builtin_index(self) -> int {
        match self {
            Theme::Alabaster => 0,
            Theme::AyuDark => 1,
            Theme::AyuLight => 2,
            Theme::CatppuccinFrappe => 3,
            Theme::CatppuccinLatte => 4,
            Theme::CatppuccinMacchiato => 5,
            Theme::CatppuccinMocha => 6,
            Theme::Cobalt2 => 7,
            Theme::Dayfox => 8,
            Theme::Desert256 => 9,
            Theme::Dracula => 10,
            Theme::EfMelissaDark => 11,
            Theme::GithubDark => 13,
            Theme::GithubLight => 14,
            Theme::GruvboxDark => 15,
            Theme::GruvboxLight => 16,
            Theme::KanagawaDragon => 17,
            Theme::LightOwl => 18,
            Theme::LuciusLight => 19,
            Theme::MelangeDark => 20,
            Theme::MelangeLight => 21,
            Theme::Monokai => 22,
            Theme::Nord => 23,
            Theme::OneDark => 24,
            Theme::RosePineMoon => 25,
            Theme::RustdocAyu => 26,
            Theme::RustdocDark => 27,
            Theme::RustdocLight => 28,
            Theme::SolarizedDark => 29,
            Theme::SolarizedLight => 30,
            Theme::TokyoNight => 31,
            Theme::Zenburn => 32,
        }
    }

    /// The position of this theme in the list of built-in themes.
    pub fn builtin_index(self) -> (r: usize)
        ensures
            r == self.spec_builtin_index(),
            r < BUILTIN_THEME_COUNT,
    {
        match self {
            Theme::Alabaster => 0,
            Theme::AyuDark => 1,
            Theme::AyuLight => 2,
            Theme::CatppuccinFrappe => 3,
            Theme::CatppuccinLatte => 4,
            Theme::CatppuccinMacchiato => 5,
            Theme::CatppuccinMocha => 6,
            Theme::Cobalt2 => 7,
            Theme::Dayfox => 8,
            Theme::Desert256 => 9,
            Theme::Dracula => 10,
            Theme::EfMelissaDark => 11,
            Theme::GithubDark => 13,
            Theme::GithubLight => 14,
            Theme::GruvboxDark => 15,
            Theme::GruvboxLight => 16,
            Theme::KanagawaDragon => 17,
            Theme::LightOwl => 18,
            Theme::LuciusLight => 19,
            Theme::MelangeDark => 20,
            Theme::MelangeLight => 21,
            Theme::Monokai => 22,
            Theme::Nord => 23,
            Theme::OneDark => 24,
            Theme::RosePineMoon => 25,
            Theme::RustdocAyu => 26,
            Theme::RustdocDark => 27,
            Theme::RustdocLight => 28,
            Theme::SolarizedDark => 29,
            Theme::SolarizedLight => 30,
            Theme::TokyoNight => 31,
            Theme::Zenburn => 32,
        }
    }
}
/// The characters `name` begins with, slugged one by one, stay well formed
/// while the slug grows: only slug characters and dashes, never two dashes
/// in a row.
proof fn lemma_slug_untrimmed_chars(name: Seq<char>)
    ensures
        ({
            let s = slug_untrimmed(name);
            &&& forall|i: int| 0 <= i < s.len() ==> is_slug_char(#[trigger] s[i]) || s[i] == '-'
            &&& forall|i: int, j: int|
                0 <= i && j == i + 1 && j < s.len() ==> !(#[trigger] s[i] == '-' && #[trigger] s[j]
                    == '-')
        }),
    decreases name.len(),
{
    if name.len() > 0 {
        lemma_slug_untrimmed_chars(name.drop_last());
        let acc = slug_untrimmed(name.drop_last());
        let c = name.last();
        let s = slug_untrimmed(name);
        if is_ascii_upper(c) {
            assert(ascii_lower(c) as u32 == c as u32 + 32);
        }
        if s.len() > acc.len() {
            let d = s.last();
            assert(s =~= acc.push(d));
            assert(is_slug_char(d) || d == '-');
            assert(d == '-' ==> !ends_with_dash(acc));
            assert forall|i: int| 0 <= i < s.len() implies is_slug_char(#[trigger] s[i]) || s[i]
                == '-' by {
                if i < acc.len() {
                    assert(s[i] == acc[i]);
                }
            }
            assert forall|i: int, j: int|
                0 <= i && j == i + 1 && j < s.len() implies !(#[trigger] s[i] == '-'
                && #[trigger] s[j] == '-') by {
                assert(s[i] == acc[i]);
                if j < acc.len() {
                    assert(s[j] == acc[j]);
                }
            }
        } else {
            assert(s == acc);
        }
    }
}

/// Trimming leading dashes keeps a suffix, which starts with no dash.
proof fn lemma_trim_leading(s: Seq<char>) -> (k: int)
    ensures
        0 <= k <= s.len(),
        trim_leading_dashes(s) == s.subrange(k, s.len() as int),
        trim_leading_dashes(s).len() > 0 ==> trim_leading_dashes(s)[0] != '-',
    decreases s.len(),
{
    if s.len() > 0 && s[0] == '-' {
        let k = lemma_trim_leading(s.drop_first());
        assert(s.drop_first().subrange(k, s.drop_first().len() as int) =~= s.subrange(
            k + 1,
            s.len() as int,
        ));
        k + 1
    } else {
        assert(s.subrange(0, s.len() as int) =~= s);
        0
    }
}

/// Trimming trailing dashes keeps a prefix, which ends with no dash.
proof fn lemma_trim_trailing(s: Seq<char>) -> (k: int)
    ensures
        0 <= k <= s.len(),
        trim_trailing_dashes(s) == s.subrange(0, k),
        trim_trailing_dashes(s).len() > 0 ==> trim_trailing_dashes(s).last() != '-',
    decreases s.len(),
{
    if s.len() > 0 && s.last() == '-' {
        let k = lemma_trim_trailing(s.drop_last());
        assert(s.drop_last().subrange(0, k) =~= s.subrange(0, k));
        k
    } else {
        assert(s.subrange(0, s.len() as int) =~= s);
        s.len() as int
    }
}

/// Every theme name slugs to a well-formed slug.
pub proof fn lemma_theme_slug_is_slug(name: Seq<char>)
    ensures
        is_slug(theme_slug(name)),
{
    let raw = slug_untrimmed(name);
    lemma_slug_untrimmed_chars(name);
    let lead = trim_leading_dashes(raw);
    let a = lemma_trim_leading(raw);
    let b = lemma_trim_trailing(lead);
    let s = theme_slug(name);
    assert(s == raw.subrange(a, a + b));
    assert forall|i: int| 0 <= i < s.len() implies is_slug_char(#[trigger] s[i]) || s[i] == '-' by {
        assert(s[i] == raw[a + i]);
    }
    assert forall|i: int, j: int|
        0 <= i && j == i + 1 && j < s.len() implies !(#[trigger] s[i] == '-' && #[trigger] s[j]
        == '-') by {
        assert(s[i] == raw[a + i]);
        assert(s[j] == raw[a + j]);
    }
    if s.len() > 0 {
        assert(s[0] == lead[0]);
    }
}

/// The slug of a theme name: the name with ASCII letters lower-cased,
/// digits kept, `é` and `É` read as `e`, each run of spaces, underscores and
/// dashes turned into one dash, everything else dropped, and no dash left
/// at either end.
pub fn slug(name: &str) -> (r: String)
    ensures
        r@ == theme_slug(name@),
        is_slug(r@),
{
    let ghost chars = name@;
    let mut raw: Vec<char> = Vec::new();
    for c in it: name.chars()
        invariant
            chars == name@,
            it.seq() == chars,
            raw@ == slug_untrimmed(chars.take(it.index() as int)),
    {
        let ghost k = it.index();
        proof {
            assert(c == chars[k as int]);
            assert(chars.take(k + 1).drop_last() =~= chars.take(k as int));
        }
        let ends_dash = raw.len() > 0 && raw[raw.len() - 1] == '-';
        let u: u32 = c as u32;
        if (97 <= u && u <= 122) || (48 <= u && u <= 57) {
            raw.push(c);
        } else if 65 <= u && u <= 90 {
            let lower: u8 = (u + 32) as u8;
            raw.push(lower as char);
        } else if (c == ' ' || c == '_' || c == '-') && !ends_dash {
            raw.push('-');
        } else if c == 'é' || c == 'É' {
            raw.push('e');
        }
    }
    proof {
        assert(chars.take(chars.len() as int) =~= chars);
        lemma_theme_slug_is_slug(chars);
    }
    let len = raw.len();
    let mut lo: usize = 0;
    proof {
        assert(raw@.subrange(0, len as int) =~= raw@);
    }
    while lo < len && raw[lo] == '-'
        invariant
            len == raw.len(),
            lo <= len,
            trim_leading_dashes(raw@) == trim_leading_dashes(raw@.subrange(lo as int, len as int)),
        decreases len - lo,
    {
        proof {
            assert(raw@.subrange(lo as int, len as int).drop_first() =~= raw@.subrange(
                lo + 1,
                len as int,
            ));
        }
        lo = lo + 1;
    }
    let ghost lead = raw@.subrange(lo as int, len as int);
    proof {
        if lo == len {
            assert(lead.len() == 0);
        } else {
            assert(lead[0] == raw@[lo as int]);
        }
        assert(trim_leading_dashes(lead) == lead);
    }
    let mut hi: usize = len;
    while hi > lo && raw[hi - 1] == '-'
        invariant
            len == raw.len(),
            lo <= hi <= len,
            lead == raw@.subrange(lo as int, len as int),
            trim_trailing_dashes(lead) == trim_trailing_dashes(raw@.subrange(lo as int, hi as int)),
        decreases hi - lo,
    {
        proof {
            assert(raw@.subrange(lo as int, hi as int).drop_last() =~= raw@.subrange(
                lo as int,
                hi - 1,
            ));
        }
        hi = hi - 1;
    }
    proof {
        let t = raw@.subrange(lo as int, hi as int);
        if hi > lo {
            assert(t.last() == raw@[hi - 1]);
        }
        assert(trim_trailing_dashes(t) == t);
    }
    let mut out = String::new();
    let mut i: usize = lo;
    proof {
        assert(raw@.subrange(lo as int, lo as int) =~= Seq::<char>::empty());
    }
    while i < hi
        invariant
            len == raw.len(),
            lo <= i <= hi <= len,
            out@ == raw@.subrange(lo as int, i as int),
        decreases hi - i,
    {
        proof {
            assert(raw@.subrange(lo as int, i + 1) =~= raw@.subrange(lo as int, i as int).push(
                raw@[i as int],
            ));
        }
        push_char(&mut out, raw[i]);
        i = i + 1;
    }
    proof {
        assert(trim_leading_dashes(raw@) == lead);
        assert(out@ == trim_trailing_dashes(lead));
    }
    out
}


/// The display name of a theme, as `arborium-theme` gives it.
pub open spec fn theme_name(theme: Theme) -> Seq<char> {
    builtin_theme_name(theme.spec_builtin_index())
}

/// The class that scopes a theme's fixed stylesheet: `dxc-` and the slug.
pub open spec fn theme_class(theme: Theme) -> Seq<char> {
    "dxc-"@ + theme_slug(theme_name(theme))
}

/// The class that scopes a theme's light slot of a system theme pair.
pub open spec fn system_light_class(theme: Theme) -> Seq<char> {
    "dxc-system-light-"@ + theme_slug(theme_name(theme))
}

/// The class that scopes a theme's dark slot of a system theme pair.
pub open spec fn system_dark_class(theme: Theme) -> Seq<char> {
    "dxc-system-dark-"@ + theme_slug(theme_name(theme))
}

/// `prefix` followed by `rest`, as a new string.
fn joined(prefix: &str, rest: &str) -> (r: String)
    ensures
        r@ == prefix@ + rest@,
{
    let mut s = String::from_str(prefix);
    s.append(rest);
    s
}

/// A stylesheet of a theme: the class it scopes and the file that holds it.
#[derive(Debug, Clone, PartialEq, Eq)]
pub struct ThemeStylesheet {
    /// The CSS class the stylesheet's rules are scoped to.
    pub class: String,
    /// The stylesheet's file name among the generated theme assets.
    pub file: String,
}

impl Theme {
    /// The theme's display name, as `arborium-theme` gives it.
    pub fn name(self) -> (r: String)
        ensures
            r@ == theme_name(self),
    {
        arborium_builtin_theme_name(self.builtin_index())
    }

    /// The slug of the theme's display name.
    pub fn slug(self) -> (r: String)
        ensures
            r@ == theme_slug(theme_name(self)),
            is_slug(r@),
    {
        let name = self.name();
        slug(name.as_str())
    }

    /// The class that scopes the theme's fixed stylesheet.
    pub fn class(self) -> (r: String)
        ensures
            r@ == theme_class(self),
    {
        let slug = self.slug();
        joined("dxc-", slug.as_str())
    }

    /// The class of the theme in the light slot of a system theme pair.
    pub fn system_light_class(self) -> (r: String)
        ensures
            r@ == system_light_class(self),
    {
        let slug = self.slug();
        joined("dxc-system-light-", slug.as_str())
    }

    /// The class of the theme in the dark slot of a system theme pair.
    pub fn system_dark_class(self) -> (r: String)
        ensures
            r@ == system_dark_class(self),
    {
        let slug = self.slug();
        joined("dxc-system-dark-", slug.as_str())
    }

    /// The theme's fixed stylesheet: its class and `{slug}.css`.
    pub fn stylesheet(self) -> (r: ThemeStylesheet)
        ensures
            r.class@ == theme_class(self),
            r.file@ == theme_slug(theme_name(self)) + ".css"@,
    {
        let slug = self.slug();
        ThemeStylesheet { class: joined("dxc-", slug.as_str()), file: joined(slug.as_str(), ".css") }
    }

    /// The theme's stylesheet for the light slot of a system theme pair:
    /// its class and `{slug}-system-light.css`.
    pub fn system_light(self) -> (r: ThemeStylesheet)
        ensures
            r.class@ == system_light_class(self),
            r.file@ == theme_slug(theme_name(self)) + "-system-light.css"@,
    {
        let slug = self.slug();
        ThemeStylesheet {
            class: joined("dxc-system-light-", slug.as_str()),
            file: joined(slug.as_str(), "-system-light.css"),
        }
    }

    /// The theme's stylesheet for the dark slot of a system theme pair:
    /// its class and `{slug}-system-dark.css`.
    pub fn system_dark(self) -> (r: ThemeStylesheet)
        ensures
            r.class@ == system_dark_class(self),
            r.file@ == theme_slug(theme_name(self)) + "-system-dark.css"@,
    {
        let slug = self.slug();
        ThemeStylesheet {
            class: joined("dxc-system-dark-", slug.as_str()),
            file: joined(slug.as_str(), "-system-dark.css"),
        }
    }
}

impl Default for Theme {
    /// The default theme is `RUSTDOC_AYU`.
    fn default() -> (r: Self)
        ensures
            r == Theme::RustdocAyu,
    {
        Theme::RUSTDOC_AYU
    }
}

/// Which themes a code block uses: one fixed theme, or a light and a dark
/// theme chosen by the reader's colour-scheme preference, in CSS alone.
#[derive(Debug, Clone, Copy, PartialEq, Eq, Structural)]
pub enum ThemeSelection {
    /// One theme whatever the colour scheme.
    Fixed(Theme),
    /// A theme for the light and one for the dark colour scheme.
    System {
        /// The theme used under a light colour scheme.
        light: Theme,
        /// The theme used under a dark colour scheme.
        dark: Theme,
    },
}

/// The classes that a selection puts on a code container.
pub open spec fn selection_classes(selection: ThemeSelection) -> Seq<char> {
    match selection {
        ThemeSelection::Fixed(theme) => theme_class(theme),
        ThemeSelection::System { light, dark } => "dxc-system "@ + system_light_class(light) + " "@
            + system_dark_class(dark),
    }
}

/// A stylesheet as its class and its file name.
pub open spec fn sheet_views(sheets: Seq<ThemeStylesheet>) -> Seq<(Seq<char>, Seq<char>)> {
    sheets.map_values(|s: ThemeStylesheet| (s.class@, s.file@))
}

/// The stylesheets a selection loads, as classes and file names: a fixed
/// theme's own sheet, or the light theme's light-slot sheet and the dark
/// theme's dark-slot sheet.
pub open spec fn selection_stylesheets(selection: ThemeSelection) -> Seq<(Seq<char>, Seq<char>)> {
    match selection {
        ThemeSelection::Fixed(theme) => seq![(theme_class(theme), theme_slug(theme_name(theme)) + ".css"@)],
        ThemeSelection::System { light, dark } => seq![
            (system_light_class(light), theme_slug(theme_name(light)) + "-system-light.css"@),
            (system_dark_class(dark), theme_slug(theme_name(dark)) + "-system-dark.css"@),
        ],
    }
}

/// A code block loads exactly the stylesheets that define the classes it
/// carries. Its classes are those of its stylesheets (after `dxc-system`
/// for a system pair), and each stylesheet is the file generated for its
/// class: `dxc-{slug}` is defined in `{slug}.css`, the light slot
/// `dxc-system-light-{slug}` in `{slug}-system-light.css`, and the dark slot
/// `dxc-system-dark-{slug}` in `{slug}-system-dark.css`, where `{slug}` is the
/// slug of the theme in that slot.
pub proof fn lemma_stylesheets_define_the_classes(selection: ThemeSelection)
    ensures
        match selection {
            ThemeSelection::Fixed(theme) => {
                let slug = theme_slug(theme_name(theme));
                &&& selection_stylesheets(selection).len() == 1
                &&& selection_stylesheets(selection)[0] == ("dxc-"@ + slug, slug + ".css"@)
                &&& selection_classes(selection) == selection_stylesheets(selection)[0].0
            },
            ThemeSelection::System { light, dark } => {
                let l = theme_slug(theme_name(light));
                let d = theme_slug(theme_name(dark));
                &&& selection_stylesheets(selection).len() == 2
                &&& selection_stylesheets(selection)[0] == ("dxc-system-light-"@ + l, l + "-system-light.css"@)
                &&& selection_stylesheets(selection)[1] == ("dxc-system-dark-"@ + d, d + "-system-dark.css"@)
                &&& selection_classes(selection) == "dxc-system "@ + selection_stylesheets(selection)[0].0
                    + " "@ + selection_stylesheets(selection)[1].0
            },
        },
{
}

/// Syntax theme selection for a code block.
#[derive(Debug, Clone, Copy, PartialEq, Eq, Structural)]
pub struct CodeTheme {
    selection: ThemeSelection,
}

impl View for CodeTheme {
    type V = ThemeSelection;

    closed spec fn view(&self) -> ThemeSelection {
        self.selection
    }
}

impl CodeTheme {
    /// A fixed theme selection.
    pub fn fixed(theme: Theme) -> (r: Self)
        ensures
            r@ == ThemeSelection::Fixed(theme),
    {
        CodeTheme { selection: ThemeSelection::Fixed(theme) }
    }

    /// A CSS-only system theme pair.
    pub fn system(light: Theme, dark: Theme) -> (r: Self)
        ensures
            r@ == (ThemeSelection::System { light, dark }),
    {
        CodeTheme { selection: ThemeSelection::System { light, dark } }
    }

    /// The selection this value stands for.
    pub fn selection(self) -> (r: ThemeSelection)
        ensures
            r == self@,
    {
        self.selection
    }

    /// CSS classes to apply to a code container using this theme selection:
    /// the fixed theme's class, or `dxc-system` followed by the light
    /// theme's light-slot class and the dark theme's dark-slot class.
    pub fn classes(self) -> (r: String)
        ensures
            r@ == selection_classes(self@),
    {
        match self.selection {
            ThemeSelection::Fixed(theme) => theme.class(),
            ThemeSelection::System { light, dark } => {
                let mut classes = String::from_str("dxc-system ");
                let light_class = light.system_light_class();
                classes.append(light_class.as_str());
                classes.append(" ");
                let dark_class = dark.system_dark_class();
                classes.append(dark_class.as_str());
                classes
            },
        }
    }

    /// The stylesheets this selection needs: the fixed theme's own, or the
    /// light theme's light slot followed by the dark theme's dark slot.
    pub fn stylesheets(self) -> (r: Vec<ThemeStylesheet>)
        ensures
            match self@ {
                ThemeSelection::Fixed(theme) => r@.len() == 1 && r@[0].class@ == theme_class(theme),
                ThemeSelection::System { light, dark } => {
                    &&& r@.len() == 2
                    &&& r@[0].class@ == system_light_class(light)
                    &&& r@[1].class@ == system_dark_class(dark)
                },
            },
            sheet_views(r@) == selection_stylesheets(self@),
    {
        let mut sheets: Vec<ThemeStylesheet> = Vec::new();
        match self.selection {
            ThemeSelection::Fixed(theme) => {
                sheets.push(theme.stylesheet());
            },
            ThemeSelection::System { light, dark } => {
                sheets.push(light.system_light());
                sheets.push(dark.system_dark());
            },
        }
        assert(sheet_views(sheets@) =~= selection_stylesheets(self@));
        sheets
    }
}

impl Default for CodeTheme {
    /// The default selection is the default theme, fixed.
    fn default() -> (r: Self)
        ensures
            r@ == ThemeSelection::Fixed(Theme::RustdocAyu),
    {
        CodeTheme::fixed(Theme::RUSTDOC_AYU)
    }
}

impl From<Theme> for CodeTheme {
    fn from(theme: Theme) -> (r: Self)
        ensures
            r@ == ThemeSelection::Fixed(theme),
    {
        CodeTheme::fixed(theme)
    }
}

impl vstd::std_specs::convert::FromSpecImpl<Theme> for CodeTheme {
    open spec fn obeys_from_spec() -> bool {
        true
    }

    closed spec fn from_spec(v: Theme) -> Self {
        CodeTheme { selection: ThemeSelection::Fixed(v) }
    }
}

/// A value that names a theme selection: a [`Theme`] stands for that theme,
/// fixed; a [`CodeTheme`] for itself.
pub trait ThemeChoice: Sized {
    /// The selection this value names.
    spec fn spec_selection(self) -> ThemeSelection;

    /// The theme selection this value names.
    fn code_theme(self) -> (r: CodeTheme)
        ensures
            r@ == self.spec_selection(),
    ;
}

impl ThemeChoice for Theme {
    open spec fn spec_selection(self) -> ThemeSelection {
        ThemeSelection::Fixed(self)
    }

    fn code_theme(self) -> (r: CodeTheme) {
        CodeTheme::fixed(self)
    }
}

impl ThemeChoice for CodeTheme {
    open spec fn spec_selection(self) -> ThemeSelection {
        self@
    }

    fn code_theme(self) -> (r: CodeTheme) {
        self
    }
}

/// The classes of a code editor: `dxc-editor`, the selection's classes,
/// `dxc-editor-no-gutter` when line numbers are hidden, and the extra class
/// when there is one.
pub open spec fn editor_classes(
    selection: ThemeSelection,
    line_numbers: bool,
    extra_class: Seq<char>,
) -> Seq<char> {
    "dxc-editor "@ + selection_classes(selection) + (if line_numbers {
        Seq::empty()
    } else {
        " dxc-editor-no-gutter"@
    }) + (if extra_class.len() == 0 {
        Seq::empty()
    } else {
        " "@ + extra_class
    })
}

/// The class attribute of a code editor's container.
pub fn editor_class<T: ThemeChoice>(theme: T, line_numbers: bool, extra_class: &str) -> (r: String)
    ensures
        r@ == editor_classes(theme.spec_selection(), line_numbers, extra_class@),
{
    let mut class = String::from_str("dxc-editor ");
    let classes = theme.code_theme().classes();
    class.append(classes.as_str());
    if !line_numbers {
        class.append(" dxc-editor-no-gutter");
    }
    if !extra_class.is_empty() {
        class.append(" ");
        class.append(extra_class);
    }
    class
}

} // verus!
