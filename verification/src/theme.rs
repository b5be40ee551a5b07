//! Theme selection and naming for the iced render engine.
//!
//! The built-in themes of the toolkit are named here; their colours live
//! with the runtime.

use vstd::prelude::*;

verus! {

/// The toolkit's built-in themes, plus a custom palette.
#[derive(Debug, Clone, Copy, PartialEq, Eq, Structural)]
pub enum ThemeKind {
    Light,
    Dark,
    Dracula,
    Nord,
    SolarizedLight,
    SolarizedDark,
    GruvboxLight,
    GruvboxDark,
    CatppuccinLatte,
    CatppuccinFrappe,
    CatppuccinMacchiato,
    CatppuccinMocha,
    TokyoNight,
    TokyoNightStorm,
    TokyoNightLight,
    KanagawaWave,
    KanagawaDragon,
    KanagawaLotus,
    Moonfly,
    Nightfly,
    Oxocarbon,
    Ferra,
    Custom,
}

/// Display name of a theme.
pub open spec fn theme_name(kind: ThemeKind) -> Seq<char> {
    match kind {
        ThemeKind::Light => "iced-light"@,
        ThemeKind::Dark => "FreeSynergy Default (iced-dark)"@,
        ThemeKind::Dracula => "iced-dracula"@,
        ThemeKind::Nord => "iced-nord"@,
        ThemeKind::SolarizedLight => "iced-solarized-light"@,
        ThemeKind::SolarizedDark => "iced-solarized-dark"@,
        ThemeKind::GruvboxLight => "iced-gruvbox-light"@,
        ThemeKind::GruvboxDark => "iced-gruvbox-dark"@,
        ThemeKind::CatppuccinLatte => "iced-catppuccin-latte"@,
        ThemeKind::CatppuccinFrappe => "iced-catppuccin-frappe"@,
        ThemeKind::CatppuccinMacchiato => "iced-catppuccin-macchiato"@,
        ThemeKind::CatppuccinMocha => "iced-catppuccin-mocha"@,
        ThemeKind::TokyoNight => "iced-tokyo-night"@,
        ThemeKind::TokyoNightStorm => "iced-tokyo-night-storm"@,
        ThemeKind::TokyoNightLight => "iced-tokyo-night-light"@,
        ThemeKind::KanagawaWave => "iced-kanagawa-wave"@,
        ThemeKind::KanagawaDragon => "iced-kanagawa-dragon"@,
        ThemeKind::KanagawaLotus => "iced-kanagawa-lotus"@,
        ThemeKind::Moonfly => "iced-moonfly"@,
        ThemeKind::Nightfly => "iced-nightfly"@,
        ThemeKind::Oxocarbon => "iced-oxocarbon"@,
        ThemeKind::Ferra => "iced-ferra"@,
        ThemeKind::Custom => "iced-custom"@,
    }
}

/// iced-backed theme: which toolkit theme is in use.
#[derive(Debug, Clone, Copy)]
pub struct IcedTheme {
    kind: ThemeKind,
}

impl IcedTheme {
    /// The toolkit theme this value wraps.
    pub closed spec fn spec_kind(&self) -> ThemeKind {
        self.kind
    }

    /// Wrap a toolkit theme.
    pub fn new(kind: ThemeKind) -> (t: Self)
        ensures
            t.spec_kind() == kind,
    {
        IcedTheme { kind }
    }

    /// The FreeSynergy Default theme: the dark toolkit theme.
    pub fn fs_default() -> (t: Self)
        ensures
            t.spec_kind() == ThemeKind::Dark,
    {
        Self::new(ThemeKind::Dark)
    }

    /// The toolkit theme this value wraps.
    pub fn kind(&self) -> (k: ThemeKind)
        ensures
            k == self.spec_kind(),
    {
        self.kind
    }

    /// Display name of the theme.
    pub fn name(&self) -> (r: &'static str)
        ensures
            r@ == theme_name(self.spec_kind()),
    {
        match self.kind {
            ThemeKind::Light => "iced-light",
            ThemeKind::Dark => "FreeSynergy Default (iced-dark)",
            ThemeKind::Dracula => "iced-dracula",
            ThemeKind::Nord => "iced-nord",
            ThemeKind::SolarizedLight => "iced-solarized-light",
            ThemeKind::SolarizedDark => "iced-solarized-dark",
            ThemeKind::GruvboxLight => "iced-gruvbox-light",
            ThemeKind::GruvboxDark => "iced-gruvbox-dark",
            ThemeKind::CatppuccinLatte => "iced-catppuccin-latte",
            ThemeKind::CatppuccinFrappe => "iced-catppuccin-frappe",
            ThemeKind::CatppuccinMacchiato => "iced-catppuccin-macchiato",
            ThemeKind::CatppuccinMocha => "iced-catppuccin-mocha",
            ThemeKind::TokyoNight => "iced-tokyo-night",
            ThemeKind::TokyoNightStorm => "iced-tokyo-night-storm",
            ThemeKind::TokyoNightLight => "iced-tokyo-night-light",
            ThemeKind::KanagawaWave => "iced-kanagawa-wave",
            ThemeKind::KanagawaDragon => "iced-kanagawa-dragon",
            ThemeKind::KanagawaLotus => "iced-kanagawa-lotus",
            ThemeKind::Moonfly => "iced-moonfly",
            ThemeKind::Nightfly => "iced-nightfly",
            ThemeKind::Oxocarbon => "iced-oxocarbon",
            ThemeKind::Ferra => "iced-ferra",
            ThemeKind::Custom => "iced-custom",
        }
    }
}

impl Default for IcedTheme {
    /// The FreeSynergy Default theme.
    fn default() -> (t: Self)
        ensures
            t.spec_kind() == ThemeKind::Dark,
    {
        Self::fs_default()
    }
}

/// Each toolkit theme carries its own name: the dark theme is the
/// FreeSynergy Default, every other theme is named `iced-` and its
/// kebab-case variant name.
pub proof fn lemma_theme_names(kind: ThemeKind)
    ensures
        kind == ThemeKind::Light ==> theme_name(kind) == "iced-light"@,
        kind == ThemeKind::Dark ==> theme_name(kind) == "FreeSynergy Default (iced-dark)"@,
        kind == ThemeKind::Dracula ==> theme_name(kind) == "iced-dracula"@,
        kind == ThemeKind::Nord ==> theme_name(kind) == "iced-nord"@,
        kind == ThemeKind::SolarizedLight ==> theme_name(kind) == "iced-solarized-light"@,
        kind == ThemeKind::SolarizedDark ==> theme_name(kind) == "iced-solarized-dark"@,
        kind == ThemeKind::GruvboxLight ==> theme_name(kind) == "iced-gruvbox-light"@,
        kind == ThemeKind::GruvboxDark ==> theme_name(kind) == "iced-gruvbox-dark"@,
        kind == ThemeKind::CatppuccinLatte ==> theme_name(kind) == "iced-catppuccin-latte"@,
        kind == ThemeKind::CatppuccinFrappe ==> theme_name(kind) == "iced-catppuccin-frappe"@,
        kind == ThemeKind::CatppuccinMacchiato ==> theme_name(kind) == "iced-catppuccin-macchiato"@,
        kind == ThemeKind::CatppuccinMocha ==> theme_name(kind) == "iced-catppuccin-mocha"@,
        kind == ThemeKind::TokyoNight ==> theme_name(kind) == "iced-tokyo-night"@,
        kind == ThemeKind::TokyoNightStorm ==> theme_name(kind) == "iced-tokyo-night-storm"@,
        kind == ThemeKind::TokyoNightLight ==> theme_name(kind) == "iced-tokyo-night-light"@,
        kind == ThemeKind::KanagawaWave ==> theme_name(kind) == "iced-kanagawa-wave"@,
        kind == ThemeKind::KanagawaDragon ==> theme_name(kind) == "iced-kanagawa-dragon"@,
        kind == ThemeKind::KanagawaLotus ==> theme_name(kind) == "iced-kanagawa-lotus"@,
        kind == ThemeKind::Moonfly ==> theme_name(kind) == "iced-moonfly"@,
        kind == ThemeKind::Nightfly ==> theme_name(kind) == "iced-nightfly"@,
        kind == ThemeKind::Oxocarbon ==> theme_name(kind) == "iced-oxocarbon"@,
        kind == ThemeKind::Ferra ==> theme_name(kind) == "iced-ferra"@,
        kind == ThemeKind::Custom ==> theme_name(kind) == "iced-custom"@,
{
}

} // verus!
