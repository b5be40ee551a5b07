use fs_gui_engine_iced::theme::ThemeKind;
use fs_gui_engine_iced::IcedTheme;

#[test]
fn theme_names_follow_toolkit_theme() {
    assert_eq!(IcedTheme::new(ThemeKind::Light).name(), "iced-light");
    assert_eq!(IcedTheme::new(ThemeKind::CatppuccinMocha).name(), "iced-catppuccin-mocha");
    assert_eq!(IcedTheme::new(ThemeKind::TokyoNightStorm).name(), "iced-tokyo-night-storm");
    assert_eq!(IcedTheme::new(ThemeKind::Custom).name(), "iced-custom");
    assert_eq!(IcedTheme::default().name(), "FreeSynergy Default (iced-dark)");
    assert_eq!(IcedTheme::fs_default().kind(), ThemeKind::Dark);
}
