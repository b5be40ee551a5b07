use fs_gui_engine_iced::layout::{
    icon_emoji_fallback, icon_svg_candidates, path_join, shell_width, slot_placements,
    text_size_px, LayoutError, ShellKind, ShellWidth, SlotConfig, SlotKind, TextSize,
};
use fs_gui_engine_iced::load_layout_or_default;

#[test]
fn text_size_tiny_is_ten() {
    assert_eq!(text_size_px(&TextSize::Tiny), 10);
}

#[test]
fn text_size_heading_is_twenty() {
    assert_eq!(text_size_px(&TextSize::Heading), 20);
}

#[test]
fn text_sizes_in_between() {
    assert_eq!(text_size_px(&TextSize::Body), 13);
    assert_eq!(text_size_px(&TextSize::Label), 14);
    assert_eq!(text_size_px(&TextSize::Subheading), 16);
}

#[test]
fn emoji_fallback_known_and_unknown_names() {
    assert_eq!(icon_emoji_fallback("settings"), "\u{2699}");
    assert_eq!(icon_emoji_fallback("preferences"), "\u{2699}");
    assert_eq!(icon_emoji_fallback("launcher"), "\u{229e}");
    assert_eq!(icon_emoji_fallback("question"), "?");
    assert_eq!(icon_emoji_fallback("bell"), "\u{1f514}");
    assert_eq!(icon_emoji_fallback("unpin"), "\u{1f4cd}");
    assert_eq!(icon_emoji_fallback("Settings"), "\u{25cf}");
    assert_eq!(icon_emoji_fallback(""), "\u{25cf}");
}

#[test]
fn path_join_inserts_one_separator() {
    assert_eq!(path_join("/home/u", "a/b"), "/home/u/a/b");
    assert_eq!(path_join("/home/u/", "a/b"), "/home/u/a/b");
    assert_eq!(path_join("", "a/b"), "a/b");
}

#[test]
fn path_join_absolute_part_replaces_base() {
    assert_eq!(path_join("/a", "/b"), "/b");
    assert_eq!(
        std::path::PathBuf::from("/a").join("/b"),
        std::path::PathBuf::from(path_join("/a", "/b"))
    );
    let c = icon_svg_candidates(Some("/home/ana"), None, "/etc/icon");
    assert_eq!(c[0], "/etc/icon.svg");
    assert_eq!(c[1], "/etc/icon.svg");
}

#[test]
fn icon_candidates_in_search_order() {
    let c = icon_svg_candidates(Some("/home/ana"), Some("/opt/fs/bin"), "store");
    assert_eq!(
        c,
        vec![
            "/home/ana/.local/share/freesynergy/icons/store.svg".to_string(),
            "/var/lib/freesynergy/icons/store.svg".to_string(),
            "/opt/fs/bin/assets/icons/store.svg".to_string(),
        ]
    );
}

#[test]
fn icon_candidates_without_home_or_exe() {
    let c = icon_svg_candidates(None, None, "pin");
    assert_eq!(c[0], "./.local/share/freesynergy/icons/pin.svg");
    assert_eq!(c[1], "/var/lib/freesynergy/icons/pin.svg");
    assert_eq!(c[2], "");
}

#[test]
fn slots_render_top_fill_bottom() {
    let slots = SlotConfig {
        top: vec!["clock".to_string()],
        fill: vec!["apps".to_string(), "tasks".to_string()],
        bottom: vec!["power".to_string()],
    };
    let placed = slot_placements(&slots, ShellKind::Sidebar);
    let got: Vec<(String, ShellKind, SlotKind)> = placed
        .into_iter()
        .map(|p| (p.component_id, p.shell, p.slot))
        .collect();
    assert_eq!(
        got,
        vec![
            ("clock".to_string(), ShellKind::Sidebar, SlotKind::Top),
            ("apps".to_string(), ShellKind::Sidebar, SlotKind::Fill),
            ("tasks".to_string(), ShellKind::Sidebar, SlotKind::Fill),
            ("power".to_string(), ShellKind::Sidebar, SlotKind::Bottom),
        ]
    );
}

#[test]
fn empty_slots_render_nothing() {
    let slots = SlotConfig { top: vec![], fill: vec![], bottom: vec![] };
    assert!(slot_placements(&slots, ShellKind::Main).is_empty());
}

#[test]
fn shell_width_fixed_or_fill() {
    assert_eq!(shell_width(240), ShellWidth::Fixed(240));
    assert_eq!(shell_width(0), ShellWidth::Fill);
}

#[test]
fn load_missing_file_returns_default() {
    let r = load_layout_or_default(Err(LayoutError::NotFound("/nonexistent/layout.toml".into())), 7u32);
    assert!(matches!(r, Ok(7)));
}

#[test]
fn loaded_layout_is_kept() {
    let r = load_layout_or_default(Ok(3u32), 7u32);
    assert!(matches!(r, Ok(3)));
}

#[test]
fn parse_error_is_passed_on() {
    let r = load_layout_or_default(Err(LayoutError::Parse("bad toml".into())), 7u32);
    assert!(matches!(r, Err(LayoutError::Parse(ref m)) if m == "bad toml"));
}
