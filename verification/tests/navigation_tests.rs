use fs_gui_engine_iced::nav_icons::{recolor_svg, resolve_inline_svg, ICON_AI, ICON_STORE};
use fs_gui_engine_iced::navigation::{
    corner_indicator_rounded, corner_menu_layout, corner_tooltip_side, item_fallback_label,
    side_indicator_is_vertical, side_indicator_rounded, side_menu_layout, Corner, MenuLayout,
    Side, TooltipSide,
};
use fs_gui_engine_iced::{
    update_corner_menu, update_side_menu, CornerMenuState, NavMessage, SideMenuState,
};

// ── update_corner_menu ────────────────────────────────────────────────────

#[test]
fn corner_toggle_opens_and_closes() {
    let mut state = CornerMenuState::default();
    assert!(!state.open);
    update_corner_menu(&mut state, Corner::TopLeft, &NavMessage::CornerMenuToggle(Corner::TopLeft));
    assert!(state.open);
    update_corner_menu(&mut state, Corner::TopLeft, &NavMessage::CornerMenuToggle(Corner::TopLeft));
    assert!(!state.open);
}

#[test]
fn corner_toggle_ignores_other_corner() {
    let mut state = CornerMenuState::default();
    update_corner_menu(&mut state, Corner::TopLeft, &NavMessage::CornerMenuToggle(Corner::TopRight));
    assert!(!state.open);
}

#[test]
fn corner_hover_sets_and_clears_index() {
    let mut state = CornerMenuState::default();
    update_corner_menu(
        &mut state,
        Corner::TopLeft,
        &NavMessage::CornerMenuItemEntered(Corner::TopLeft, 3),
    );
    assert_eq!(state.hovered_idx, Some(3));
    update_corner_menu(&mut state, Corner::TopLeft, &NavMessage::CornerMenuItemLeft(Corner::TopLeft));
    assert_eq!(state.hovered_idx, None);
}

#[test]
fn corner_ignores_side_and_action_messages() {
    let mut state = CornerMenuState { open: true, hovered_idx: Some(2) };
    update_corner_menu(&mut state, Corner::BottomLeft, &NavMessage::SideMenuToggle(Side::Left));
    update_corner_menu(
        &mut state,
        Corner::BottomLeft,
        &NavMessage::CornerMenuAction(Corner::BottomLeft, "open:store".to_string()),
    );
    update_corner_menu(
        &mut state,
        Corner::BottomLeft,
        &NavMessage::CornerMenuItemLeft(Corner::BottomRight),
    );
    assert!(state.open);
    assert_eq!(state.hovered_idx, Some(2));
}

// ── update_side_menu ──────────────────────────────────────────────────────

#[test]
fn side_toggle_opens_and_closes() {
    let mut state = SideMenuState::default();
    update_side_menu(&mut state, Side::Left, &NavMessage::SideMenuToggle(Side::Left));
    assert!(state.open);
    update_side_menu(&mut state, Side::Left, &NavMessage::SideMenuToggle(Side::Left));
    assert!(!state.open);
}

#[test]
fn side_toggle_ignores_other_side() {
    let mut state = SideMenuState::default();
    update_side_menu(&mut state, Side::Left, &NavMessage::SideMenuToggle(Side::Right));
    assert!(!state.open);
}

#[test]
fn side_hover_sets_and_clears_index() {
    let mut state = SideMenuState::default();
    update_side_menu(&mut state, Side::Left, &NavMessage::SideMenuItemEntered(Side::Left, 1));
    assert_eq!(state.hovered_idx, Some(1));
    update_side_menu(&mut state, Side::Left, &NavMessage::SideMenuItemLeft(Side::Left));
    assert_eq!(state.hovered_idx, None);
}

#[test]
fn side_toggle_keeps_hovered_index() {
    let mut state = SideMenuState { open: false, hovered_idx: Some(4) };
    update_side_menu(&mut state, Side::Top, &NavMessage::SideMenuToggle(Side::Top));
    assert!(state.open);
    assert_eq!(state.hovered_idx, Some(4));
    update_side_menu(&mut state, Side::Top, &NavMessage::CornerMenuToggle(Corner::TopLeft));
    assert!(state.open);
}

// ── layout decisions ──────────────────────────────────────────────────────

#[test]
fn closed_corner_menu_shows_indicator_only() {
    let l = corner_menu_layout(Corner::TopLeft, false, 2);
    assert!(!l.show_items);
    assert!(!l.scrollable);
    assert!(!corner_menu_layout(Corner::TopLeft, true, 0).show_items);
}

#[test]
fn corner_menu_indicator_position_and_scroll() {
    assert_eq!(
        corner_menu_layout(Corner::TopRight, true, 12),
        MenuLayout { show_items: true, indicator_first: true, scrollable: true }
    );
    assert_eq!(
        corner_menu_layout(Corner::BottomRight, true, 8),
        MenuLayout { show_items: true, indicator_first: false, scrollable: false }
    );
    assert!(corner_menu_layout(Corner::BottomLeft, true, 9).scrollable);
}

#[test]
fn side_menu_indicator_position_and_scroll() {
    assert_eq!(
        side_menu_layout(Side::Bottom, true, 10),
        MenuLayout { show_items: true, indicator_first: false, scrollable: true }
    );
    assert!(side_menu_layout(Side::Left, true, 1).indicator_first);
    assert!(side_menu_layout(Side::Top, true, 1).indicator_first);
    assert!(!side_menu_layout(Side::Right, true, 1).indicator_first);
    assert!(!side_menu_layout(Side::Right, false, 1).show_items);
}

#[test]
fn indicator_shapes_point_inward() {
    assert_eq!(corner_indicator_rounded(Corner::TopLeft), Corner::BottomRight);
    assert_eq!(corner_indicator_rounded(Corner::BottomRight), Corner::TopLeft);
    assert_eq!(corner_indicator_rounded(Corner::TopRight), Corner::BottomLeft);
    assert_eq!(side_indicator_rounded(Side::Left), (Corner::TopRight, Corner::BottomRight));
    assert_eq!(side_indicator_rounded(Side::Bottom), (Corner::TopLeft, Corner::TopRight));
    assert!(side_indicator_is_vertical(Side::Right));
    assert!(!side_indicator_is_vertical(Side::Top));
}

#[test]
fn tooltips_open_away_from_edge() {
    assert_eq!(corner_tooltip_side(Corner::TopLeft), TooltipSide::Right);
    assert_eq!(corner_tooltip_side(Corner::BottomLeft), TooltipSide::Right);
    assert_eq!(corner_tooltip_side(Corner::TopRight), TooltipSide::Left);
}

#[test]
fn fallback_label_is_first_two_chars() {
    assert_eq!(item_fallback_label("nav-home"), "na");
    assert_eq!(item_fallback_label("x"), "x");
    assert_eq!(item_fallback_label(""), "");
    assert_eq!(item_fallback_label("\u{e9}t\u{e9}"), "\u{e9}t");
}

// ── inline icons ──────────────────────────────────────────────────────────

#[test]
fn inline_svg_strips_namespace() {
    assert_eq!(resolve_inline_svg("fs:nav/store"), Some(ICON_STORE));
    assert_eq!(resolve_inline_svg("fs:apps/assistant"), Some(ICON_AI));
    assert_eq!(resolve_inline_svg("ai"), Some(ICON_AI));
    assert_eq!(resolve_inline_svg("fs:nav/test"), None);
    assert_eq!(resolve_inline_svg("fs:nav/"), None);
    assert_eq!(resolve_inline_svg("store/"), None);
}

#[test]
fn recolor_replaces_current_color() {
    let svg = r#"<svg fill="none" stroke="currentColor"><path fill="currentColor"/></svg>"#;
    assert_eq!(
        recolor_svg(svg, "#e2e8f0"),
        r##"<svg fill="none" stroke="#e2e8f0"><path fill="#e2e8f0"/></svg>"##
    );
    let out = recolor_svg(ICON_STORE, "#e2e8f0");
    assert!(!out.contains("currentColor"));
    assert_eq!(out, ICON_STORE.replace("currentColor", "#e2e8f0"));
}
