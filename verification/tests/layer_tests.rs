use fs_gui_engine_iced::layer::{Anchor, KeyboardInteractivity, Layer};
use fs_gui_engine_iced::{LayerWindowConfig, ScreenCorner, ScreenEdge};

#[test]
fn panel_bottom_has_exclusive_zone() {
    let cfg = LayerWindowConfig::panel(ScreenEdge::Bottom, 48);
    let settings = cfg.into_shell_settings();
    assert_eq!(settings.exclusive_zone, 48);
    assert_eq!(settings.layer, Layer::Top);
}

#[test]
fn dock_uses_background_layer() {
    let cfg = LayerWindowConfig::dock(ScreenEdge::Bottom, 64);
    let settings = cfg.into_shell_settings();
    assert_eq!(settings.layer, Layer::Bottom);
}

#[test]
fn corner_overlay_no_exclusive_zone() {
    let cfg = LayerWindowConfig::corner_overlay(ScreenCorner::TopLeft, (40, 40));
    let settings = cfg.into_shell_settings();
    assert_eq!(settings.exclusive_zone, 0);
    assert_eq!(settings.size, Some((40, 40)));
}

#[test]
fn fullscreen_overlay_keyboard_exclusive() {
    let cfg = LayerWindowConfig::fullscreen_overlay();
    let settings = cfg.into_shell_settings();
    assert_eq!(settings.keyboard_interactivity, KeyboardInteractivity::Exclusive);
    assert_eq!(settings.exclusive_zone, -1);
}

#[test]
fn panel_size_follows_edge_orientation() {
    let top = LayerWindowConfig::panel(ScreenEdge::Top, 30).into_shell_settings();
    assert_eq!(top.size, Some((0, 30)));
    assert_eq!(top.anchor, Anchor { top: true, bottom: false, left: true, right: true });
    let left = LayerWindowConfig::panel(ScreenEdge::Left, 56).into_shell_settings();
    assert_eq!(left.size, Some((56, 0)));
    assert_eq!(left.anchor, Anchor { top: true, bottom: true, left: true, right: false });
    assert_eq!(left.keyboard_interactivity, KeyboardInteractivity::NoFocus);
    assert_eq!(left.margin, (0, 0, 0, 0));
}

#[test]
fn dock_matches_panel_except_layer() {
    let panel = LayerWindowConfig::panel(ScreenEdge::Right, 72).into_shell_settings();
    let dock = LayerWindowConfig::dock(ScreenEdge::Right, 72).into_shell_settings();
    assert_eq!(dock.anchor, panel.anchor);
    assert_eq!(dock.size, panel.size);
    assert_eq!(dock.exclusive_zone, panel.exclusive_zone);
    assert_eq!(dock.layer, Layer::Bottom);
    assert_eq!(panel.layer, Layer::Top);
}

#[test]
fn corner_anchors_pin_two_edges() {
    assert_eq!(
        ScreenCorner::BottomRight.anchor(),
        Anchor { top: false, bottom: true, left: false, right: true }
    );
    assert_eq!(
        ScreenCorner::TopRight.anchor(),
        Anchor { top: true, bottom: false, left: false, right: true }
    );
    assert_eq!(
        ScreenEdge::Bottom.anchor(),
        Anchor { top: false, bottom: true, left: true, right: true }
    );
}

#[test]
fn builders_change_only_their_field() {
    let cfg = LayerWindowConfig::corner_overlay(ScreenCorner::BottomLeft, (20, 30))
        .keyboard(KeyboardInteractivity::OnDemand)
        .margin(1, 2, 3, 4)
        .layer(Layer::Background)
        .into_shell_settings();
    assert_eq!(cfg.keyboard_interactivity, KeyboardInteractivity::OnDemand);
    assert_eq!(cfg.margin, (1, 2, 3, 4));
    assert_eq!(cfg.layer, Layer::Background);
    assert_eq!(cfg.size, Some((20, 30)));
    assert_eq!(cfg.exclusive_zone, 0);
    assert_eq!(cfg.anchor, Anchor { top: false, bottom: true, left: true, right: false });
}
