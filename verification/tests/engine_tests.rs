use fs_gui_engine_iced::capability::{ENGINE_DISPLAY_NAME, ENGINE_VERSION};
use fs_gui_engine_iced::theme::ThemeKind;
use fs_gui_engine_iced::{
    AppContext, FsEvent, IcedCapability, IcedEngine, IcedTheme, IcedWidget, IcedWindow,
    WindowConfig, WindowEvent, CAPABILITY_ID,
};

// ── IcedEngine ─────────────────────────────────────────────────────────────

#[test]
fn engine_name_is_iced() {
    let e = IcedEngine::new();
    assert_eq!(e.name(), "iced");
}

#[test]
fn engine_creates_window_with_correct_title() {
    let e = IcedEngine::new();
    let cfg = WindowConfig {
        title: "Test Window".into(),
        ..WindowConfig::default()
    };
    let win = e.create_window(cfg);
    assert_eq!(win.title(), "Test Window");
}

#[test]
fn engine_default_theme_is_fs_default() {
    let e = IcedEngine::default();
    assert!(e.current_theme().name().contains("FreeSynergy Default"));
}

#[test]
fn engine_version_matches_capability_version() {
    let e = IcedEngine::new();
    assert_eq!(e.version(), ENGINE_VERSION);
    assert_eq!(e.version(), IcedCapability::descriptor().version);
}

#[test]
fn engine_new_context_is_english_default() {
    let e = IcedEngine::new();
    let ctx = e.app_context();
    assert_eq!(ctx.locale, "en");
    assert_eq!(ctx.theme_name, "FreeSynergy Default");
}

#[test]
fn engine_created_window_starts_visible_without_events() {
    let e = IcedEngine::new();
    let mut win = e.create_window(WindowConfig::default());
    assert_eq!(win.title(), "");
    assert!(win.is_visible());
    assert!(!win.is_minimized());
    assert!(win.drain_events().is_empty());
}

#[test]
fn engine_lifecycle_hooks_change_nothing() {
    let mut e = IcedEngine::new();
    e.apply_theme(&IcedTheme::fs_default());
    e.dispatch_event(FsEvent::Window(WindowEvent::Focused));
    e.run();
    e.shutdown();
    assert_eq!(e.app_context().locale, "en");
    assert_eq!(e.current_theme().name(), "FreeSynergy Default (iced-dark)");
}

// ── IcedWindow ─────────────────────────────────────────────────────────────

#[test]
fn window_starts_visible() {
    let win = IcedWindow::new("App");
    assert!(win.is_visible());
    assert!(!win.is_minimized());
}

#[test]
fn window_hide_show() {
    let mut win = IcedWindow::new("App");
    win.hide_window();
    assert!(!win.is_visible());
    win.show();
    assert!(win.is_visible());
}

#[test]
fn window_minimize_restore() {
    let mut win = IcedWindow::new("App");
    win.minimize();
    assert!(win.is_minimized());
    win.restore();
    assert!(!win.is_minimized());
    assert!(win.is_visible());
}

#[test]
fn window_set_title() {
    let mut win = IcedWindow::new("Old");
    win.set_title("New".to_string());
    assert_eq!(win.title(), "New");
}

#[test]
fn window_close_queues_event() {
    let mut win = IcedWindow::new("App");
    win.close();
    let events = win.drain_events();
    assert!(events.contains(&FsEvent::Window(WindowEvent::CloseRequested)));
}

#[test]
fn window_on_event_queued_and_drained() {
    let mut win = IcedWindow::new("App");
    win.on_event(FsEvent::Window(WindowEvent::Focused));
    win.on_event(FsEvent::Window(WindowEvent::Unfocused));
    let events = win.drain_events();
    assert_eq!(events.len(), 2);
    let events2 = win.drain_events();
    assert!(events2.is_empty());
}

#[test]
fn window_events_drain_in_queue_order() {
    let mut win = IcedWindow::new("App");
    win.minimize();
    win.on_event(FsEvent::Window(WindowEvent::Focused));
    win.restore();
    win.close();
    assert!(!win.is_visible());
    assert_eq!(
        win.drain_events(),
        vec![
            FsEvent::Window(WindowEvent::Minimized),
            FsEvent::Window(WindowEvent::Focused),
            FsEvent::Window(WindowEvent::Restored),
            FsEvent::Window(WindowEvent::CloseRequested),
        ]
    );
}

#[test]
fn window_show_clears_minimized_without_event() {
    let mut win = IcedWindow::new("App");
    win.minimize();
    let _ = win.drain_events();
    win.hide_window();
    assert!(win.is_minimized());
    win.show();
    assert!(win.is_visible());
    assert!(!win.is_minimized());
    assert!(win.drain_events().is_empty());
}

// ── IcedWidget ─────────────────────────────────────────────────────────────

#[test]
fn widget_id_and_enabled() {
    let w = IcedWidget::new("btn-save");
    assert_eq!(w.widget_id(), "btn-save");
    assert!(w.is_enabled());
}

#[test]
fn widget_disable_enable() {
    let mut w = IcedWidget::new("btn-delete");
    w.set_enabled(false);
    assert!(!w.is_enabled());
    w.set_enabled(true);
    assert!(w.is_enabled());
}

#[test]
fn widget_set_enabled_keeps_id() {
    let mut w = IcedWidget::new("btn-x");
    w.set_enabled(false);
    assert_eq!(w.widget_id(), "btn-x");
}

// ── IcedTheme ──────────────────────────────────────────────────────────────

#[test]
fn theme_name_contains_free_synergy() {
    let t = IcedTheme::fs_default();
    assert!(t.name().contains("FreeSynergy"));
}

// ── set_context ────────────────────────────────────────────────────────────

#[test]
fn engine_set_context_updates_locale() {
    let mut e = IcedEngine::new();
    let ctx = AppContext::new("de", "FreeSynergy Default");
    e.set_context(ctx);
    assert_eq!(e.app_context().locale, "de");
}

#[test]
fn engine_set_context_updates_theme_name() {
    let mut e = IcedEngine::new();
    e.set_context(AppContext::new("en", "CatppuccinMocha"));
    assert_eq!(e.app_context().theme_name, "CatppuccinMocha");
}

#[test]
fn engine_set_context_keeps_theme() {
    let mut e = IcedEngine::new();
    e.set_context(AppContext::new("fr", "Nord"));
    assert_eq!(e.current_theme().name(), "FreeSynergy Default (iced-dark)");
}

// ── IcedCapability ─────────────────────────────────────────────────────────

#[test]
fn capability_id_is_correct() {
    assert_eq!(CAPABILITY_ID, "render.engine.iced");
}

#[test]
fn capability_descriptor_has_version() {
    let cap = IcedCapability::descriptor();
    assert!(!cap.version.is_empty());
    assert_eq!(cap.id, "render.engine.iced");
}

#[test]
fn capability_default_is_descriptor() {
    let cap = IcedCapability::default();
    assert_eq!(cap.id, CAPABILITY_ID);
    assert_eq!(cap.display_name, ENGINE_DISPLAY_NAME);
    assert_eq!(cap.display_name, "FreeSynergy iced Render Engine");
    assert_eq!(cap.version, "0.1.0");
}

#[test]
fn engine_apply_theme_is_reported() {
    let mut e = IcedEngine::new();
    let t = IcedTheme::new(ThemeKind::Nord);
    e.apply_theme(&t);
    assert_eq!(e.current_theme().name(), t.name());
    assert_eq!(e.current_theme().name(), "iced-nord");
    assert_eq!(e.app_context().locale, "en");
}

#[test]
fn engine_context_keeps_feature_flags() {
    let mut e = IcedEngine::new();
    assert!(e.app_context().features.is_empty());
    let mut ctx = AppContext::new("de", "Nord");
    ctx.features.push("wayland".to_string());
    ctx.features.push("portals".to_string());
    e.set_context(ctx);
    assert_eq!(e.app_context().features, vec!["wayland".to_string(), "portals".to_string()]);
}

#[test]
fn descriptors_clone_and_debug() {
    let cap = IcedCapability::descriptor().clone();
    assert_eq!(cap.id, CAPABILITY_ID);
    let w = IcedWidget::new("btn").clone();
    assert_eq!(w.widget_id(), "btn");
    assert!(format!("{:?}", IcedWindow::new("App")).contains("App"));
}
