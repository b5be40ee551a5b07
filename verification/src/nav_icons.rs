//! Inline SVG icons for the `fs:nav/*` and `fs:apps/*` icon namespaces, and
//! the text rewriting that gives them a concrete colour.

use vstd::prelude::*;
use crate::strings::{after_last, replace_all, str_after_last, str_equals, string_replace};

verus! {

pub const ICON_LAUNCHER: &'static str = r#"<svg width="24" height="24" viewBox="0 0 24 24" fill="none" stroke="currentColor" stroke-width="2" stroke-linecap="round" stroke-linejoin="round"><rect x="3" y="3" width="7" height="7"/><rect x="14" y="3" width="7" height="7"/><rect x="3" y="14" width="7" height="7"/><rect x="14" y="14" width="7" height="7"/></svg>"#;
pub const ICON_STORE: &'static str = r#"<svg width="24" height="24" viewBox="0 0 24 24" fill="none" stroke="currentColor" stroke-width="2" stroke-linecap="round" stroke-linejoin="round"><path d="M6 2L3 6v14a2 2 0 0 0 2 2h14a2 2 0 0 0 2-2V6l-3-4z"/><line x1="3" y1="6" x2="21" y2="6"/><path d="M16 10a4 4 0 0 1-8 0"/></svg>"#;
pub const ICON_BROWSER: &'static str = r#"<svg width="24" height="24" viewBox="0 0 24 24" fill="none" stroke="currentColor" stroke-width="2" stroke-linecap="round" stroke-linejoin="round"><circle cx="12" cy="12" r="10"/><line x1="2" y1="12" x2="22" y2="12"/><path d="M12 2a15.3 15.3 0 0 1 4 10 15.3 15.3 0 0 1-4 10 15.3 15.3 0 0 1-4-10 15.3 15.3 0 0 1 4-10z"/></svg>"#;
pub const ICON_LENSES: &'static str = r#"<svg width="24" height="24" viewBox="0 0 24 24" fill="none" stroke="currentColor" stroke-width="2" stroke-linecap="round" stroke-linejoin="round"><circle cx="11" cy="11" r="8"/><line x1="21" y1="21" x2="16.65" y2="16.65"/></svg>"#;
pub const ICON_TASKS: &'static str = r#"<svg width="24" height="24" viewBox="0 0 24 24" fill="none" stroke="currentColor" stroke-width="2" stroke-linecap="round" stroke-linejoin="round"><polyline points="9 11 12 14 22 4"/><path d="M21 12v7a2 2 0 0 1-2 2H5a2 2 0 0 1-2-2V5a2 2 0 0 1 2-2h11"/></svg>"#;
pub const ICON_BOTS: &'static str = r#"<svg width="24" height="24" viewBox="0 0 24 24" fill="none" stroke="currentColor" stroke-width="2" stroke-linecap="round" stroke-linejoin="round"><rect x="4" y="4" width="16" height="16" rx="2"/><rect x="9" y="9" width="6" height="6"/><line x1="9" y1="1" x2="9" y2="4"/><line x1="15" y1="1" x2="15" y2="4"/><line x1="9" y1="20" x2="9" y2="23"/><line x1="15" y1="20" x2="15" y2="23"/><line x1="20" y1="9" x2="23" y2="9"/><line x1="20" y1="14" x2="23" y2="14"/><line x1="1" y1="9" x2="4" y2="9"/><line x1="1" y1="14" x2="4" y2="14"/></svg>"#;
pub const ICON_MANAGERS: &'static str = r#"<svg width="24" height="24" viewBox="0 0 24 24" fill="none" stroke="currentColor" stroke-width="2" stroke-linecap="round" stroke-linejoin="round"><path d="M12 2L2 7l10 5 10-5-10-5z"/><path d="M2 17l10 5 10-5"/><path d="M2 12l10 5 10-5"/></svg>"#;
pub const ICON_PROFILE: &'static str = r#"<svg width="24" height="24" viewBox="0 0 24 24" fill="none" stroke="currentColor" stroke-width="2" stroke-linecap="round" stroke-linejoin="round"><path d="M20 21v-2a4 4 0 0 0-4-4H8a4 4 0 0 0-4 4v2"/><circle cx="12" cy="7" r="4"/></svg>"#;
pub const ICON_SETTINGS: &'static str = r#"<svg width="24" height="24" viewBox="0 0 24 24" fill="none" stroke="currentColor" stroke-width="2" stroke-linecap="round" stroke-linejoin="round"><circle cx="12" cy="12" r="3"/><path d="M19.4 15a1.65 1.65 0 0 0 .33 1.82l.06.06a2 2 0 0 1-2.83 2.83l-.06-.06a1.65 1.65 0 0 0-1.82-.33 1.65 1.65 0 0 0-1 1.51V21a2 2 0 0 1-4 0v-.09A1.65 1.65 0 0 0 9 19.4a1.65 1.65 0 0 0-1.82.33l-.06.06a2 2 0 0 1-2.83-2.83l.06-.06A1.65 1.65 0 0 0 4.68 15a1.65 1.65 0 0 0-1.51-1H3a2 2 0 0 1 0-4h.09A1.65 1.65 0 0 0 4.6 9a1.65 1.65 0 0 0-.33-1.82l-.06-.06a2 2 0 0 1 2.83-2.83l.06.06A1.65 1.65 0 0 0 9 4.68a1.65 1.65 0 0 0 1-1.51V3a2 2 0 0 1 4 0v.09a1.65 1.65 0 0 0 1 1.51 1.65 1.65 0 0 0 1.82-.33l.06-.06a2 2 0 0 1 2.83 2.83l-.06.06A1.65 1.65 0 0 0 19.4 9a1.65 1.65 0 0 0 1.51 1H21a2 2 0 0 1 0 4h-.09a1.65 1.65 0 0 0-1.51 1z"/></svg>"#;
pub const ICON_HELP: &'static str = r#"<svg width="24" height="24" viewBox="0 0 24 24" fill="none" stroke="currentColor" stroke-width="2" stroke-linecap="round" stroke-linejoin="round"><circle cx="12" cy="12" r="10"/><path d="M9.09 9a3 3 0 0 1 5.83 1c0 2-3 3-3 3"/><line x1="12" y1="17" x2="12.01" y2="17"/></svg>"#;
pub const ICON_AI: &'static str = r#"<svg width="24" height="24" viewBox="0 0 24 24" fill="none" stroke="currentColor" stroke-width="2" stroke-linecap="round" stroke-linejoin="round"><polygon points="12 2 15.09 8.26 22 9.27 17 14.14 18.18 21.02 12 17.77 5.82 21.02 7 14.14 2 9.27 8.91 8.26 12 2"/></svg>"#;
pub const ICON_DESKTOP: &'static str = r#"<svg width="24" height="24" viewBox="0 0 24 24" fill="none" stroke="currentColor" stroke-width="2" stroke-linecap="round" stroke-linejoin="round"><rect x="2" y="3" width="20" height="14" rx="2"/><polyline points="8 21 12 17 16 21"/></svg>"#;
pub const ICON_CONTAINER: &'static str = r#"<svg width="24" height="24" viewBox="0 0 24 24" fill="none" stroke="currentColor" stroke-width="2" stroke-linecap="round" stroke-linejoin="round"><path d="M21 16V8a2 2 0 0 0-1-1.73l-7-4a2 2 0 0 0-2 0l-7 4A2 2 0 0 0 3 8v8a2 2 0 0 0 1 1.73l7 4a2 2 0 0 0 2 0l7-4A2 2 0 0 0 21 16z"/><polyline points="3.27 6.96 12 12.01 20.73 6.96"/><line x1="12" y1="22.08" x2="12" y2="12"/></svg>"#;

/// The inline SVG for a bare icon name, if the name is known.
pub open spec fn nav_icon_for(name: Seq<char>) -> Option<Seq<char>> {
    if name == "launcher"@ {
        Some(ICON_LAUNCHER@)
    } else if name == "store"@ {
        Some(ICON_STORE@)
    } else if name == "browser"@ {
        Some(ICON_BROWSER@)
    } else if name == "lenses"@ {
        Some(ICON_LENSES@)
    } else if name == "tasks"@ {
        Some(ICON_TASKS@)
    } else if name == "bots"@ {
        Some(ICON_BOTS@)
    } else if name == "managers"@ {
        Some(ICON_MANAGERS@)
    } else if name == "profile"@ {
        Some(ICON_PROFILE@)
    } else if name == "settings"@ {
        Some(ICON_SETTINGS@)
    } else if name == "help"@ {
        Some(ICON_HELP@)
    } else if name == "ai"@ {
        Some(ICON_AI@)
    } else if name == "assistant"@ {
        Some(ICON_AI@)
    } else if name == "desktop"@ {
        Some(ICON_DESKTOP@)
    } else if name == "container"@ {
        Some(ICON_CONTAINER@)
    } else {
        None
    }
}

/// Resolve an `fs:nav/*` or `fs:apps/*` icon key to an inline SVG string.
///
/// The namespace prefix (everything up to the last `/`) is stripped before the
/// bare name is looked up; unknown names give `None` so callers can fall back
/// to a text label.
pub fn resolve_inline_svg(icon_key: &str) -> (r: Option<&'static str>)
    ensures
        match r {
            Some(svg) => nav_icon_for(after_last(icon_key@, '/')) == Some(svg@),
            None => nav_icon_for(after_last(icon_key@, '/')) is None,
        },
        after_last(icon_key@, '/') == "launcher"@ ==> (r matches Some(svg) && svg@ == ICON_LAUNCHER@),
        after_last(icon_key@, '/') == "store"@ ==> (r matches Some(svg) && svg@ == ICON_STORE@),
        after_last(icon_key@, '/') == "browser"@ ==> (r matches Some(svg) && svg@ == ICON_BROWSER@),
        after_last(icon_key@, '/') == "lenses"@ ==> (r matches Some(svg) && svg@ == ICON_LENSES@),
        after_last(icon_key@, '/') == "tasks"@ ==> (r matches Some(svg) && svg@ == ICON_TASKS@),
        after_last(icon_key@, '/') == "bots"@ ==> (r matches Some(svg) && svg@ == ICON_BOTS@),
        after_last(icon_key@, '/') == "managers"@ ==> (r matches Some(svg) && svg@ == ICON_MANAGERS@),
        after_last(icon_key@, '/') == "profile"@ ==> (r matches Some(svg) && svg@ == ICON_PROFILE@),
        after_last(icon_key@, '/') == "settings"@ ==> (r matches Some(svg) && svg@ == ICON_SETTINGS@),
        after_last(icon_key@, '/') == "help"@ ==> (r matches Some(svg) && svg@ == ICON_HELP@),
        after_last(icon_key@, '/') == "ai"@ ==> (r matches Some(svg) && svg@ == ICON_AI@),
        after_last(icon_key@, '/') == "assistant"@ ==> (r matches Some(svg) && svg@ == ICON_AI@),
        after_last(icon_key@, '/') == "desktop"@ ==> (r matches Some(svg) && svg@ == ICON_DESKTOP@),
        after_last(icon_key@, '/') == "container"@ ==> (r matches Some(svg) && svg@ == ICON_CONTAINER@),
{
    proof {
        lemma_known_names_resolve_to_their_icon(icon_key@);
    }
    let name = str_after_last(icon_key, '/');
    if str_equals(name, "launcher") {
        Some(ICON_LAUNCHER)
    } else if str_equals(name, "store") {
        Some(ICON_STORE)
    } else if str_equals(name, "browser") {
        Some(ICON_BROWSER)
    } else if str_equals(name, "lenses") {
        Some(ICON_LENSES)
    } else if str_equals(name, "tasks") {
        Some(ICON_TASKS)
    } else if str_equals(name, "bots") {
        Some(ICON_BOTS)
    } else if str_equals(name, "managers") {
        Some(ICON_MANAGERS)
    } else if str_equals(name, "profile") {
        Some(ICON_PROFILE)
    } else if str_equals(name, "settings") {
        Some(ICON_SETTINGS)
    } else if str_equals(name, "help") {
        Some(ICON_HELP)
    } else if str_equals(name, "ai") {
        Some(ICON_AI)
    } else if str_equals(name, "assistant") {
        Some(ICON_AI)
    } else if str_equals(name, "desktop") {
        Some(ICON_DESKTOP)
    } else if str_equals(name, "container") {
        Some(ICON_CONTAINER)
    } else {
        None
    }
}

/// The attribute `<attr>="<color>"` as characters.
pub open spec fn color_attr(attr: Seq<char>, color: Seq<char>) -> Seq<char> {
    attr + "=\""@ + color + "\""@
}

/// `svg` with every `stroke="currentColor"` and then every
/// `fill="currentColor"` replaced by the concrete `color`.
pub open spec fn recolored(svg: Seq<char>, color: Seq<char>) -> Seq<char> {
    replace_all(
        replace_all(svg, "stroke=\"currentColor\""@, color_attr("stroke"@, color)),
        "fill=\"currentColor\""@,
        color_attr("fill"@, color),
    )
}

/// Build `<attr>="<color>"`.
fn make_color_attr(attr: &str, color: &str) -> (r: String)
    ensures
        r@ == color_attr(attr@, color@),
{
    let mut s = attr.to_owned();
    s.append("=\"");
    s.append(color);
    s.append("\"");
    s
}

/// Replace `currentColor` in stroke and fill attributes of an SVG document by
/// a concrete colour value, so that an SVG renderer sees a real paint.
pub fn recolor_svg(svg: &str, color: &str) -> (r: String)
    ensures
        r@ == recolored(svg@, color@),
{
    let stroke = make_color_attr("stroke", color);
    let fill = make_color_attr("fill", color);
    let pass1 = string_replace(svg, "stroke=\"currentColor\"", stroke.as_str());
    string_replace(pass1.as_str(), "fill=\"currentColor\"", fill.as_str())
}

/// The known icon names are pairwise different.
proof fn lemma_icon_names_distinct()
    ensures
        "store"@ != "launcher"@,
        "browser"@ != "launcher"@,
        "browser"@ != "store"@,
        "lenses"@ != "launcher"@,
        "lenses"@ != "store"@,
        "lenses"@ != "browser"@,
        "tasks"@ != "launcher"@,
        "tasks"@ != "store"@,
        "tasks"@ != "browser"@,
        "tasks"@ != "lenses"@,
        "bots"@ != "launcher"@,
        "bots"@ != "store"@,
        "bots"@ != "browser"@,
        "bots"@ != "lenses"@,
        "bots"@ != "tasks"@,
        "managers"@ != "launcher"@,
        "managers"@ != "store"@,
        "managers"@ != "browser"@,
        "managers"@ != "lenses"@,
        "managers"@ != "tasks"@,
        "managers"@ != "bots"@,
        "profile"@ != "launcher"@,
        "profile"@ != "store"@,
        "profile"@ != "browser"@,
        "profile"@ != "lenses"@,
        "profile"@ != "tasks"@,
        "profile"@ != "bots"@,
        "profile"@ != "managers"@,
        "settings"@ != "launcher"@,
        "settings"@ != "store"@,
        "settings"@ != "browser"@,
        "settings"@ != "lenses"@,
        "settings"@ != "tasks"@,
        "settings"@ != "bots"@,
        "settings"@ != "managers"@,
        "settings"@ != "profile"@,
        "help"@ != "launcher"@,
        "help"@ != "store"@,
        "help"@ != "browser"@,
        "help"@ != "lenses"@,
        "help"@ != "tasks"@,
        "help"@ != "bots"@,
        "help"@ != "managers"@,
        "help"@ != "profile"@,
        "help"@ != "settings"@,
        "ai"@ != "launcher"@,
        "ai"@ != "store"@,
        "ai"@ != "browser"@,
        "ai"@ != "lenses"@,
        "ai"@ != "tasks"@,
        "ai"@ != "bots"@,
        "ai"@ != "managers"@,
        "ai"@ != "profile"@,
        "ai"@ != "settings"@,
        "ai"@ != "help"@,
        "assistant"@ != "launcher"@,
        "assistant"@ != "store"@,
        "assistant"@ != "browser"@,
        "assistant"@ != "lenses"@,
        "assistant"@ != "tasks"@,
        "assistant"@ != "bots"@,
        "assistant"@ != "managers"@,
        "assistant"@ != "profile"@,
        "assistant"@ != "settings"@,
        "assistant"@ != "help"@,
        "assistant"@ != "ai"@,
        "desktop"@ != "launcher"@,
        "desktop"@ != "store"@,
        "desktop"@ != "browser"@,
        "desktop"@ != "lenses"@,
        "desktop"@ != "tasks"@,
        "desktop"@ != "bots"@,
        "desktop"@ != "managers"@,
        "desktop"@ != "profile"@,
        "desktop"@ != "settings"@,
        "desktop"@ != "help"@,
        "desktop"@ != "ai"@,
        "desktop"@ != "assistant"@,
        "container"@ != "launcher"@,
        "container"@ != "store"@,
        "container"@ != "browser"@,
        "container"@ != "lenses"@,
        "container"@ != "tasks"@,
        "container"@ != "bots"@,
        "container"@ != "managers"@,
        "container"@ != "profile"@,
        "container"@ != "settings"@,
        "container"@ != "help"@,
        "container"@ != "ai"@,
        "container"@ != "assistant"@,
        "container"@ != "desktop"@,
{
    reveal_strlit("launcher");
    reveal_strlit("store");
    reveal_strlit("browser");
    reveal_strlit("lenses");
    reveal_strlit("tasks");
    reveal_strlit("bots");
    reveal_strlit("managers");
    reveal_strlit("profile");
    reveal_strlit("settings");
    reveal_strlit("help");
    reveal_strlit("ai");
    reveal_strlit("assistant");
    reveal_strlit("desktop");
    reveal_strlit("container");
    assert("store"@.len() != "launcher"@.len());
    assert("browser"@.len() != "launcher"@.len());
    assert("browser"@.len() != "store"@.len());
    assert("lenses"@.len() != "launcher"@.len());
    assert("lenses"@.len() != "store"@.len());
    assert("lenses"@.len() != "browser"@.len());
    assert("tasks"@.len() != "launcher"@.len());
    assert("tasks"@[0] != "store"@[0]);
    assert("tasks"@.len() != "browser"@.len());
    assert("tasks"@.len() != "lenses"@.len());
    assert("bots"@.len() != "launcher"@.len());
    assert("bots"@.len() != "store"@.len());
    assert("bots"@.len() != "browser"@.len());
    assert("bots"@.len() != "lenses"@.len());
    assert("bots"@.len() != "tasks"@.len());
    assert("managers"@[0] != "launcher"@[0]);
    assert("managers"@.len() != "store"@.len());
    assert("managers"@.len() != "browser"@.len());
    assert("managers"@.len() != "lenses"@.len());
    assert("managers"@.len() != "tasks"@.len());
    assert("managers"@.len() != "bots"@.len());
    assert("profile"@.len() != "launcher"@.len());
    assert("profile"@.len() != "store"@.len());
    assert("profile"@[0] != "browser"@[0]);
    assert("profile"@.len() != "lenses"@.len());
    assert("profile"@.len() != "tasks"@.len());
    assert("profile"@.len() != "bots"@.len());
    assert("profile"@.len() != "managers"@.len());
    assert("settings"@[0] != "launcher"@[0]);
    assert("settings"@.len() != "store"@.len());
    assert("settings"@.len() != "browser"@.len());
    assert("settings"@.len() != "lenses"@.len());
    assert("settings"@.len() != "tasks"@.len());
    assert("settings"@.len() != "bots"@.len());
    assert("settings"@[0] != "managers"@[0]);
    assert("settings"@.len() != "profile"@.len());
    assert("help"@.len() != "launcher"@.len());
    assert("help"@.len() != "store"@.len());
    assert("help"@.len() != "browser"@.len());
    assert("help"@.len() != "lenses"@.len());
    assert("help"@.len() != "tasks"@.len());
    assert("help"@[0] != "bots"@[0]);
    assert("help"@.len() != "managers"@.len());
    assert("help"@.len() != "profile"@.len());
    assert("help"@.len() != "settings"@.len());
    assert("ai"@.len() != "launcher"@.len());
    assert("ai"@.len() != "store"@.len());
    assert("ai"@.len() != "browser"@.len());
    assert("ai"@.len() != "lenses"@.len());
    assert("ai"@.len() != "tasks"@.len());
    assert("ai"@.len() != "bots"@.len());
    assert("ai"@.len() != "managers"@.len());
    assert("ai"@.len() != "profile"@.len());
    assert("ai"@.len() != "settings"@.len());
    assert("ai"@.len() != "help"@.len());
    assert("assistant"@.len() != "launcher"@.len());
    assert("assistant"@.len() != "store"@.len());
    assert("assistant"@.len() != "browser"@.len());
    assert("assistant"@.len() != "lenses"@.len());
    assert("assistant"@.len() != "tasks"@.len());
    assert("assistant"@.len() != "bots"@.len());
    assert("assistant"@.len() != "managers"@.len());
    assert("assistant"@.len() != "profile"@.len());
    assert("assistant"@.len() != "settings"@.len());
    assert("assistant"@.len() != "help"@.len());
    assert("assistant"@.len() != "ai"@.len());
    assert("desktop"@.len() != "launcher"@.len());
    assert("desktop"@.len() != "store"@.len());
    assert("desktop"@[0] != "browser"@[0]);
    assert("desktop"@.len() != "lenses"@.len());
    assert("desktop"@.len() != "tasks"@.len());
    assert("desktop"@.len() != "bots"@.len());
    assert("desktop"@.len() != "managers"@.len());
    assert("desktop"@[0] != "profile"@[0]);
    assert("desktop"@.len() != "settings"@.len());
    assert("desktop"@.len() != "help"@.len());
    assert("desktop"@.len() != "ai"@.len());
    assert("desktop"@.len() != "assistant"@.len());
    assert("container"@.len() != "launcher"@.len());
    assert("container"@.len() != "store"@.len());
    assert("container"@.len() != "browser"@.len());
    assert("container"@.len() != "lenses"@.len());
    assert("container"@.len() != "tasks"@.len());
    assert("container"@.len() != "bots"@.len());
    assert("container"@.len() != "managers"@.len());
    assert("container"@.len() != "profile"@.len());
    assert("container"@.len() != "settings"@.len());
    assert("container"@.len() != "help"@.len());
    assert("container"@.len() != "ai"@.len());
    assert("container"@[0] != "assistant"@[0]);
    assert("container"@.len() != "desktop"@.len());
}

/// Every known bare name, after any namespace prefix, resolves to the icon
/// named after it (`assistant` shares the `ai` icon).
pub proof fn lemma_known_names_resolve_to_their_icon(key: Seq<char>)
    ensures
        after_last(key, '/') == "launcher"@ ==> nav_icon_for(after_last(key, '/')) == Some(ICON_LAUNCHER@),
        after_last(key, '/') == "store"@ ==> nav_icon_for(after_last(key, '/')) == Some(ICON_STORE@),
        after_last(key, '/') == "browser"@ ==> nav_icon_for(after_last(key, '/')) == Some(ICON_BROWSER@),
        after_last(key, '/') == "lenses"@ ==> nav_icon_for(after_last(key, '/')) == Some(ICON_LENSES@),
        after_last(key, '/') == "tasks"@ ==> nav_icon_for(after_last(key, '/')) == Some(ICON_TASKS@),
        after_last(key, '/') == "bots"@ ==> nav_icon_for(after_last(key, '/')) == Some(ICON_BOTS@),
        after_last(key, '/') == "managers"@ ==> nav_icon_for(after_last(key, '/')) == Some(ICON_MANAGERS@),
        after_last(key, '/') == "profile"@ ==> nav_icon_for(after_last(key, '/')) == Some(ICON_PROFILE@),
        after_last(key, '/') == "settings"@ ==> nav_icon_for(after_last(key, '/')) == Some(ICON_SETTINGS@),
        after_last(key, '/') == "help"@ ==> nav_icon_for(after_last(key, '/')) == Some(ICON_HELP@),
        after_last(key, '/') == "ai"@ ==> nav_icon_for(after_last(key, '/')) == Some(ICON_AI@),
        after_last(key, '/') == "assistant"@ ==> nav_icon_for(after_last(key, '/')) == Some(ICON_AI@),
        after_last(key, '/') == "desktop"@ ==> nav_icon_for(after_last(key, '/')) == Some(ICON_DESKTOP@),
        after_last(key, '/') == "container"@ ==> nav_icon_for(after_last(key, '/')) == Some(ICON_CONTAINER@),
{
    lemma_icon_names_distinct();
        reveal_strlit("launcher");
        reveal_strlit("store");
        reveal_strlit("browser");
        reveal_strlit("lenses");
        reveal_strlit("tasks");
        reveal_strlit("bots");
        reveal_strlit("managers");
        reveal_strlit("profile");
        reveal_strlit("settings");
        reveal_strlit("help");
        reveal_strlit("ai");
        reveal_strlit("assistant");
        reveal_strlit("desktop");
        reveal_strlit("container");
}

/// A key whose bare name is empty (it ends in `/`) has no inline icon.
pub proof fn lemma_empty_name_has_no_icon(key: Seq<char>)
    ensures
        after_last(key, '/').len() == 0 ==> nav_icon_for(after_last(key, '/')) is None,
{
    lemma_icon_names_distinct();
        reveal_strlit("launcher");
        reveal_strlit("store");
        reveal_strlit("browser");
        reveal_strlit("lenses");
        reveal_strlit("tasks");
        reveal_strlit("bots");
        reveal_strlit("managers");
        reveal_strlit("profile");
        reveal_strlit("settings");
        reveal_strlit("help");
        reveal_strlit("ai");
        reveal_strlit("assistant");
        reveal_strlit("desktop");
        reveal_strlit("container");
}

} // verus!
