//! The iced render engine: creates window descriptors, holds the active
//! theme and the shared application context.

use vstd::prelude::*;
use crate::capability::ENGINE_VERSION;
use crate::events::FsEvent;
use crate::theme::{IcedTheme, ThemeKind};
use crate::window::{IcedWindow, WindowState};

verus! {

/// Shared application context: locale, theme name and feature flags.
pub struct AppContext {
    pub locale: String,
    pub theme_name: String,
    /// Names of the enabled feature flags.
    pub features: Vec<String>,
}

/// An application context as plain values.
pub struct ContextView {
    pub locale: Seq<char>,
    pub theme_name: Seq<char>,
    pub features: Seq<Seq<char>>,
}

impl View for AppContext {
    type V = ContextView;

    open spec fn view(&self) -> ContextView {
        ContextView {
            locale: self.locale@,
            theme_name: self.theme_name@,
            features: self.features@.map_values(|f: String| f@),
        }
    }
}

impl AppContext {
    /// A context with the given locale and theme name and no feature flags.
    pub fn new(locale: &str, theme_name: &str) -> (c: Self)
        ensures
            c@.locale == locale@,
            c@.theme_name == theme_name@,
            c@.features.len() == 0,
    {
        AppContext { locale: locale.to_owned(), theme_name: theme_name.to_owned(), features: Vec::new() }
    }

    /// A copy of this context.
    pub fn duplicate(&self) -> (c: Self)
        ensures
            c@ == self@,
    {
        let mut features: Vec<String> = Vec::new();
        let mut i: usize = 0;
        while i < self.features.len()
            invariant
                i <= self.features@.len(),
                features@.map_values(|f: String| f@) == self.features@.take(i as int).map_values(
                    |f: String| f@,
                ),
            decreases self.features@.len() - i,
        {
            let ghost before = features@;
            let flag = self.features[i].clone();
            assert(flag@ == self.features@[i as int]@);
            features.push(flag);
            assert(features@ == before.push(flag));
            assert(self.features@.take(i + 1) =~= self.features@.take(i as int).push(
                self.features@[i as int],
            ));
            assert(before.push(flag).map_values(|f: String| f@) =~= before.map_values(
                |f: String| f@,
            ).push(flag@));
            assert(self.features@.take(i as int).push(self.features@[i as int]).map_values(
                |f: String| f@,
            ) =~= self.features@.take(i as int).map_values(|f: String| f@).push(
                self.features@[i as int]@,
            ));
            assert(features@.map_values(|f: String| f@) =~= self.features@.take(i + 1).map_values(
                |f: String| f@,
            ));
            i = i + 1;
        }
        assert(self.features@.take(self.features@.len() as int) =~= self.features@);
        let c = AppContext {
            locale: self.locale.clone(),
            theme_name: self.theme_name.clone(),
            features,
        };
        assert(c@.features =~= self@.features);
        c
    }
}

/// Settings for a new window.
pub struct WindowConfig {
    /// Title shown in the window's title bar.
    pub title: String,
}

impl Default for WindowConfig {
    /// A window with an empty title.
    fn default() -> (c: Self)
        ensures
            c.title@ == Seq::<char>::empty(),
    {
        WindowConfig { title: String::new() }
    }
}

/// Abstract state of the engine.
pub struct EngineState {
    pub theme: ThemeKind,
    pub context: ContextView,
}

impl EngineState {
    /// The state after the application context is replaced by `ctx`.
    pub open spec fn with_context(self, ctx: ContextView) -> EngineState {
        EngineState { theme: self.theme, context: ctx }
    }

    /// The state after `theme` is applied.
    pub open spec fn with_theme(self, theme: ThemeKind) -> EngineState {
        EngineState { theme, context: self.context }
    }
}

/// iced render engine.
///
/// Creates [`IcedWindow`] descriptors, knows the theme in use and stores the
/// current [`AppContext`].
pub struct IcedEngine {
    active_theme: IcedTheme,
    context: AppContext,
}

impl View for IcedEngine {
    type V = EngineState;

    closed spec fn view(&self) -> EngineState {
        EngineState { theme: self.active_theme.spec_kind(), context: self.context@ }
    }
}

impl IcedEngine {
    /// A new engine with the FreeSynergy Default theme, English locale and the
    /// FreeSynergy Default theme name in its context.
    pub fn new() -> (e: Self)
        ensures
            e@.theme == ThemeKind::Dark,
            e@.context.locale == "en"@,
            e@.context.theme_name == "FreeSynergy Default"@,
            e@.context.features.len() == 0,
    {
        IcedEngine {
            active_theme: IcedTheme::fs_default(),
            context: AppContext::new("en", "FreeSynergy Default"),
        }
    }

    /// The theme currently applied to this engine.
    pub fn current_theme(&self) -> (t: &IcedTheme)
        ensures
            t.spec_kind() == self@.theme,
    {
        &self.active_theme
    }

    /// A copy of the current application context.
    pub fn app_context(&self) -> (c: AppContext)
        ensures
            c@ == self@.context,
    {
        self.context.duplicate()
    }

    /// Replace the application context; the theme is unchanged.
    pub fn set_context(&mut self, ctx: AppContext)
        ensures
            final(self)@ == old(self)@.with_context(ctx@),
    {
        self.context = ctx;
    }

    /// Engine name.
    pub fn name(&self) -> (r: &'static str)
        ensures
            r@ == "iced"@,
    {
        "iced"
    }

    /// Engine version.
    pub fn version(&self) -> (r: &'static str)
        ensures
            r@ == ENGINE_VERSION@,
    {
        ENGINE_VERSION
    }

    /// A new window descriptor titled as `config` says: visible, not
    /// minimized, no events.
    pub fn create_window(&self, config: WindowConfig) -> (w: IcedWindow)
        ensures
            w@ == WindowState::initial(config.title@),
    {
        IcedWindow::with_title(config.title)
    }

    /// Apply `theme`: it becomes the theme that [`IcedEngine::current_theme`]
    /// reports, which the runtime reads when it next asks for a theme. The
    /// context is unchanged.
    pub fn apply_theme(&mut self, theme: &IcedTheme)
        ensures
            final(self)@ == old(self)@.with_theme(theme.spec_kind()),
    {
        self.active_theme = *theme;
    }

    /// Events flow through the runtime's own event loop; nothing to do here.
    pub fn dispatch_event(&self, _event: FsEvent) {
    }

    /// Lifecycle hook: the event loop itself is started by the runtime.
    pub fn run(&self) {
    }

    /// Lifecycle hook: the runtime exits when its last window closes.
    pub fn shutdown(&self) {
    }
}

impl Default for IcedEngine {
    /// Same as [`IcedEngine::new`].
    fn default() -> (e: Self)
        ensures
            e@.theme == ThemeKind::Dark,
            e@.context.locale == "en"@,
            e@.context.theme_name == "FreeSynergy Default"@,
            e@.context.features.len() == 0,
    {
        Self::new()
    }
}

/// The theme reported after applying a theme is the one applied, and
/// applying a theme never changes the context.
pub proof fn lemma_theme_read_after_apply(e: EngineState, theme: ThemeKind)
    ensures
        e.with_theme(theme).theme == theme,
        e.with_theme(theme).context == e.context,
{
}

/// Reading the context after setting it gives back exactly what was set,
/// and setting the context never changes the theme.
pub proof fn lemma_context_read_after_write(e: EngineState, ctx: ContextView)
    ensures
        e.with_context(ctx).context == ctx,
        e.with_context(ctx).theme == e.theme,
{
}

} // verus!
