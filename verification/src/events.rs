//! Events exchanged between windows and the render engine.

use vstd::prelude::*;

verus! {

/// Window lifecycle events.
#[derive(Debug, Clone, Copy, PartialEq, Eq, Structural)]
pub enum WindowEvent {
    /// The window gained input focus.
    Focused,
    /// The window lost input focus.
    Unfocused,
    /// The window was minimized.
    Minimized,
    /// The window was restored from the minimized state.
    Restored,
    /// Closing the window was requested.
    CloseRequested,
}

/// Events delivered to a window.
#[derive(Debug, Clone, Copy, PartialEq, Eq, Structural)]
pub enum FsEvent {
    /// A window lifecycle event.
    Window(WindowEvent),
}

} // verus!
