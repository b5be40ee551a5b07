//! Translation key names for the user-visible strings of this engine.

use vstd::prelude::*;

verus! {

/// Display name of this engine (localised).
pub const ENGINE_DISPLAY_NAME: &'static str = "gui-iced-engine-display-name";

/// Localised name shown to users when listing available render engines.
pub const CAPABILITY_NAME: &'static str = "gui-iced-capability-name";

/// Internal context lock was poisoned.
pub const ERROR_CONTEXT_LOCK: &'static str = "gui-iced-error-context-lock";

/// The event loop failed to start.
pub const ERROR_RUN_FAILED: &'static str = "gui-iced-error-run-failed";

/// A window could not be created (variable: `title`).
pub const ERROR_WINDOW_CREATE: &'static str = "gui-iced-error-window-create";

} // verus!
