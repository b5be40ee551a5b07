//! Capability descriptor registered by the iced render engine.
//!
//! Capability IDs have the form `<domain>.<type>.<impl>`.

use vstd::prelude::*;

verus! {

/// Capability identifier registered by this engine.
pub const CAPABILITY_ID: &'static str = "render.engine.iced";

/// Human-readable name of the engine.
pub const ENGINE_DISPLAY_NAME: &'static str = "FreeSynergy iced Render Engine";

/// Version of this engine crate; the same as the package version in
/// `Cargo.toml`.
pub const ENGINE_VERSION: &'static str = "0.1.0";

/// Metadata about this engine's registered capability.
#[derive(Debug, Clone)]
pub struct IcedCapability {
    /// Stable capability string.
    pub id: &'static str,
    /// Human-readable display name.
    pub display_name: &'static str,
    /// Engine crate version.
    pub version: &'static str,
}

impl IcedCapability {
    /// Whether the id, display name and version are this engine's
    /// [`CAPABILITY_ID`], [`ENGINE_DISPLAY_NAME`] and [`ENGINE_VERSION`].
    pub open spec fn is_engine_descriptor(&self) -> bool {
        &&& self.id@ == CAPABILITY_ID@
        &&& self.display_name@ == ENGINE_DISPLAY_NAME@
        &&& self.version@ == ENGINE_VERSION@
    }

    /// Returns the capability descriptor for this engine.
    pub fn descriptor() -> (c: Self)
        ensures
            c.is_engine_descriptor(),
            c.version@.len() > 0,
    {
        proof {
            reveal_strlit("0.1.0");
        }
        IcedCapability { id: CAPABILITY_ID, display_name: ENGINE_DISPLAY_NAME, version: ENGINE_VERSION }
    }
}

impl Default for IcedCapability {
    fn default() -> (c: Self)
        ensures
            c.is_engine_descriptor(),
    {
        Self::descriptor()
    }
}

} // verus!
