//! Widget descriptor held between renders.

use vstd::prelude::*;

verus! {

/// iced-backed widget handle: an identifier and an enabled flag.
#[derive(Debug, Clone)]
pub struct IcedWidget {
    id: String,
    enabled: bool,
}

impl IcedWidget {
    /// The widget's identifier.
    pub closed spec fn spec_id(&self) -> Seq<char> {
        self.id@
    }

    /// Whether the widget accepts input.
    pub closed spec fn spec_enabled(&self) -> bool {
        self.enabled
    }

    /// Create a new widget descriptor; a new widget is enabled.
    pub fn new(id: &str) -> (w: Self)
        ensures
            w.spec_id() == id@,
            w.spec_enabled(),
    {
        IcedWidget { id: id.to_owned(), enabled: true }
    }

    /// The identifier given at construction.
    pub fn widget_id(&self) -> (r: &str)
        ensures
            r@ == self.spec_id(),
    {
        self.id.as_str()
    }

    /// Whether the widget is enabled.
    pub fn is_enabled(&self) -> (r: bool)
        ensures
            r == self.spec_enabled(),
    {
        self.enabled
    }

    /// Enable or disable the widget; the identifier is kept.
    pub fn set_enabled(&mut self, enabled: bool)
        ensures
            final(self).spec_enabled() == enabled,
            final(self).spec_id() == old(self).spec_id(),
    {
        self.enabled = enabled;
    }
}

} // verus!
