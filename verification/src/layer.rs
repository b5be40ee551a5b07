//! Layer-shell window configuration for panels, docks and overlays.
//!
//! Layer windows are positioned by the compositor outside the normal window
//! stack. This module describes them with plain values; the runtime turns a
//! [`LayerShellParams`] into the layer-shell settings of the windowing stack.

use vstd::prelude::*;

verus! {

/// Which screen edges a layer window is attached to.
#[derive(Debug, Clone, Copy, PartialEq, Eq, Structural)]
pub struct Anchor {
    pub top: bool,
    pub bottom: bool,
    pub left: bool,
    pub right: bool,
}

/// Compositor layer, from bottom-most to top-most.
#[derive(Debug, Clone, Copy, PartialEq, Eq, Structural)]
pub enum Layer {
    Background,
    Bottom,
    Top,
    Overlay,
}

/// Whether and how a layer window receives keyboard input.
#[derive(Debug, Clone, Copy, PartialEq, Eq, Structural)]
pub enum KeyboardInteractivity {
    /// The window never takes keyboard focus.
    NoFocus,
    /// The window takes all keyboard input while mapped.
    Exclusive,
    /// The window takes keyboard focus when the user selects it.
    OnDemand,
}

/// Which screen edge a layer window is anchored to.
#[derive(Debug, Clone, Copy, PartialEq, Eq, Structural)]
pub enum ScreenEdge {
    Top,
    Bottom,
    Left,
    Right,
}

/// Which screen corner a layer window sits in.
#[derive(Debug, Clone, Copy, PartialEq, Eq, Structural)]
pub enum ScreenCorner {
    TopLeft,
    TopRight,
    BottomLeft,
    BottomRight,
}

/// Anchor that stretches a window along `edge`: the edge itself and the two
/// edges perpendicular to it.
pub open spec fn edge_anchor(edge: ScreenEdge) -> Anchor {
    match edge {
        ScreenEdge::Top => Anchor { top: true, bottom: false, left: true, right: true },
        ScreenEdge::Bottom => Anchor { top: false, bottom: true, left: true, right: true },
        ScreenEdge::Left => Anchor { top: true, bottom: true, left: true, right: false },
        ScreenEdge::Right => Anchor { top: true, bottom: true, left: false, right: true },
    }
}

/// Anchor that pins a window into `corner`: the two edges that meet there.
pub open spec fn corner_anchor(corner: ScreenCorner) -> Anchor {
    match corner {
        ScreenCorner::TopLeft => Anchor { top: true, bottom: false, left: true, right: false },
        ScreenCorner::TopRight => Anchor { top: true, bottom: false, left: false, right: true },
        ScreenCorner::BottomLeft => Anchor { top: false, bottom: true, left: true, right: false },
        ScreenCorner::BottomRight => Anchor { top: false, bottom: true, left: false, right: true },
    }
}

impl ScreenEdge {
    /// The anchor that stretches a panel along this edge.
    pub fn anchor(self) -> (a: Anchor)
        ensures
            a == edge_anchor(self),
            self == ScreenEdge::Top ==> a.top && !a.bottom && a.left && a.right,
            self == ScreenEdge::Bottom ==> a.bottom && !a.top && a.left && a.right,
            self == ScreenEdge::Left ==> a.left && !a.right && a.top && a.bottom,
            self == ScreenEdge::Right ==> a.right && !a.left && a.top && a.bottom,
    {
        match self {
            ScreenEdge::Top => Anchor { top: true, bottom: false, left: true, right: true },
            ScreenEdge::Bottom => Anchor { top: false, bottom: true, left: true, right: true },
            ScreenEdge::Left => Anchor { top: true, bottom: true, left: true, right: false },
            ScreenEdge::Right => Anchor { top: true, bottom: true, left: false, right: true },
        }
    }
}

impl ScreenCorner {
    /// The anchor that pins a window into this corner.
    pub fn anchor(self) -> (a: Anchor)
        ensures
            a == corner_anchor(self),
    {
        match self {
            ScreenCorner::TopLeft => Anchor { top: true, bottom: false, left: true, right: false },
            ScreenCorner::TopRight => Anchor { top: true, bottom: false, left: false, right: true },
            ScreenCorner::BottomLeft => Anchor { top: false, bottom: true, left: true, right: false },
            ScreenCorner::BottomRight => Anchor {
                top: false,
                bottom: true,
                left: false,
                right: true,
            },
        }
    }
}

/// Plain layer-shell settings, ready to be handed to the windowing stack.
#[derive(Debug, Clone, Copy)]
pub struct LayerShellParams {
    pub anchor: Anchor,
    pub layer: Layer,
    /// Pixels reserved at the edge (positive), none (0) or free-floating (-1).
    pub exclusive_zone: i32,
    /// `(width, height)`; a zero extent spans the screen; `None` lets the
    /// compositor decide.
    pub size: Option<(u32, u32)>,
    /// Margin `(top, right, bottom, left)` in logical pixels.
    pub margin: (i32, i32, i32, i32),
    pub keyboard_interactivity: KeyboardInteractivity,
}

/// Settings of a panel along `edge` that is `thickness` pixels thick: full
/// length along the edge, on the top layer, with the thickness reserved.
pub open spec fn panel_params(edge: ScreenEdge, thickness: u32) -> LayerShellParams {
    LayerShellParams {
        anchor: edge_anchor(edge),
        layer: Layer::Top,
        exclusive_zone: thickness as i32,
        size: Some(
            if edge == ScreenEdge::Top || edge == ScreenEdge::Bottom {
                (0u32, thickness)
            } else {
                (thickness, 0u32)
            },
        ),
        margin: (0i32, 0i32, 0i32, 0i32),
        keyboard_interactivity: KeyboardInteractivity::NoFocus,
    }
}

/// High-level descriptor for a layer-shell window.
#[derive(Debug, Clone, Copy)]
pub struct LayerWindowConfig {
    anchor: Anchor,
    layer: Layer,
    size: Option<(u32, u32)>,
    exclusive_zone: i32,
    keyboard: KeyboardInteractivity,
    margin: (i32, i32, i32, i32),
}

impl View for LayerWindowConfig {
    type V = LayerShellParams;

    closed spec fn view(&self) -> LayerShellParams {
        LayerShellParams {
            anchor: self.anchor,
            layer: self.layer,
            exclusive_zone: self.exclusive_zone,
            size: self.size,
            margin: self.margin,
            keyboard_interactivity: self.keyboard,
        }
    }
}

impl LayerWindowConfig {
    /// A full-width/height panel anchored to `edge` with `thickness` px.
    ///
    /// The compositor reserves `thickness` pixels for it.
    pub fn panel(edge: ScreenEdge, thickness: u32) -> (c: Self)
        ensures
            c@ == panel_params(edge, thickness),
    {
        let size = match edge {
            ScreenEdge::Top | ScreenEdge::Bottom => (0u32, thickness),
            ScreenEdge::Left | ScreenEdge::Right => (thickness, 0u32),
        };
        LayerWindowConfig {
            anchor: edge.anchor(),
            layer: Layer::Top,
            size: Some(size),
            exclusive_zone: thickness as i32,
            keyboard: KeyboardInteractivity::NoFocus,
            margin: (0, 0, 0, 0),
        }
    }

    /// A dock: a panel on the bottom layer, otherwise the same as
    /// [`LayerWindowConfig::panel`].
    pub fn dock(edge: ScreenEdge, thickness: u32) -> (c: Self)
        ensures
            c@ == (LayerShellParams { layer: Layer::Bottom, ..panel_params(edge, thickness) }),
    {
        let mut c = Self::panel(edge, thickness);
        c.layer = Layer::Bottom;
        c
    }

    /// A small overlay in a screen corner, `size = (width, height)`; it
    /// reserves no space.
    pub fn corner_overlay(corner: ScreenCorner, size: (u32, u32)) -> (c: Self)
        ensures
            c@ == (LayerShellParams {
                anchor: corner_anchor(corner),
                layer: Layer::Overlay,
                exclusive_zone: 0i32,
                size: Some(size),
                margin: (0i32, 0i32, 0i32, 0i32),
                keyboard_interactivity: KeyboardInteractivity::NoFocus,
            }),
    {
        LayerWindowConfig {
            anchor: corner.anchor(),
            layer: Layer::Overlay,
            size: Some(size),
            exclusive_zone: 0,
            keyboard: KeyboardInteractivity::NoFocus,
            margin: (0, 0, 0, 0),
        }
    }

    /// A full-screen overlay (app launcher, lock screen): anchored to all four
    /// edges, free-floating, and taking all keyboard input.
    pub fn fullscreen_overlay() -> (c: Self)
        ensures
            c@ == (LayerShellParams {
                anchor: Anchor { top: true, bottom: true, left: true, right: true },
                layer: Layer::Overlay,
                exclusive_zone: -1i32,
                size: None,
                margin: (0i32, 0i32, 0i32, 0i32),
                keyboard_interactivity: KeyboardInteractivity::Exclusive,
            }),
    {
        LayerWindowConfig {
            anchor: Anchor { top: true, bottom: true, left: true, right: true },
            layer: Layer::Overlay,
            size: None,
            exclusive_zone: -1,
            keyboard: KeyboardInteractivity::Exclusive,
            margin: (0, 0, 0, 0),
        }
    }

    /// Set keyboard interactivity; nothing else changes.
    pub fn keyboard(self, kb: KeyboardInteractivity) -> (c: Self)
        ensures
            c@ == (LayerShellParams { keyboard_interactivity: kb, ..self@ }),
    {
        let mut c = self;
        c.keyboard = kb;
        c
    }

    /// Set margin `(top, right, bottom, left)`; nothing else changes.
    pub fn margin(self, top: i32, right: i32, bottom: i32, left: i32) -> (c: Self)
        ensures
            c@ == (LayerShellParams { margin: (top, right, bottom, left), ..self@ }),
    {
        let mut c = self;
        c.margin = (top, right, bottom, left);
        c
    }

    /// Override the compositor layer; nothing else changes.
    pub fn layer(self, layer: Layer) -> (c: Self)
        ensures
            c@ == (LayerShellParams { layer: layer, ..self@ }),
    {
        let mut c = self;
        c.layer = layer;
        c
    }

    /// The settings this descriptor stands for.
    pub fn into_shell_settings(self) -> (p: LayerShellParams)
        ensures
            p == self@,
    {
        LayerShellParams {
            anchor: self.anchor,
            layer: self.layer,
            exclusive_zone: self.exclusive_zone,
            size: self.size,
            margin: self.margin,
            keyboard_interactivity: self.keyboard,
        }
    }
}

/// A panel's anchor holds its own edge and both edges perpendicular to it,
/// never the opposite edge.
pub proof fn lemma_edge_anchor_stretches_along_edge(edge: ScreenEdge)
    ensures
        edge == ScreenEdge::Top ==> edge_anchor(edge).top && !edge_anchor(edge).bottom
            && edge_anchor(edge).left && edge_anchor(edge).right,
        edge == ScreenEdge::Bottom ==> edge_anchor(edge).bottom && !edge_anchor(edge).top
            && edge_anchor(edge).left && edge_anchor(edge).right,
        edge == ScreenEdge::Left ==> edge_anchor(edge).left && !edge_anchor(edge).right
            && edge_anchor(edge).top && edge_anchor(edge).bottom,
        edge == ScreenEdge::Right ==> edge_anchor(edge).right && !edge_anchor(edge).left
            && edge_anchor(edge).top && edge_anchor(edge).bottom,
{
}

/// A corner anchor holds exactly the two edges that meet in that corner.
pub proof fn lemma_corner_anchor_pins_two_edges(corner: ScreenCorner)
    ensures
        corner_anchor(corner).top == (corner == ScreenCorner::TopLeft || corner
            == ScreenCorner::TopRight),
        corner_anchor(corner).bottom == (corner == ScreenCorner::BottomLeft || corner
            == ScreenCorner::BottomRight),
        corner_anchor(corner).left == (corner == ScreenCorner::TopLeft || corner
            == ScreenCorner::BottomLeft),
        corner_anchor(corner).right == (corner == ScreenCorner::TopRight || corner
            == ScreenCorner::BottomRight),
{
}

/// A panel is anchored along its edge, spans the screen along it (zero
/// extent), is `thickness` thick across it, and reserves its thickness when
/// that fits an `i32`.
pub proof fn lemma_panel_shape(edge: ScreenEdge, thickness: u32)
    ensures
        panel_params(edge, thickness).anchor == edge_anchor(edge),
        (edge == ScreenEdge::Top || edge == ScreenEdge::Bottom) ==> panel_params(
            edge,
            thickness,
        ).size == Some((0u32, thickness)),
        (edge == ScreenEdge::Left || edge == ScreenEdge::Right) ==> panel_params(
            edge,
            thickness,
        ).size == Some((thickness, 0u32)),
        thickness <= i32::MAX ==> panel_params(edge, thickness).exclusive_zone == thickness,
        panel_params(edge, thickness).layer == Layer::Top,
{
}

} // verus!
