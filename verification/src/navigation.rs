//! Corner and side navigation menus: the MVU state, the messages that drive
//! it, and the decisions that shape how a menu is laid out.

use vstd::prelude::*;
use crate::strings::{string_take_chars, take_chars};

verus! {

/// A screen corner that a corner menu is anchored to.
#[derive(Debug, Clone, Copy, PartialEq, Eq, Structural)]
pub enum Corner {
    TopLeft,
    TopRight,
    BottomLeft,
    BottomRight,
}

/// A screen side that a side menu is anchored to.
#[derive(Debug, Clone, Copy, PartialEq, Eq, Structural)]
pub enum Side {
    Left,
    Right,
    Top,
    Bottom,
}

/// MVU state for a corner menu widget.
#[derive(Debug, Clone, Copy)]
pub struct CornerMenuState {
    /// Whether the item list is currently expanded.
    pub open: bool,
    /// Index of the item the cursor is currently over (for magnification).
    pub hovered_idx: Option<usize>,
}

impl Default for CornerMenuState {
    /// A closed menu with nothing hovered.
    fn default() -> (s: Self)
        ensures
            !s.open,
            s.hovered_idx is None,
    {
        CornerMenuState { open: false, hovered_idx: None }
    }
}

/// MVU state for a side menu widget.
#[derive(Debug, Clone, Copy)]
pub struct SideMenuState {
    /// Whether the item list is currently expanded.
    pub open: bool,
    /// Index of the item the cursor is currently over (for magnification).
    pub hovered_idx: Option<usize>,
}

impl Default for SideMenuState {
    /// A closed menu with nothing hovered.
    fn default() -> (s: Self)
        ensures
            !s.open,
            s.hovered_idx is None,
    {
        SideMenuState { open: false, hovered_idx: None }
    }
}

/// Messages emitted by corner and side menu widgets.
#[derive(Debug, Clone)]
pub enum NavMessage {
    /// Toggle a corner menu open/closed.
    CornerMenuToggle(Corner),
    /// Pointer entered an item at the given index.
    CornerMenuItemEntered(Corner, usize),
    /// Pointer left all items in a corner menu.
    CornerMenuItemLeft(Corner),
    /// A corner menu item was activated (leaf action or sub-menu expand).
    CornerMenuAction(Corner, String),
    /// Toggle a side menu open/closed.
    SideMenuToggle(Side),
    /// Pointer entered a side menu item.
    SideMenuItemEntered(Side, usize),
    /// Pointer left all items in a side menu.
    SideMenuItemLeft(Side),
    /// A side menu item was activated.
    SideMenuAction(Side, String),
}

/// The state of a corner menu after `msg`, for the menu in `corner`.
///
/// Toggle flips `open`, entering an item records its index, leaving clears
/// it; every other message, and every message for another corner, leaves the
/// state as it was.
pub open spec fn corner_menu_next(
    state: CornerMenuState,
    corner: Corner,
    msg: NavMessage,
) -> CornerMenuState {
    match msg {
        NavMessage::CornerMenuToggle(c) => if c == corner {
            CornerMenuState { open: !state.open, hovered_idx: state.hovered_idx }
        } else {
            state
        },
        NavMessage::CornerMenuItemEntered(c, idx) => if c == corner {
            CornerMenuState { open: state.open, hovered_idx: Some(idx) }
        } else {
            state
        },
        NavMessage::CornerMenuItemLeft(c) => if c == corner {
            CornerMenuState { open: state.open, hovered_idx: None }
        } else {
            state
        },
        _ => state,
    }
}

/// The state of a side menu after `msg`, for the menu on `side`.
pub open spec fn side_menu_next(state: SideMenuState, side: Side, msg: NavMessage) -> SideMenuState {
    match msg {
        NavMessage::SideMenuToggle(s) => if s == side {
            SideMenuState { open: !state.open, hovered_idx: state.hovered_idx }
        } else {
            state
        },
        NavMessage::SideMenuItemEntered(s, idx) => if s == side {
            SideMenuState { open: state.open, hovered_idx: Some(idx) }
        } else {
            state
        },
        NavMessage::SideMenuItemLeft(s) => if s == side {
            SideMenuState { open: state.open, hovered_idx: None }
        } else {
            state
        },
        _ => state,
    }
}

/// Whether `msg` changes state for the corner menu in `corner`.
pub open spec fn affects_corner_menu(msg: NavMessage, corner: Corner) -> bool {
    match msg {
        NavMessage::CornerMenuToggle(c) => c == corner,
        NavMessage::CornerMenuItemEntered(c, _) => c == corner,
        NavMessage::CornerMenuItemLeft(c) => c == corner,
        _ => false,
    }
}

/// Whether `msg` changes state for the side menu on `side`.
pub open spec fn affects_side_menu(msg: NavMessage, side: Side) -> bool {
    match msg {
        NavMessage::SideMenuToggle(s) => s == side,
        NavMessage::SideMenuItemEntered(s, _) => s == side,
        NavMessage::SideMenuItemLeft(s) => s == side,
        _ => false,
    }
}

/// Apply a [`NavMessage`] to a [`CornerMenuState`].
///
/// Only processes messages targeted at the given `corner`; all others are
/// ignored so callers can fan out a single message to all menus.
pub fn update_corner_menu(state: &mut CornerMenuState, corner: Corner, msg: &NavMessage)
    ensures
        *final(state) == corner_menu_next(*old(state), corner, *msg),
        final(state).open == (if *msg == NavMessage::CornerMenuToggle(corner) {
            !old(state).open
        } else {
            old(state).open
        }),
{
    match msg {
        NavMessage::CornerMenuToggle(c) => {
            if *c == corner {
                state.open = !state.open;
            }
        },
        NavMessage::CornerMenuItemEntered(c, idx) => {
            if *c == corner {
                state.hovered_idx = Some(*idx);
            }
        },
        NavMessage::CornerMenuItemLeft(c) => {
            if *c == corner {
                state.hovered_idx = None;
            }
        },
        _ => {},
    }
}

/// Apply a [`NavMessage`] to a [`SideMenuState`].
///
/// Only processes messages targeted at the given `side`.
pub fn update_side_menu(state: &mut SideMenuState, side: Side, msg: &NavMessage)
    ensures
        *final(state) == side_menu_next(*old(state), side, *msg),
        final(state).open == (if *msg == NavMessage::SideMenuToggle(side) {
            !old(state).open
        } else {
            old(state).open
        }),
{
    match msg {
        NavMessage::SideMenuToggle(s) => {
            if *s == side {
                state.open = !state.open;
            }
        },
        NavMessage::SideMenuItemEntered(s, idx) => {
            if *s == side {
                state.hovered_idx = Some(*idx);
            }
        },
        NavMessage::SideMenuItemLeft(s) => {
            if *s == side {
                state.hovered_idx = None;
            }
        },
        _ => {},
    }
}

/// Toggling the same corner menu twice gives back the state it started in.
pub proof fn lemma_corner_toggle_twice_restores(state: CornerMenuState, corner: Corner)
    ensures
        corner_menu_next(
            corner_menu_next(state, corner, NavMessage::CornerMenuToggle(corner)),
            corner,
            NavMessage::CornerMenuToggle(corner),
        ) == state,
        corner_menu_next(state, corner, NavMessage::CornerMenuToggle(corner)).open == !state.open,
{
}

/// A message aimed at another corner, or at any side menu, or an action
/// message, leaves a corner menu's state unchanged.
pub proof fn lemma_corner_ignores_foreign_messages(
    state: CornerMenuState,
    corner: Corner,
    msg: NavMessage,
)
    requires
        !affects_corner_menu(msg, corner),
    ensures
        corner_menu_next(state, corner, msg) == state,
{
}

/// Entering an item and then leaving the menu clears the hovered index and
/// keeps the open flag; entering records exactly the entered index.
pub proof fn lemma_corner_hover_enter_then_leave(state: CornerMenuState, corner: Corner, idx: usize)
    ensures
        corner_menu_next(state, corner, NavMessage::CornerMenuItemEntered(corner, idx)).hovered_idx
            == Some(idx),
        corner_menu_next(
            corner_menu_next(state, corner, NavMessage::CornerMenuItemEntered(corner, idx)),
            corner,
            NavMessage::CornerMenuItemLeft(corner),
        ) == (CornerMenuState { open: state.open, hovered_idx: None }),
{
}

/// Toggling the same side menu twice gives back the state it started in.
pub proof fn lemma_side_toggle_twice_restores(state: SideMenuState, side: Side)
    ensures
        side_menu_next(
            side_menu_next(state, side, NavMessage::SideMenuToggle(side)),
            side,
            NavMessage::SideMenuToggle(side),
        ) == state,
        side_menu_next(state, side, NavMessage::SideMenuToggle(side)).open == !state.open,
{
}

/// A message aimed at another side, or at any corner menu, or an action
/// message, leaves a side menu's state unchanged.
pub proof fn lemma_side_ignores_foreign_messages(state: SideMenuState, side: Side, msg: NavMessage)
    requires
        !affects_side_menu(msg, side),
    ensures
        side_menu_next(state, side, msg) == state,
{
}

/// Entering a side-menu item and then leaving clears the hovered index and
/// keeps the open flag.
pub proof fn lemma_side_hover_enter_then_leave(state: SideMenuState, side: Side, idx: usize)
    ensures
        side_menu_next(state, side, NavMessage::SideMenuItemEntered(side, idx)).hovered_idx
            == Some(idx),
        side_menu_next(
            side_menu_next(state, side, NavMessage::SideMenuItemEntered(side, idx)),
            side,
            NavMessage::SideMenuItemLeft(side),
        ) == (SideMenuState { open: state.open, hovered_idx: None }),
{
}

/// Number of items before a menu's item list scrolls.
pub const SCROLL_THRESHOLD: usize = 8;

/// How a menu is put together on screen.
#[derive(Debug, Clone, Copy, PartialEq, Eq, Structural)]
pub struct MenuLayout {
    /// Whether the item list is shown next to the indicator.
    pub show_items: bool,
    /// Whether the indicator comes before the item list.
    pub indicator_first: bool,
    /// Whether the item list is wrapped in a scrollable container.
    pub scrollable: bool,
}

/// Whether a corner is at the top of the screen.
pub open spec fn is_top_corner(corner: Corner) -> bool {
    corner == Corner::TopLeft || corner == Corner::TopRight
}

/// Layout of a corner menu with `item_count` items.
///
/// The indicator is always shown; items only when the menu is open and has
/// any. Top corners put the indicator above the items, bottom corners below.
/// Lists longer than [`SCROLL_THRESHOLD`] scroll.
pub fn corner_menu_layout(corner: Corner, open: bool, item_count: usize) -> (l: MenuLayout)
    ensures
        l.show_items == (open && item_count > 0),
        l.indicator_first == is_top_corner(corner),
        l.scrollable == (l.show_items && item_count > SCROLL_THRESHOLD),
{
    let show_items = open && item_count > 0;
    let indicator_first = match corner {
        Corner::TopLeft | Corner::TopRight => true,
        Corner::BottomLeft | Corner::BottomRight => false,
    };
    MenuLayout { show_items, indicator_first, scrollable: show_items && item_count > SCROLL_THRESHOLD }
}

/// Layout of a side menu with `item_count` items.
///
/// Left and top menus put the indicator first, right and bottom menus put
/// the items first.
pub fn side_menu_layout(side: Side, open: bool, item_count: usize) -> (l: MenuLayout)
    ensures
        l.show_items == (open && item_count > 0),
        l.indicator_first == (side == Side::Left || side == Side::Top),
        l.scrollable == (l.show_items && item_count > SCROLL_THRESHOLD),
{
    let show_items = open && item_count > 0;
    let indicator_first = match side {
        Side::Left | Side::Top => true,
        Side::Right | Side::Bottom => false,
    };
    MenuLayout { show_items, indicator_first, scrollable: show_items && item_count > SCROLL_THRESHOLD }
}

/// The corner diagonally opposite `corner`.
pub open spec fn opposite_corner(corner: Corner) -> Corner {
    match corner {
        Corner::TopLeft => Corner::BottomRight,
        Corner::TopRight => Corner::BottomLeft,
        Corner::BottomLeft => Corner::TopRight,
        Corner::BottomRight => Corner::TopLeft,
    }
}

/// The one rounded corner of a corner menu's quarter-disk indicator: the
/// corner that points into the screen.
pub fn corner_indicator_rounded(corner: Corner) -> (r: Corner)
    ensures
        r == opposite_corner(corner),
{
    match corner {
        Corner::TopLeft => Corner::BottomRight,
        Corner::TopRight => Corner::BottomLeft,
        Corner::BottomLeft => Corner::TopRight,
        Corner::BottomRight => Corner::TopLeft,
    }
}

/// The two rounded corners of a side menu's half-disk indicator: the two on
/// the edge that faces into the screen.
pub fn side_indicator_rounded(side: Side) -> (r: (Corner, Corner))
    ensures
        side == Side::Left ==> r == (Corner::TopRight, Corner::BottomRight),
        side == Side::Right ==> r == (Corner::TopLeft, Corner::BottomLeft),
        side == Side::Top ==> r == (Corner::BottomRight, Corner::BottomLeft),
        side == Side::Bottom ==> r == (Corner::TopLeft, Corner::TopRight),
{
    match side {
        Side::Left => (Corner::TopRight, Corner::BottomRight),
        Side::Right => (Corner::TopLeft, Corner::BottomLeft),
        Side::Top => (Corner::BottomRight, Corner::BottomLeft),
        Side::Bottom => (Corner::TopLeft, Corner::TopRight),
    }
}

/// Whether a side menu's indicator is taller than wide (left and right
/// edges); top and bottom indicators are wider than tall.
pub fn side_indicator_is_vertical(side: Side) -> (r: bool)
    ensures
        r == (side == Side::Left || side == Side::Right),
{
    match side {
        Side::Left | Side::Right => true,
        Side::Top | Side::Bottom => false,
    }
}

/// Which side of a corner-menu item its tooltip appears on.
#[derive(Debug, Clone, Copy, PartialEq, Eq, Structural)]
pub enum TooltipSide {
    Left,
    Right,
}

/// Tooltips of items in a left corner open to the right, and vice versa, so
/// they stay on screen.
pub fn corner_tooltip_side(corner: Corner) -> (r: TooltipSide)
    ensures
        (corner == Corner::TopLeft || corner == Corner::BottomLeft) ==> r == TooltipSide::Right,
        (corner == Corner::TopRight || corner == Corner::BottomRight) ==> r == TooltipSide::Left,
{
    match corner {
        Corner::TopLeft | Corner::BottomLeft => TooltipSide::Right,
        Corner::TopRight | Corner::BottomRight => TooltipSide::Left,
    }
}

/// The short text shown for a corner-menu item without an inline icon: the
/// first two characters of its label.
pub fn item_fallback_label(label: &str) -> (r: String)
    ensures
        r@ == take_chars(label@, 2),
{
    string_take_chars(label, 2)
}

/// Hover messages for a corner menu never open or close it: entering an
/// item records exactly that index, leaving clears it, and the open flag is
/// what it was.
pub proof fn lemma_corner_hover_keeps_open(state: CornerMenuState, corner: Corner, idx: usize)
    ensures
        corner_menu_next(state, corner, NavMessage::CornerMenuItemEntered(corner, idx)).open
            == state.open,
        corner_menu_next(state, corner, NavMessage::CornerMenuItemEntered(corner, idx)).hovered_idx
            == Some(idx),
        corner_menu_next(state, corner, NavMessage::CornerMenuItemLeft(corner)).open == state.open,
        corner_menu_next(state, corner, NavMessage::CornerMenuItemLeft(corner)).hovered_idx
            is None,
        corner_menu_next(state, corner, NavMessage::CornerMenuToggle(corner)).hovered_idx
            == state.hovered_idx,
{
}

/// Only a toggle for its own corner changes whether a corner menu is open.
pub proof fn lemma_corner_open_changes_only_on_toggle(
    state: CornerMenuState,
    corner: Corner,
    msg: NavMessage,
)
    ensures
        corner_menu_next(state, corner, msg).open != state.open <==> msg
            == NavMessage::CornerMenuToggle(corner),
{
}

/// Hover messages for a side menu never open or close it.
pub proof fn lemma_side_hover_keeps_open(state: SideMenuState, side: Side, idx: usize)
    ensures
        side_menu_next(state, side, NavMessage::SideMenuItemEntered(side, idx)).open == state.open,
        side_menu_next(state, side, NavMessage::SideMenuItemEntered(side, idx)).hovered_idx
            == Some(idx),
        side_menu_next(state, side, NavMessage::SideMenuItemLeft(side)).open == state.open,
        side_menu_next(state, side, NavMessage::SideMenuItemLeft(side)).hovered_idx is None,
        side_menu_next(state, side, NavMessage::SideMenuToggle(side)).hovered_idx
            == state.hovered_idx,
{
}

/// Only a toggle for its own side changes whether a side menu is open.
pub proof fn lemma_side_open_changes_only_on_toggle(state: SideMenuState, side: Side, msg: NavMessage)
    ensures
        side_menu_next(state, side, msg).open != state.open <==> msg == NavMessage::SideMenuToggle(
            side,
        ),
{
}

/// The indicator's rounded corner is across both screen axes from the menu's
/// corner, and going across twice comes back.
pub proof fn lemma_indicator_corner_points_inward(corner: Corner)
    ensures
        is_top_corner(opposite_corner(corner)) != is_top_corner(corner),
        (opposite_corner(corner) == Corner::TopLeft || opposite_corner(corner) == Corner::BottomLeft)
            != (corner == Corner::TopLeft || corner == Corner::BottomLeft),
        opposite_corner(opposite_corner(corner)) == corner,
{
}

} // verus!
