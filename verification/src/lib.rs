//! Verified core of the FreeSynergy iced render engine: capability metadata,
//! widget and window descriptors, theme naming, layer-shell configuration,
//! corner/side navigation menus, layout helpers and portal result handling.

pub mod capability;
pub mod engine;
pub mod events;
pub mod keys;
pub mod layer;
pub mod layout;
pub mod mvu;
pub mod nav_icons;
pub mod navigation;
pub mod portal;
pub mod strings;
pub mod theme;
pub mod widget;
pub mod window;

pub use capability::{IcedCapability, CAPABILITY_ID};
pub use engine::{AppContext, IcedEngine, WindowConfig};
pub use events::{FsEvent, WindowEvent};
pub use layer::{LayerWindowConfig, ScreenCorner, ScreenEdge};
pub use layout::{load_layout_or_default, LayoutMessage};
pub use navigation::{update_corner_menu, update_side_menu, CornerMenuState, NavMessage, SideMenuState};
pub use portal::{NotificationLevel, OpenFileResult};
pub use theme::IcedTheme;
pub use widget::IcedWidget;
pub use window::IcedWindow;
