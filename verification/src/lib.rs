//! Model of a desktop system-tray icon: an icon, a title, and a dropdown menu
//! of labels, clickable items and separators, plus click/double-click detection
//! on the icon itself.
//!
//! The crate holds the tray state manager: the menu data model with its stable
//! identifiers, the click-timing state machine, and the callback registry. The
//! desktop-shell service that owns a [`tray::TrayState`], applies serialized
//! updates to it, and delivers activation events is an external host; callbacks
//! are opaque values of a type parameter `C` that only the host can invoke.

pub mod click;
pub mod error;
pub mod menu;
pub mod registry;
pub mod tray;
