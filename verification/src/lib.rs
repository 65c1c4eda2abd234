//! State management for the controls of a tray-icon context menu.
//!
//! A [`MenuManager`] stores menu controls by identifier and lists the
//! checkable ones by group. When the menu reports a click, the manager is
//! told what the clicked control shows ([`MenuManager::set_checked`]) and
//! settles the check marks ([`MenuManager::update`]): in a radio group the
//! selected member is checked and every other member is unchecked, with an
//! optional fallback member for the click that would leave the group with
//! nothing checked. Checkbox groups are kept together for listing only.
//!
//! The manager is a map from identifier texts to controls ([`model`]); every
//! operation says what it does to that map, and [`laws`] holds what follows
//! for sequences of operations.

pub mod control;
pub mod item;
pub mod laws;
pub mod manager;
pub mod menu_id;
pub mod model;
mod registry;

pub use control::{CheckKindView, CheckMenuKind, ControlView, MenuControl};
pub use item::{CheckItemView, CheckMenuItem, IconMenuItem, ItemView, MenuItem};
pub use manager::MenuManager;
pub use menu_id::MenuId;
