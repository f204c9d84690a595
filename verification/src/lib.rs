//! Verified bootstrap logic for a small tray-based desktop application.
//!
//! The library models everything the application shell decides on its own:
//! which plugins each entry point attaches, the tray menu it installs, and
//! how a menu event is turned into an action. The GUI framework that renders
//! the tray and drives the event loop lives outside the library; it is handed
//! these plans and hands back menu events.

pub mod bootstrap;
pub mod lifecycle;
pub mod menu;
pub mod plugins;
pub mod text;
