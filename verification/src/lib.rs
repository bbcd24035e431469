//! Verified core of a panel applet that shows a logo menu, and of the
//! settings window that edits that menu.
pub mod applet;
pub mod menu;
pub mod settings;
pub mod text;
