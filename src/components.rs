//! The pieces of the main window.
pub mod center;
pub mod sidebar;
pub mod widget_e;
