//! The API the mod offers to plugins.
pub mod ui;
