//! The views of the plugin manager's user interface.
pub mod loading;
pub mod logs;
pub mod main;
pub mod plugins;
