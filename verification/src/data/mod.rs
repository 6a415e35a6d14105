//! Data shared by the mod and the plugin manager's user interface.
pub mod game;
pub mod plugin;
