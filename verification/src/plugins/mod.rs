//! Plugins, their life cycle, and the manager that owns them.
pub mod environment;
pub mod library;
pub mod plugin;
pub mod plugin_info;
pub mod plugin_manager;
pub mod sanitize;
