//! The plugin manager's user interface: its configuration and the state of its views.
pub mod config;
pub mod gui;
pub mod process;
pub mod view;
