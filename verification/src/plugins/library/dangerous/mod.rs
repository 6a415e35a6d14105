//! The dangerous library: hooking game functions, calling native functions, and reading
//! and writing the game's memory.
pub mod hook;
pub mod memory;
pub mod native;
pub mod types;
