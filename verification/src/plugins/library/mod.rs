//! The libraries a plugin can request, and the logic behind them.
pub mod dangerous;
pub mod game;
