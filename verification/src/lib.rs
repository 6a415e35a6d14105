use vstd::prelude::*;

pub mod api;
pub mod config;
pub mod data;
pub mod futurecop;
pub mod injector;
pub mod lua;
pub mod named_map;
pub mod plugins;
pub mod server;
pub mod text;
pub mod util;

verus! {

} // verus!
