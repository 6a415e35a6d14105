use vstd::prelude::*;

verus! {

/// Errors while reading a plugin's information file `info.toml`.
#[derive(Debug)]
pub enum PluginInfoError {
    /// The plugin directory doesn't contain a `info.toml` file
    FileNotFound,
    /// Some unexpected error occurred
    Other(String),
    /// The format of the `into.toml` file in incorrect
    Format(String),
}

} // verus!
