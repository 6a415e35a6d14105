//! The mod's configuration, read from `config.json` in the game's directory.
use vstd::prelude::*;
use vstd::string::*;

verus! {

/// Where the mod's web API listens.
#[derive(Debug, Default)]
pub struct ServerConfig {
    pub port: u32,
    pub host: String,
}

/// The sprint key of each player.
#[derive(Debug, Default, Clone, Copy, PartialEq, Eq, Structural)]
pub struct SprintConfig {
    pub player_one: u32,
    pub player_two: u32,
}

/// The mod's configuration.
#[derive(Debug, Default)]
pub struct Config {
    pub server: ServerConfig,
    pub log_level: String,
    /// Fixed path to the plugins directory.
    /// By default this option is None.
    ///
    /// If this is None, it will load plugins from the directory "plugins" within
    /// the games root directory. For example: `C:\\Program Files (x86)\\Electronic Arts\\Future Cop\\plugins`
    pub plugins_directory: Option<String>,
    /// Optional sprint config that specifies for both players their sprint key.
    ///
    /// As the sprint mod should be shifted to an actual plugin this will be removed in the future.
    pub sprint_config: Option<SprintConfig>,
}

/// The server configuration used when the configuration file names none: every
/// interface, port 8000.
pub fn default_server() -> (r: ServerConfig)
    ensures
        r.port == 8000,
        r.host@ == "0.0.0.0"@,
{
    ServerConfig { port: 8000, host: String::from_str("0.0.0.0") }
}

/// The log level used when the configuration file names none.
pub fn default_log_level() -> (r: String)
    ensures
        r@ == "INFO"@,
{
    String::from_str("INFO")
}

} // verus!
