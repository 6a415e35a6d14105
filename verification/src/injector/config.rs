//! The configuration of the plugin manager's user interface.
use vstd::prelude::*;

use crate::text::{concat, copy_string};

verus! {

/// The configuration of the plugin manager's user interface.
pub struct Config {
    pub mod_path: String,
    pub mod_address: String,
    pub process_name: String,
    pub require_admin: bool,
}

impl Config {
    /// A copy of this configuration.
    pub fn duplicate(&self) -> (r: Config)
        ensures
            r.mod_path@ == self.mod_path@,
            r.mod_address@ == self.mod_address@,
            r.process_name@ == self.process_name@,
            r.require_admin == self.require_admin,
    {
        Config {
            mod_path: copy_string(&self.mod_path),
            mod_address: copy_string(&self.mod_address),
            process_name: copy_string(&self.process_name),
            require_admin: self.require_admin,
        }
    }
}

/// Why the configuration could not be set.
#[derive(Debug, Clone, Copy, PartialEq, Eq, Structural)]
pub enum ConfigError {
    /// The configuration was set before.
    AlreadyLoaded,
}

/// The configuration, once it is loaded. It is set once and then only read.
pub struct ConfigStore {
    config: Option<Config>,
}

/// The message of an error while loading the configuration at `path` for `reason`.
pub open spec fn config_error_message(path: Seq<char>, reason: Seq<char>) -> Seq<char> {
    "could not load config from '"@ + path + "': "@ + reason
}

/// The message of an error while loading the configuration at `path` for `reason`.
pub fn create_config_error(path: &str, reason: &str) -> (r: String)
    ensures
        r@ == config_error_message(path@, reason@),
{
    let start = concat("could not load config from '", path);
    let middle = concat(start.as_str(), "': ");
    concat(middle.as_str(), reason)
}

impl ConfigStore {
    /// The configuration that is loaded, if any.
    pub closed spec fn loaded(&self) -> Option<Config> {
        self.config
    }

    /// A store with no configuration loaded.
    pub fn new() -> (r: Self)
        ensures
            r.loaded() is None,
    {
        ConfigStore { config: None }
    }

    /// Loads `config`; a configuration can only be loaded once.
    pub fn set(&mut self, config: Config) -> (r: Result<(), ConfigError>)
        ensures
            old(self).loaded() is None ==> r is Ok && final(self).loaded() == Some(config),
            old(self).loaded() is Some ==> r == Err::<(), ConfigError>(ConfigError::AlreadyLoaded)
                && final(self).loaded() == old(self).loaded(),
    {
        if self.config.is_some() {
            return Err(ConfigError::AlreadyLoaded);
        }
        self.config = Some(config);
        Ok(())
    }

    /// Whether a configuration is loaded.
    pub fn is_loaded(&self) -> (r: bool)
        ensures
            r == self.loaded() is Some,
    {
        self.config.is_some()
    }

    /// A copy of the loaded configuration; one must be loaded.
    pub fn get_config(&self) -> (r: Config)
        requires
            self.loaded() is Some,
        ensures
            r.mod_path@ == self.loaded()->0.mod_path@,
            r.mod_address@ == self.loaded()->0.mod_address@,
            r.process_name@ == self.loaded()->0.process_name@,
            r.require_admin == self.loaded()->0.require_admin,
    {
        match &self.config {
            Some(config) => config.duplicate(),
            None => {
                proof {
                    assert(false);
                }
                Config {
                    mod_path: String::new(),
                    mod_address: String::new(),
                    process_name: String::new(),
                    require_admin: false,
                }
            },
        }
    }
}

} // verus!
