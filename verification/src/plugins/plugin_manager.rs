//! The plugin manager: the set of installed plugins and how they are started, enabled,
//! disabled, reloaded, installed and uninstalled.
//!
//! Whether a plugin is loaded and enabled the next time the mod starts is persisted;
//! [`PersistentPluginStates`] holds that record, and whoever drives the manager writes it
//! to the plugin directory after each change.
use std::sync::Arc;
use vstd::prelude::*;

use crate::data::plugin::{PluginError, PluginErrorView, PluginInfo};
use crate::lua::{collect_garbage, share_runtime, ScriptRun};
use crate::named_map::{names_unique, NamedEntry, NamedMap};
use crate::plugins::plugin::{
    disabled, enabled, hook_ran, hook_runs, lemma_enable_then_disable, loaded, pending_hook, reloaded, unloaded, updated, MainFile, Plugin,
    PluginState, HookEvent,
};
use crate::plugins::plugin_info::PluginInfoError;
use crate::plugins::sanitize::{all_folder_chars, folder_name, lower_case, sanitize_name};

verus! {

/// Errors of the plugin manager.
#[derive(Debug)]
pub enum PluginManagerError {
    Io(std::io::Error),
    PluginNotFound,
    Plugin(PluginError),
    Other(String),
    AlreadyLoaded,
}

/// Errors while installing a plugin.
#[derive(Debug)]
pub enum PluginInstallError {
    InfoFile(PluginInfoError),
    InvalidName,
    Copy(String),
    AlreadyInstalled,
    Plugin(PluginError),
}

/// An error of the operating system or of a file.
#[verifier::external_type_specification]
#[verifier::external_body]
pub struct ExIoError(std::io::Error);

/// Persistence state of a plugin which indicates how a plugin should be loaded on the next start.
///
/// This doesn't reflect the actual plugin's state.
/// For example, if a plugin was loaded and enabled but threw an error during the loading process
/// and thus has now the state [`crate::plugins::plugin::PluginState::Error`], it will have the
/// state [`PersistentPluginState::Disabled`].
/// Rather, this states whether the plugin manager will load and/or enable the plugin when it
/// starts the next time. This state is only updated due to the user's input.
#[derive(Debug, Clone, Copy, PartialEq, Eq, Structural)]
pub enum PersistentPluginState {
    Unloaded,
    Disabled,
    Enabled,
}

/// The persisted states of all plugins, and the file they are persisted in.
pub struct PersistentPluginStates {
    pub states: NamedMap<PersistentPluginState>,
    pub path: String,
}

impl PersistentPluginStates {
    /// The persisted states read from the file at `path`.
    pub fn new(path: String, states: NamedMap<PersistentPluginState>) -> (r: Self)
        ensures
            r.states@ == states@,
            r.path@ == path@,
    {
        PersistentPluginStates { states, path }
    }

    /// The persisted state of the plugin `name`.
    pub fn get_state(&self, name: &str) -> (r: Option<PersistentPluginState>)
        ensures
            r == self.states@.get(name@),
    {
        match self.states.get(name) {
            Some(state) => Some(*state),
            None => None,
        }
    }

    /// Records `state` as the persisted state of the plugin `name`.
    pub fn insert(&mut self, name: &str, state: PersistentPluginState)
        ensures
            final(self).states@ == old(self).states@.insert(name@, state),
            final(self).path == old(self).path,
    {
        self.states.insert(String::from_str(name), state);
    }

    /// Forgets the persisted state of the plugin `name`.
    pub fn remove(&mut self, name: &str)
        ensures
            final(self).states@ == old(self).states@.remove(name@),
            final(self).path == old(self).path,
    {
        let _ = self.states.remove(name);
    }
}

/// What [`PluginManager::on_update`] reports for an enabled plugin: its name and what
/// calling its `onUpdate` returned.
pub struct UpdateReport {
    pub plugin: String,
    pub result: Result<(), PluginError>,
}

/// Manages plugins.
///
/// Loads and manages all plugins.
pub struct PluginManager<E> {
    /// All plugins
    pub plugins: NamedMap<Plugin<E>>,
    /// Directory where the plugins are stored
    pub plugins_directory: String,
    /// Persistence state
    persistent_states: PersistentPluginStates,
    /// Reference to lua
    lua: Arc<mlua::Lua>,
    /// The plugins uninstalled so far, by name, as their last operations left them.
    uninstalled: Ghost<Map<Seq<char>, Plugin<E>>>,
}

/// The plugins of a manager after an operation on the plugin `name` that turned it into
/// `after`: only that plugin changed.
pub open spec fn only_changed<E>(
    before: Map<Seq<char>, Plugin<E>>,
    after_map: Map<Seq<char>, Plugin<E>>,
    name: Seq<char>,
) -> bool {
    &&& after_map.contains_key(name)
    &&& after_map == before.insert(name, after_map[name])
}

impl<E> PluginManager<E> {
    /// The installed plugins, by name.
    pub closed spec fn spec_plugins(&self) -> Map<Seq<char>, Plugin<E>> {
        self.plugins@
    }

    /// The persisted plugin states, by name.
    pub closed spec fn spec_states(&self) -> Map<Seq<char>, PersistentPluginState> {
        self.persistent_states.states@
    }

    /// The file the plugin states are persisted in.
    pub closed spec fn spec_states_path(&self) -> Seq<char> {
        self.persistent_states.path@
    }

    /// The directory the plugins are installed in.
    pub closed spec fn spec_directory(&self) -> String {
        self.plugins_directory
    }

    /// The Lua state all plugins run in.
    pub closed spec fn runtime(&self) -> Arc<mlua::Lua> {
        self.lua
    }

    /// The plugins uninstalled from this manager, by name, as they were when they were
    /// removed: what their scripts ran on the way out stays visible here.
    pub closed spec fn spec_uninstalled(&self) -> Map<Seq<char>, Plugin<E>> {
        self.uninstalled@
    }

    /// Whether every plugin runs in the manager's Lua state.
    pub closed spec fn shares_runtime(&self) -> bool {
        forall|k: Seq<char>| #[trigger] self.plugins@.contains_key(k) ==> self.plugins@[k].runtime() == self.lua
    }

    /// A manager without plugins for the plugin directory `plugins_directory`, whose
    /// plugins run in `lua` and whose persisted states are `persistent_states`.
    ///
    /// This is where starting the manager begins. Each plugin folder found in the plugin
    /// directory is then added with [`PluginManager::add_discovered_plugin`] and started
    /// with [`PluginManager::start_plugin`], which loads and enables it as its persisted
    /// state says; reading the directory is left to the caller.
    pub fn new(lua: Arc<mlua::Lua>, plugins_directory: String, persistent_states: PersistentPluginStates) -> (m: Self)
        ensures
            m.spec_plugins() == Map::<Seq<char>, Plugin<E>>::empty(),
            m.spec_states() == persistent_states.states@,
            m.spec_states_path() == persistent_states.path@,
            m.spec_directory() == plugins_directory,
            m.runtime() == lua,
            m.shares_runtime(),
    {
        PluginManager {
            plugins: NamedMap::new(),
            plugins_directory,
            persistent_states,
            lua,
            uninstalled: Ghost(Map::empty()),
        }
    }

    /// The persisted states, to be written to their file.
    pub fn persistent_states(&self) -> (r: &PersistentPluginStates)
        ensures
            r.states@ == self.spec_states(),
            r.path@ == self.spec_states_path(),
    {
        &self.persistent_states
    }

    /// The persisted state of the plugin `name`.
    pub fn persistent_state(&self, name: &str) -> (r: Option<PersistentPluginState>)
        ensures
            r == self.spec_states().get(name@),
    {
        self.persistent_states.get_state(name)
    }

    /// Adds a plugin discovered in the plugin directory, unloaded and disabled.
    ///
    /// A plugin whose name is already taken is skipped; the result tells whether it was added.
    pub fn add_discovered_plugin(&mut self, info: PluginInfo) -> (added: bool)
        requires
            old(self).shares_runtime(),
        ensures
            added == !old(self).spec_plugins().contains_key(info.name@),
            added ==> final(self).spec_plugins().contains_key(info.name@)
                && final(self).spec_plugins() == old(self).spec_plugins().insert(
                info.name@,
                final(self).spec_plugins()[info.name@],
            ) && final(self).spec_plugins()[info.name@].spec_state() is Unloaded
                && !final(self).spec_plugins()[info.name@].is_enabled()
                && final(self).spec_plugins()[info.name@].spec_info() == info,
            !added ==> final(self).spec_plugins() == old(self).spec_plugins(),
            final(self).spec_states() == old(self).spec_states(),
            final(self).spec_states_path() == old(self).spec_states_path(),
            final(self).spec_directory() == old(self).spec_directory(),
            final(self).runtime() == old(self).runtime(),
            final(self).shares_runtime(),
    {
        if self.plugins.contains_key(info.name.as_str()) {
            return false;
        }
        let name = info.name.clone();
        let plugin = Plugin::new(share_runtime(&self.lua), info);
        self.plugins.insert(name, plugin);
        true
    }

    /// Starts the discovered plugin `name`: records it as disabled if it has no persisted
    /// state yet, loads it, and enables it if it loaded and was persisted as enabled. A plugin
    /// persisted as unloaded is left unloaded, and its main file does not run.
    ///
    /// Returns what loading the plugin returned.
    #[verifier::spinoff_prover]
    #[verifier::rlimit(40)]
    pub fn start_plugin<F>(&mut self, name: &str, main_file: MainFile, make_environment: F) -> (r: Result<(), PluginManagerError>) where
        F: FnOnce() -> Result<(E, mlua::OwnedTable), mlua::Error>,

        requires
            old(self).shares_runtime(),
            make_environment.requires(()),
        ensures
            final(self).spec_directory() == old(self).spec_directory(),
            final(self).runtime() == old(self).runtime(),
            final(self).shares_runtime(),
            final(self).spec_states_path() == old(self).spec_states_path(),
            !old(self).spec_plugins().contains_key(name@) ==> (r matches Err(e) && e is PluginNotFound)
                && final(self).spec_plugins() == old(self).spec_plugins()
                && final(self).spec_states() == old(self).spec_states(),
            old(self).spec_plugins().contains_key(name@) && old(self).spec_states().get(name@) == Some(
                PersistentPluginState::Unloaded,
            ) ==> r is Ok && final(self).spec_plugins() == old(self).spec_plugins() && final(self).spec_states()
                == old(self).spec_states(),
            old(self).spec_plugins().contains_key(name@) && old(self).spec_states().get(name@) != Some(
                PersistentPluginState::Unloaded,
            ) ==> {
                &&& only_changed(old(self).spec_plugins(), final(self).spec_plugins(), name@)
                &&& final(self).spec_states() == if old(self).spec_states().contains_key(name@) {
                    old(self).spec_states()
                } else {
                    old(self).spec_states().insert(name@, PersistentPluginState::Disabled)
                }
                &&& exists|after_load: Plugin<E>, loading: Result<(), PluginError>| {
                    &&& loaded(old(self).spec_plugins()[name@], after_load, main_file, make_environment, loading)
                    &&& match loading {
                        Ok(()) => r is Ok && if final(self).spec_states()[name@] == PersistentPluginState::Enabled {
                            exists|enabling: Result<(), PluginError>|
                                enabled(after_load, final(self).spec_plugins()[name@], enabling)
                        } else {
                            final(self).spec_plugins()[name@] == after_load
                        },
                        Err(e) => r == Err::<(), PluginManagerError>(PluginManagerError::Plugin(e))
                            && final(self).spec_plugins()[name@] == after_load,
                    }
                }
            },
    {
        let index = match self.plugins.index_of(name) {
            Some(i) => i,
            None => return Err(PluginManagerError::PluginNotFound),
        };

        let state = match self.persistent_states.get_state(name) {
            None => {
                self.persistent_states.insert(name, PersistentPluginState::Disabled);
                PersistentPluginState::Disabled
            },
            Some(state) => state,
        };
        if state == PersistentPluginState::Unloaded {
            // The user unloaded this plugin: it stays unloaded and its main file does not run.
            return Ok(());
        }

        let mut entry = self.plugins.take_at(index);
        let loading = entry.value.load(main_file, make_environment);
        let ghost after_load = entry.value;
        let ghost loading_outcome = loading;
        let result = match loading {
            Ok(()) => {
                match state {
                    PersistentPluginState::Enabled => {
                        // An error of the plugin's onEnable function is not fatal for starting.
                        let enabling = entry.value.enable();
                        proof {
                            assert(enabled(after_load, entry.value, enabling));
                            assert(exists|e: Result<(), PluginError>| enabled(after_load, entry.value, e));
                        }
                    },
                    _ => {},
                }
                Ok(())
            },
            Err(e) => Err(PluginManagerError::Plugin(e)),
        };
        let ghost after = entry.value;
        self.plugins.put_back(index, entry);
        proof {
            assert(self.plugins@ =~= old(self).plugins@.insert(name@, after));
            assert(self.plugins@[name@] == after);
            assert(loaded(old(self).spec_plugins()[name@], after_load, main_file, make_environment, loading_outcome));
            assert(self.persistent_states.states@[name@] == state);
            assert(match loading_outcome {
                Ok(()) => result is Ok && if self.persistent_states.states@[name@] == PersistentPluginState::Enabled {
                    exists|enabling: Result<(), PluginError>| enabled(after_load, after, enabling)
                } else {
                    after == after_load
                },
                Err(e) => result == Err::<(), PluginManagerError>(PluginManagerError::Plugin(e)) && after == after_load,
            });
            assert(self.spec_plugins()[name@] == after);
            assert(exists|al: Plugin<E>, lo: Result<(), PluginError>| {
                &&& loaded(old(self).spec_plugins()[name@], al, main_file, make_environment, lo)
                &&& match lo {
                    Ok(()) => result is Ok && if self.spec_states()[name@] == PersistentPluginState::Enabled {
                        exists|en: Result<(), PluginError>| enabled(al, self.spec_plugins()[name@], en)
                    } else {
                        self.spec_plugins()[name@] == al
                    },
                    Err(e) => result == Err::<(), PluginManagerError>(PluginManagerError::Plugin(e))
                        && self.spec_plugins()[name@] == al,
                }
            });
        }
        result
    }

    /// The installed plugins, by name.
    pub fn get_plugins(&self) -> (r: &NamedMap<Plugin<E>>)
        ensures
            r@ == self.spec_plugins(),
    {
        &self.plugins
    }

    /// Call `onUpdate` function of all enabled plugins.
    ///
    /// Returns one report per enabled plugin with what its `onUpdate` returned; disabled
    /// plugins are not called, not reported and left as they are.
    #[verifier::spinoff_prover]
    pub fn on_update(&mut self) -> (reports: Vec<UpdateReport>)
        ensures
            unchanged_but_plugin(*old(self), *final(self)),
            final(self).spec_states() == old(self).spec_states(),
            old(self).shares_runtime() ==> final(self).shares_runtime(),
            final(self).spec_plugins().dom() == old(self).spec_plugins().dom(),
            forall|name: Seq<char>|
                #[trigger] old(self).spec_plugins().contains_key(name) && !old(self).spec_plugins()[name].is_enabled()
                    ==> final(self).spec_plugins()[name] == old(self).spec_plugins()[name],
            forall|k: int| 0 <= k < reports@.len() ==> {
                &&& old(self).spec_plugins().contains_key(#[trigger] reports@[k].plugin@)
                &&& old(self).spec_plugins()[reports@[k].plugin@].is_enabled()
                &&& updated(
                    old(self).spec_plugins()[reports@[k].plugin@],
                    final(self).spec_plugins()[reports@[k].plugin@],
                    reports@[k].result,
                )
            },
            forall|name: Seq<char>|
                #[trigger] old(self).spec_plugins().contains_key(name) && old(self).spec_plugins()[name].is_enabled()
                    ==> exists|k: int| 0 <= k < reports@.len() && #[trigger] reports@[k].plugin@ == name,
            forall|k1: int, k2: int|
                0 <= k1 < k2 < reports@.len() ==> #[trigger] reports@[k1].plugin@ != #[trigger] reports@[k2].plugin@,
    {
        let ghost start = self.plugins@;
        let names = self.plugins.names();
        let mut reports: Vec<UpdateReport> = Vec::new();
        let mut i: usize = 0;
        while i < names.len()
            invariant
                i <= names@.len(),
                forall|j: int| 0 <= j < names@.len() ==> #[trigger] start.contains_key(names@[j]@),
                forall|k: Seq<char>| #[trigger] start.contains_key(k) ==> exists|j: int|
                    0 <= j < names@.len() && #[trigger] names@[j]@ == k,
                forall|j1: int, j2: int| 0 <= j1 < j2 < names@.len() ==> #[trigger] names@[j1]@ != #[trigger] names@[j2]@,
                self.plugins@.dom() == start.dom(),
                self.plugins_directory == old(self).plugins_directory,
                self.persistent_states == old(self).persistent_states,
                self.lua == old(self).lua,
                self.uninstalled == old(self).uninstalled,
                forall|j: int| i <= j < names@.len() ==> self.plugins@[#[trigger] names@[j]@] == start[names@[j]@],
                forall|j: int|
                    0 <= j < i && !start[#[trigger] names@[j]@].is_enabled() ==> self.plugins@[names@[j]@]
                        == start[names@[j]@],
                forall|j: int| 0 <= j < i ==> self.plugins@[#[trigger] names@[j]@].runtime() == start[names@[j]@].runtime(),
                forall|k: int| 0 <= k < reports@.len() ==> {
                    &&& start.contains_key(#[trigger] reports@[k].plugin@)
                    &&& start[reports@[k].plugin@].is_enabled()
                    &&& updated(start[reports@[k].plugin@], self.plugins@[reports@[k].plugin@], reports@[k].result)
                    &&& exists|j: int| 0 <= j < i && #[trigger] names@[j]@ == reports@[k].plugin@
                },
                forall|j: int|
                    0 <= j < i && start[#[trigger] names@[j]@].is_enabled() ==> exists|k: int|
                        0 <= k < reports@.len() && #[trigger] reports@[k].plugin@ == names@[j]@,
                forall|k1: int, k2: int|
                    0 <= k1 < k2 < reports@.len() ==> #[trigger] reports@[k1].plugin@ != #[trigger] reports@[k2].plugin@,
            decreases names@.len() - i,
        {
            let name = &names[i];
            let ghost key = name@;
            let ghost before_map = self.plugins@;
            let ghost before_reports = reports@;
            assert(start.contains_key(key));
            let index = match self.plugins.index_of(name.as_str()) {
                Some(index) => index,
                None => {
                    assert(false);
                    return reports;
                },
            };
            let mut entry = self.plugins.take_at(index);
            assert(entry.value == start[key]);
            if entry.value.is_enabled() {
                let result = entry.value.on_update();
                reports.push(UpdateReport { plugin: entry.name.clone(), result });
            }
            let ghost after = entry.value;
            self.plugins.put_back(index, entry);
            proof {
                assert(self.plugins@ =~= before_map.insert(key, after));
                assert forall|k: int| 0 <= k < before_reports.len() implies #[trigger] before_reports[k].plugin@ != key by {
                    let j = choose|j: int| 0 <= j < i && #[trigger] names@[j]@ == before_reports[k].plugin@;
                    assert(names@[j]@ != names@[i as int]@);
                }
                assert forall|k: int| 0 <= k < reports@.len() implies {
                    &&& start.contains_key(#[trigger] reports@[k].plugin@)
                    &&& start[reports@[k].plugin@].is_enabled()
                    &&& updated(start[reports@[k].plugin@], self.plugins@[reports@[k].plugin@], reports@[k].result)
                    &&& exists|j: int| 0 <= j < i + 1 && #[trigger] names@[j]@ == reports@[k].plugin@
                } by {
                    if k < before_reports.len() {
                        assert(reports@[k] == before_reports[k]);
                        let j = choose|j: int| 0 <= j < i && #[trigger] names@[j]@ == before_reports[k].plugin@;
                        assert(names@[j]@ == reports@[k].plugin@);
                    } else {
                        assert(names@[i as int]@ == reports@[k].plugin@);
                    }
                }
                assert forall|j: int|
                    0 <= j < i + 1 && start[#[trigger] names@[j]@].is_enabled() implies exists|k: int|
                    0 <= k < reports@.len() && #[trigger] reports@[k].plugin@ == names@[j]@ by {
                    if j < i {
                        let k = choose|k: int| 0 <= k < before_reports.len() && #[trigger] before_reports[k].plugin@ == names@[j]@;
                        assert(reports@[k] == before_reports[k]);
                    } else {
                        assert(reports@[before_reports.len() as int].plugin@ == names@[j]@);
                    }
                }
                assert forall|j: int| i + 1 <= j < names@.len() implies self.plugins@[#[trigger] names@[j]@]
                    == start[names@[j]@] by {
                    assert(names@[i as int]@ != names@[j]@);
                }
                assert forall|j: int|
                    0 <= j < i + 1 && !start[#[trigger] names@[j]@].is_enabled() implies self.plugins@[names@[j]@]
                        == start[names@[j]@] by {
                    if j < i {
                        assert(names@[j]@ != names@[i as int]@);
                    }
                }
                assert forall|j: int| 0 <= j < i + 1 implies self.plugins@[#[trigger] names@[j]@].runtime()
                    == start[names@[j]@].runtime() by {
                    if j < i {
                        assert(names@[j]@ != names@[i as int]@);
                    }
                }
            }
            i = i + 1;
        }
        proof {
            assert forall|name: Seq<char>|
                #[trigger] start.contains_key(name) && !start[name].is_enabled() implies self.plugins@[name]
                    == start[name] by {
                let j = choose|j: int| 0 <= j < names@.len() && #[trigger] names@[j]@ == name;
            }
            assert forall|name: Seq<char>|
                #[trigger] start.contains_key(name) && start[name].is_enabled() implies exists|k: int|
                    0 <= k < reports@.len() && #[trigger] reports@[k].plugin@ == name by {
                let j = choose|j: int| 0 <= j < names@.len() && #[trigger] names@[j]@ == name;
            }
            if old(self).shares_runtime() {
                assert forall|k: Seq<char>| #[trigger] self.plugins@.contains_key(k) implies self.plugins@[k].runtime()
                    == self.lua by {
                    let j = choose|j: int| 0 <= j < names@.len() && #[trigger] names@[j]@ == k;
                }
            }
        }
        reports
    }

    /// Enable the plugin, and persist it as enabled if that succeeded.
    pub fn enable_plugin(&mut self, name: &str) -> (r: Result<(), PluginManagerError>)
        ensures
            manager_enabled(*old(self), *final(self), name@, r),
    {
        let index = match self.plugins.index_of(name) {
            Some(i) => i,
            None => return Err(PluginManagerError::PluginNotFound),
        };
        let mut entry = self.plugins.take_at(index);
        let result = entry.value.enable();
        let ghost after = entry.value;
        self.plugins.put_back(index, entry);
        proof {
            assert(self.plugins@ =~= old(self).plugins@.insert(name@, after));
        }
        match result {
            Ok(()) => {
                self.persistent_states.insert(name, PersistentPluginState::Enabled);
                Ok(())
            },
            Err(e) => Err(PluginManagerError::Plugin(e)),
        }
    }

    /// Disable the plugin, and persist it as disabled if that succeeded.
    pub fn disable_plugin(&mut self, name: &str) -> (r: Result<(), PluginManagerError>)
        ensures
            manager_disabled(*old(self), *final(self), name@, r),
    {
        let index = match self.plugins.index_of(name) {
            Some(i) => i,
            None => return Err(PluginManagerError::PluginNotFound),
        };
        let mut entry = self.plugins.take_at(index);
        let result = entry.value.disable();
        let ghost after = entry.value;
        self.plugins.put_back(index, entry);
        proof {
            assert(self.plugins@ =~= old(self).plugins@.insert(name@, after));
        }
        match result {
            Ok(()) => {
                self.persistent_states.insert(name, PersistentPluginState::Disabled);
                Ok(())
            },
            Err(e) => Err(PluginManagerError::Plugin(e)),
        }
    }

    /// Reload the plugin.
    pub fn reload_plugin<F>(&mut self, name: &str, main_file: MainFile, make_environment: F) -> (r: Result<(), PluginManagerError>) where
        F: FnOnce() -> Result<(E, mlua::OwnedTable), mlua::Error>,

        requires
            make_environment.requires(()),
        ensures
            unchanged_but_plugin(*old(self), *final(self)),
            final(self).spec_states() == old(self).spec_states(),
            !old(self).spec_plugins().contains_key(name@) ==> not_found(*old(self), *final(self), r),
            old(self).spec_plugins().contains_key(name@) ==> {
                &&& only_changed(old(self).spec_plugins(), final(self).spec_plugins(), name@)
                &&& plugin_result_reported(r)
                &&& reloaded(
                    old(self).spec_plugins()[name@],
                    final(self).spec_plugins()[name@],
                    main_file,
                    make_environment,
                    plugin_result(r),
                )
            },
    {
        let index = match self.plugins.index_of(name) {
            Some(i) => i,
            None => return Err(PluginManagerError::PluginNotFound),
        };
        let mut entry = self.plugins.take_at(index);
        let result = entry.value.reload(main_file, make_environment);
        let ghost after = entry.value;
        self.plugins.put_back(index, entry);
        proof {
            assert(self.plugins@ =~= old(self).plugins@.insert(name@, after));
        }
        match result {
            Ok(()) => Ok(()),
            Err(e) => Err(PluginManagerError::Plugin(e)),
        }
    }

    /// Load the plugin with the specified name, persisting it as disabled.
    ///
    /// Refer to [`Plugin::load`] for information about what loading a plugin means.
    pub fn load_plugin<F>(&mut self, name: &str, main_file: MainFile, make_environment: F) -> (r: Result<(), PluginManagerError>) where
        F: FnOnce() -> Result<(E, mlua::OwnedTable), mlua::Error>,

        requires
            make_environment.requires(()),
        ensures
            unchanged_but_plugin(*old(self), *final(self)),
            !old(self).spec_plugins().contains_key(name@) ==> not_found(*old(self), *final(self), r),
            old(self).spec_plugins().contains_key(name@) ==> {
                &&& only_changed(old(self).spec_plugins(), final(self).spec_plugins(), name@)
                &&& plugin_result_reported(r)
                &&& loaded(
                    old(self).spec_plugins()[name@],
                    final(self).spec_plugins()[name@],
                    main_file,
                    make_environment,
                    plugin_result(r),
                )
                &&& final(self).spec_states() == old(self).spec_states().insert(
                    name@,
                    PersistentPluginState::Disabled,
                )
            },
    {
        let index = match self.plugins.index_of(name) {
            Some(i) => i,
            None => return Err(PluginManagerError::PluginNotFound),
        };
        self.persistent_states.insert(name, PersistentPluginState::Disabled);
        let mut entry = self.plugins.take_at(index);
        let result = entry.value.load(main_file, make_environment);
        let ghost after = entry.value;
        self.plugins.put_back(index, entry);
        proof {
            assert(self.plugins@ =~= old(self).plugins@.insert(name@, after));
        }
        match result {
            Ok(()) => Ok(()),
            Err(e) => Err(PluginManagerError::Plugin(e)),
        }
    }

    /// Unload the plugin with the specified name, persisting it as unloaded.
    pub fn unload_plugin(&mut self, name: &str) -> (r: Result<(), PluginManagerError>)
        ensures
            unchanged_but_plugin(*old(self), *final(self)),
            !old(self).spec_plugins().contains_key(name@) ==> not_found(*old(self), *final(self), r),
            old(self).spec_plugins().contains_key(name@) ==> {
                &&& only_changed(old(self).spec_plugins(), final(self).spec_plugins(), name@)
                &&& plugin_result_reported(r)
                &&& unloaded(old(self).spec_plugins()[name@], final(self).spec_plugins()[name@], plugin_result(r))
                &&& final(self).spec_states() == old(self).spec_states().insert(
                    name@,
                    PersistentPluginState::Unloaded,
                )
            },
    {
        let index = match self.plugins.index_of(name) {
            Some(i) => i,
            None => return Err(PluginManagerError::PluginNotFound),
        };
        self.persistent_states.insert(name, PersistentPluginState::Unloaded);
        let mut entry = self.plugins.take_at(index);
        let result = entry.value.unload();
        let ghost after = entry.value;
        self.plugins.put_back(index, entry);
        proof {
            assert(self.plugins@ =~= old(self).plugins@.insert(name@, after));
        }
        match result {
            Ok(()) => Ok(()),
            Err(e) => Err(PluginManagerError::Plugin(e)),
        }
    }

    /// Uninstall the plugin: forget its persisted state, disable and unload it, and remove
    /// it from the manager. Errors of the plugin while it is disabled or unloaded are not
    /// fatal.
    ///
    /// Returns the plugin's folder, whose files are to be removed.
    pub fn uninstall_plugin(&mut self, name: &str) -> (r: Result<String, PluginManagerError>)
        ensures
            uninstalled(*old(self), *final(self), name@, r),
    {
        self.persistent_states.remove(name);

        let index = match self.plugins.index_of(name) {
            Some(i) => i,
            None => return Err(PluginManagerError::PluginNotFound),
        };

        let mut entry = self.plugins.take_at(index);
        let ghost removed_map = self.plugins@;
        let ghost before = entry.value;

        // The plugin's onUninstall and onDisable functions get a chance to clean up; an error
        // of them does not stop the removal.
        let uninstalling = entry.value.on_uninstall();
        let ghost after_uninstall = entry.value;
        let disabling = entry.value.disable();
        let ghost after_disable = entry.value;

        // Unloading drops all references to Lua objects of the plugin. An error while
        // unloading does not stop the removal either.
        let _ = entry.value.unload();

        let plugin_path = entry.value.info().path.clone();
        self.uninstalled = Ghost(self.uninstalled@.insert(name@, entry.value));
        proof {
            assert(self.plugins@ == old(self).plugins@.remove(name@));
            assert(pending_hook(after_uninstall, HookEvent::Disable) == pending_hook(before, HookEvent::Disable));
            assert(pending_hook(after_disable, HookEvent::Disable) is None);
            assert(pending_hook(after_disable, HookEvent::Unload) == pending_hook(before, HookEvent::Unload));
            if before.spec_state() is Loaded {
                let u = uninstalling is Err;
                let d = disabling is Err;
                let (d2, un): (bool, bool) = choose|d2: bool, un: bool|
                    entry.value.spec_runs() == after_disable.spec_runs() + hook_runs(
                        pending_hook(after_disable, HookEvent::Disable),
                        d2,
                    ) + hook_runs(pending_hook(after_disable, HookEvent::Unload), un);
                assert(entry.value.spec_runs() == before.spec_runs() + hook_runs(
                    pending_hook(before, HookEvent::Uninstall),
                    u,
                ) + hook_runs(pending_hook(before, HookEvent::Disable), d) + hook_runs(
                    pending_hook(before, HookEvent::Unload),
                    un,
                ));
            }
            assert(retired(before, entry.value));
        }

        // Ensure that all Lua references and objects are destroyed properly.
        let _ = collect_garbage(&self.lua);
        let _ = collect_garbage(&self.lua);

        Ok(plugin_path)
    }

    /// Checks whether a plugin with the information `info` can be installed, and returns the
    /// name of the folder it is to be installed in.
    pub fn prepare_installation(&self, info: &PluginInfo) -> (r: Result<String, PluginInstallError>)
        ensures
            self.spec_plugins().contains_key(info.name@) ==> (r matches Err(e) && e is AlreadyInstalled),
            !self.spec_plugins().contains_key(info.name@) ==> match r {
                Ok(folder) => all_folder_chars(lower_case(info.name@))
                    && folder@ == folder_name(lower_case(info.name@)),
                Err(e) => e is InvalidName && !all_folder_chars(lower_case(info.name@)),
            },
    {
        if self.plugins.contains_key(info.name.as_str()) {
            return Err(PluginInstallError::AlreadyInstalled);
        }
        match sanitize_name(info.name.as_str()) {
            None => Err(PluginInstallError::InvalidName),
            Some(folder) => Ok(folder),
        }
    }

    /// Installs the plugin whose files were copied into the plugin directory and whose
    /// information is `info`: it is added, persisted as disabled, and loaded, and its
    /// `onInstall` function runs. A plugin of that name that is already installed is refused
    /// with `AlreadyInstalled`, and nothing changes.
    #[verifier::spinoff_prover]
    pub fn install_plugin_from_folder<F>(&mut self, info: PluginInfo, main_file: MainFile, make_environment: F) -> (r: Result<(), PluginInstallError>) where
        F: FnOnce() -> Result<(E, mlua::OwnedTable), mlua::Error>,

        requires
            old(self).shares_runtime(),
            make_environment.requires(()),
        ensures
            unchanged_but_plugin(*old(self), *final(self)),
            final(self).shares_runtime(),
            old(self).spec_plugins().contains_key(info.name@) ==> (r matches Err(e) && e is AlreadyInstalled)
                && final(self).spec_plugins() == old(self).spec_plugins()
                && final(self).spec_states() == old(self).spec_states(),
            !old(self).spec_plugins().contains_key(info.name@) ==> {
                &&& final(self).spec_states() == old(self).spec_states().insert(
                    info.name@,
                    PersistentPluginState::Disabled,
                )
                &&& final(self).spec_plugins().contains_key(info.name@)
                &&& final(self).spec_plugins() == old(self).spec_plugins().insert(
                    info.name@,
                    final(self).spec_plugins()[info.name@],
                )
                &&& (r is Ok || r matches Err(PluginInstallError::Plugin(_)))
                &&& exists|fresh: Plugin<E>, after_load: Plugin<E>, loading: Result<(), PluginError>| {
                    &&& fresh.spec_state() is Unloaded
                    &&& !fresh.is_enabled()
                    &&& fresh.spec_info() == info
                    &&& fresh.runtime() == old(self).runtime()
                    &&& fresh.spec_runs() == Seq::<ScriptRun>::empty()
                    &&& loaded(fresh, after_load, main_file, make_environment, loading)
                    &&& match loading {
                        Err(e) => r == Err::<(), PluginInstallError>(PluginInstallError::Plugin(e))
                            && final(self).spec_plugins()[info.name@] == after_load,
                        Ok(()) => r is Ok && exists|installing: Result<(), PluginError>|
                            hook_ran(after_load, final(self).spec_plugins()[info.name@], HookEvent::Install, installing),
                    }
                }
            },
    {
        if self.plugins.contains_key(info.name.as_str()) {
            return Err(PluginInstallError::AlreadyInstalled);
        }
        let plugin_name = info.name.clone();
        let mut plugin = Plugin::new(share_runtime(&self.lua), info);
        let ghost fresh = plugin;
        self.persistent_states.insert(plugin_name.as_str(), PersistentPluginState::Disabled);
        let loading = plugin.load(main_file, make_environment);
        let ghost after = plugin;
        let ghost loading_outcome = loading;
        // The plugin's onInstall function runs once, right after the installed plugin loaded.
        // The plugin is installed either way: an error of onInstall is not reported.
        let ghost mut installing: Result<(), PluginError> = Ok(());
        let result = match loading {
            Ok(()) => {
                let on_install = plugin.on_install();
                proof {
                    installing = on_install;
                }
                Ok(())
            },
            Err(e) => Err(PluginInstallError::Plugin(e)),
        };
        let ghost installed = plugin;
        self.plugins.insert(plugin_name, plugin);
        proof {
            assert(self.plugins@[info.name@] == installed);
            assert(self.plugins@ =~= old(self).plugins@.insert(info.name@, installed));
            assert(loaded(fresh, after, main_file, make_environment, loading_outcome));
            if loading_outcome is Ok {
                assert(hook_ran(after, installed, HookEvent::Install, installing));
            }
        }
        result
    }
}

/// `after` is `before` once [`PluginManager::enable_plugin`] of `name` returned `r`: the
/// plugin was enabled as [`Plugin::enable`] does and, if that succeeded, persisted as enabled.
pub open spec fn manager_enabled<E>(
    before: PluginManager<E>,
    after: PluginManager<E>,
    name: Seq<char>,
    r: Result<(), PluginManagerError>,
) -> bool {
    &&& unchanged_but_plugin(before, after)
    &&& !before.spec_plugins().contains_key(name) ==> not_found(before, after, r)
    &&& before.spec_plugins().contains_key(name) ==> {
        &&& only_changed(before.spec_plugins(), after.spec_plugins(), name)
        &&& plugin_result_reported(r)
        &&& enabled(before.spec_plugins()[name], after.spec_plugins()[name], plugin_result(r))
        &&& after.spec_states() == if r is Ok {
            before.spec_states().insert(name, PersistentPluginState::Enabled)
        } else {
            before.spec_states()
        }
    }
}

/// `after` is `before` once [`PluginManager::disable_plugin`] of `name` returned `r`: the
/// plugin was disabled as [`Plugin::disable`] does and, if that succeeded, persisted as disabled.
pub open spec fn manager_disabled<E>(
    before: PluginManager<E>,
    after: PluginManager<E>,
    name: Seq<char>,
    r: Result<(), PluginManagerError>,
) -> bool {
    &&& unchanged_but_plugin(before, after)
    &&& !before.spec_plugins().contains_key(name) ==> not_found(before, after, r)
    &&& before.spec_plugins().contains_key(name) ==> {
        &&& only_changed(before.spec_plugins(), after.spec_plugins(), name)
        &&& plugin_result_reported(r)
        &&& disabled(before.spec_plugins()[name], after.spec_plugins()[name], plugin_result(r))
        &&& after.spec_states() == if r is Ok {
            before.spec_states().insert(name, PersistentPluginState::Disabled)
        } else {
            before.spec_states()
        }
    }
}

/// `after` is `before` once [`PluginManager::uninstall_plugin`] of `name` returned `r`: the
/// plugin and its persisted state are gone, and its folder is returned.
pub open spec fn uninstalled<E>(
    before: PluginManager<E>,
    after: PluginManager<E>,
    name: Seq<char>,
    r: Result<String, PluginManagerError>,
) -> bool {
    &&& after.spec_directory() == before.spec_directory()
    &&& after.runtime() == before.runtime()
    &&& after.spec_states_path() == before.spec_states_path()
    &&& after.spec_states() == before.spec_states().remove(name)
    &&& !before.spec_plugins().contains_key(name) ==> (r matches Err(e) && e is PluginNotFound)
        && after.spec_plugins() == before.spec_plugins() && after.spec_uninstalled() == before.spec_uninstalled()
    &&& before.spec_plugins().contains_key(name) ==> {
        &&& r matches Ok(path) && path@ == before.spec_plugins()[name].spec_info().path@
        &&& after.spec_plugins() == before.spec_plugins().remove(name)
        &&& after.spec_uninstalled() == before.spec_uninstalled().insert(name, after.spec_uninstalled()[name])
        &&& retired(before.spec_plugins()[name], after.spec_uninstalled()[name])
    }
}

/// `gone` is what uninstalling left of the plugin `before`: a loaded plugin ran its
/// `onUninstall`, then its `onDisable` if it was enabled, then its `onUnload`, and ended up
/// unloaded and disabled; any other plugin ran nothing and kept its state. Errors of these
/// functions do not stop the uninstalling.
pub open spec fn retired<E>(before: Plugin<E>, gone: Plugin<E>) -> bool {
    &&& gone.spec_info() == before.spec_info()
    &&& !(before.spec_state() is Loaded) ==> gone.spec_state() == before.spec_state() && gone.spec_runs()
        == before.spec_runs()
    &&& before.spec_state() is Loaded ==> {
        &&& gone.spec_state() is Unloaded
        &&& !gone.is_enabled()
        &&& exists|uninstall_raised: bool, disable_raised: bool, unload_raised: bool| gone.spec_runs()
            == before.spec_runs() + hook_runs(pending_hook(before, HookEvent::Uninstall), uninstall_raised)
            + hook_runs(pending_hook(before, HookEvent::Disable), disable_raised) + hook_runs(
            pending_hook(before, HookEvent::Unload),
            unload_raised,
        )
    }
}

/// Enabling a loaded plugin through the manager and then disabling it leaves it
/// disabled; if the disabling succeeded, the plugin is persisted as disabled.
pub proof fn lemma_manager_enable_then_disable<E>(
    start: PluginManager<E>,
    after_enable: PluginManager<E>,
    after_disable: PluginManager<E>,
    name: Seq<char>,
    enabling: Result<(), PluginManagerError>,
    disabling: Result<(), PluginManagerError>,
)
    requires
        start.spec_plugins().contains_key(name),
        start.spec_plugins()[name].spec_state() is Loaded,
        manager_enabled(start, after_enable, name, enabling),
        manager_disabled(after_enable, after_disable, name, disabling),
    ensures
        after_disable.spec_plugins().contains_key(name),
        !after_disable.spec_plugins()[name].is_enabled(),
        after_disable.spec_plugins()[name].spec_state() == start.spec_plugins()[name].spec_state(),
        disabling is Ok ==> after_disable.spec_states().get(name) == Some(PersistentPluginState::Disabled),
        enabling is Ok && disabling is Ok ==> after_disable.spec_states() == start.spec_states().insert(
            name,
            PersistentPluginState::Disabled,
        ),
{
    lemma_enable_then_disable(
        start.spec_plugins()[name],
        after_enable.spec_plugins()[name],
        after_disable.spec_plugins()[name],
        plugin_result(enabling),
        plugin_result(disabling),
    );
    if enabling is Ok && disabling is Ok {
        assert(after_disable.spec_states() =~= start.spec_states().insert(
            name,
            PersistentPluginState::Disabled,
        ));
    }
}

/// Once a plugin is uninstalled, the manager knows neither it nor its persisted state, and
/// enabling it is answered with `PluginNotFound` and changes nothing.
pub proof fn lemma_uninstalled_plugin_not_found<E>(
    start: PluginManager<E>,
    after_uninstall: PluginManager<E>,
    after_enable: PluginManager<E>,
    name: Seq<char>,
    uninstalling: Result<String, PluginManagerError>,
    enabling: Result<(), PluginManagerError>,
)
    requires
        uninstalled(start, after_uninstall, name, uninstalling),
        manager_enabled(after_uninstall, after_enable, name, enabling),
    ensures
        !after_uninstall.spec_plugins().contains_key(name),
        !after_uninstall.spec_states().contains_key(name),
        enabling matches Err(e) && e is PluginNotFound,
        after_enable.spec_plugins() == after_uninstall.spec_plugins(),
        after_enable.spec_states() == after_uninstall.spec_states(),
{
}

/// The state recorded for a plugin is the state read back for it.
pub proof fn lemma_persisted_state_read_back(
    before: PersistentPluginStates,
    after: PersistentPluginStates,
    name: Seq<char>,
    state: PersistentPluginState,
)
    requires
        after.states@ == before.states@.insert(name, state),
    ensures
        after.states@.get(name) == Some(state),
{
}

/// The plugin directory, the Lua state, the file of the persisted states and the record of
/// uninstalled plugins are the same in `before` and `after`.
pub open spec fn unchanged_but_plugin<E>(before: PluginManager<E>, after: PluginManager<E>) -> bool {
    &&& after.spec_directory() == before.spec_directory()
    &&& after.runtime() == before.runtime()
    &&& after.spec_states_path() == before.spec_states_path()
    &&& after.spec_uninstalled() == before.spec_uninstalled()
}

/// The manager answered `r` to an operation on a plugin it does not have, and changed nothing.
pub open spec fn not_found<E, T>(before: PluginManager<E>, after: PluginManager<E>, r: Result<T, PluginManagerError>) -> bool {
    &&& r matches Err(e) && e is PluginNotFound
    &&& after.spec_plugins() == before.spec_plugins()
    &&& after.spec_states() == before.spec_states()
}

/// `r` is what the plugin answered, passed on.
pub open spec fn plugin_result_reported(r: Result<(), PluginManagerError>) -> bool {
    r is Ok || r matches Err(PluginManagerError::Plugin(_))
}

/// What the plugin answered, if `r` passes it on.
pub open spec fn plugin_result(r: Result<(), PluginManagerError>) -> Result<(), PluginError> {
    match r {
        Err(PluginManagerError::Plugin(e)) => Err(e),
        _ => Ok(()),
    }
}

/// What loading the installed plugin answered, if `r` passes it on.
pub open spec fn install_plugin_result(r: Result<(), PluginInstallError>) -> Result<(), PluginError> {
    match r {
        Err(PluginInstallError::Plugin(e)) => Err(e),
        _ => Ok(()),
    }
}

} // verus!
