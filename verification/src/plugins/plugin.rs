//! A plugin and its life cycle: loading, enabling, updating, disabling and unloading.
//!
//! A plugin's scripts run in a Lua state shared by all plugins. The environment a
//! plugin's script runs in (its globals and the libraries it requested) is built by
//! whoever drives the plugin and handed to [`Plugin::load`]; this module decides, from
//! what the Lua runtime reports, which state the plugin is in.
use std::sync::Arc;
use vstd::prelude::*;

use crate::data::plugin as data;
use crate::data::plugin::{PluginError, PluginErrorView, PluginInfo};
use crate::lua::{call_without_arguments, collect_garbage, error_details, error_message, exec_chunk, function_field, ScriptRun};
use crate::text::{concat, str_equals};

verus! {

/// What was found when looking for and reading a plugin's main file.
pub enum MainFile {
    /// The plugin folder holds no main file, or could not be listed.
    NotFound,
    /// The main file exists but could not be read; the reason is attached.
    Unreadable(String),
    /// The content of the main file.
    Source(String),
}

/// A file of a plugin's folder, split into stem and extension.
///
/// A part that is missing or is not valid Unicode is `None`.
pub struct DirectoryFile {
    pub stem: Option<String>,
    pub extension: Option<String>,
}

/// Whether `file` is a plugin's main file: `main.lua` or `main.luau`.
pub open spec fn is_main_file(file: DirectoryFile) -> bool {
    &&& file.stem matches Some(stem) && stem@ == "main"@
    &&& file.extension matches Some(extension) && (extension@ == "lua"@ || extension@ == "luau"@)
}

/// The position of the first main file among the files of a plugin's folder.
pub fn discover_main_file(files: &Vec<DirectoryFile>) -> (r: Option<usize>)
    ensures
        match r {
            Some(i) => i < files@.len() && is_main_file(files@[i as int])
                && forall|j: int| 0 <= j < i ==> !is_main_file(#[trigger] files@[j]),
            None => forall|j: int| 0 <= j < files@.len() ==> !is_main_file(#[trigger] files@[j]),
        },
{
    let mut i: usize = 0;
    while i < files.len()
        invariant
            i <= files@.len(),
            forall|j: int| 0 <= j < i ==> !is_main_file(#[trigger] files@[j]),
        decreases files@.len() - i,
    {
        let file = &files[i];
        let stem_matches = match &file.stem {
            Some(stem) => str_equals(stem.as_str(), "main"),
            None => false,
        };
        let extension_matches = match &file.extension {
            Some(extension) => str_equals(extension.as_str(), "lua") || str_equals(extension.as_str(), "luau"),
            None => false,
        };
        if stem_matches && extension_matches {
            return Some(i);
        }
        i = i + 1;
    }
    None
}

/// What a loaded plugin holds: its environment and the optional functions its script defines.
pub struct PluginContext<E> {
    environment: E,
    on_load: Option<mlua::OwnedFunction>,
    on_unload: Option<mlua::OwnedFunction>,
    on_update: Option<mlua::OwnedFunction>,
    on_enable: Option<mlua::OwnedFunction>,
    on_disable: Option<mlua::OwnedFunction>,
    on_install: Option<mlua::OwnedFunction>,
    on_uninstall: Option<mlua::OwnedFunction>,
}

impl<E> PluginContext<E> {
    /// Which of the optional functions the script defines.
    pub closed spec fn spec_hooks(&self) -> data::PluginContext {
        data::PluginContext {
            on_load: self.on_load is Some,
            on_unload: self.on_unload is Some,
            on_update: self.on_update is Some,
            on_enable: self.on_enable is Some,
            on_disable: self.on_disable is Some,
            on_install: self.on_install is Some,
            on_uninstall: self.on_uninstall is Some,
        }
    }

    /// The environment the plugin's script ran in.
    pub closed spec fn spec_environment(&self) -> E {
        self.environment
    }

    /// Which of the optional functions the script defines.
    #[verifier::when_used_as_spec(spec_hooks)]
    pub fn hooks(&self) -> (h: data::PluginContext)
        ensures
            h == self.spec_hooks(),
    {
        data::PluginContext {
            on_load: self.on_load.is_some(),
            on_unload: self.on_unload.is_some(),
            on_update: self.on_update.is_some(),
            on_enable: self.on_enable.is_some(),
            on_disable: self.on_disable.is_some(),
            on_install: self.on_install.is_some(),
            on_uninstall: self.on_uninstall.is_some(),
        }
    }

    /// The environment the plugin's script ran in.
    pub fn environment(&self) -> (e: &E)
        ensures
            *e == self.spec_environment(),
    {
        &self.environment
    }

    /// The script's function that is called on `event`, if the script defines one.
    pub closed spec fn spec_function(&self, event: HookEvent) -> Option<mlua::OwnedFunction> {
        match event {
            HookEvent::Load => self.on_load,
            HookEvent::Unload => self.on_unload,
            HookEvent::Update => self.on_update,
            HookEvent::Enable => self.on_enable,
            HookEvent::Disable => self.on_disable,
            HookEvent::Install => self.on_install,
            HookEvent::Uninstall => self.on_uninstall,
        }
    }

    /// The script's function that is called on `event`, if the script defines one.
    pub fn function(&self, event: HookEvent) -> (f: Option<&mlua::OwnedFunction>)
        ensures
            same_function(f, self.spec_function(event)),
    {
        match event {
            HookEvent::Load => self.on_load.as_ref(),
            HookEvent::Unload => self.on_unload.as_ref(),
            HookEvent::Update => self.on_update.as_ref(),
            HookEvent::Enable => self.on_enable.as_ref(),
            HookEvent::Disable => self.on_disable.as_ref(),
            HookEvent::Install => self.on_install.as_ref(),
            HookEvent::Uninstall => self.on_uninstall.as_ref(),
        }
    }
}

/// The events on which a plugin's script functions are called: `onLoad`, `onUnload`,
/// `onUpdate`, `onEnable`, `onDisable`, `onInstall` and `onUninstall`.
#[derive(Debug, Clone, Copy, PartialEq, Eq, Structural)]
pub enum HookEvent {
    Load,
    Unload,
    Update,
    Enable,
    Disable,
    Install,
    Uninstall,
}

/// Whether `f` is the function `g`, or neither is there.
pub open spec fn same_function(f: Option<&mlua::OwnedFunction>, g: Option<mlua::OwnedFunction>) -> bool {
    match f {
        Some(x) => g == Some(*x),
        None => g is None,
    }
}

/// What a plugin operation reports once the script function it ran returned `called`
/// (`None` when there was no function to run): a script error exactly when the function
/// raised one.
pub open spec fn hook_reported(called: Option<Result<(), mlua::Error>>, r: Result<(), PluginError>) -> bool {
    &&& (r is Ok <==> !(called matches Some(Err(_))))
    &&& (r matches Err(e) ==> e@ is ScriptError)
}

/// What a plugin operation reports once the script function it ran returned `called`
/// (`None` when there was no function to run).
pub fn finish_hook(called: Option<Result<(), mlua::Error>>) -> (r: Result<(), PluginError>)
    ensures
        hook_reported(called, r),
{
    match called {
        Some(Err(e)) => Err(PluginError::ScriptError(error_message(&e))),
        _ => Ok(()),
    }
}

/// Runs the script function `f`, if there is one, and returns what it returned, beside the
/// record of the run.
fn run_hook(f: Option<&mlua::OwnedFunction>) -> (r: (Option<Result<(), mlua::Error>>, Ghost<Seq<ScriptRun>>))
    ensures
        match f {
            Some(g) => r.0 matches Some(res) && r.1@ == hook_runs(Some(*g), res is Err),
            None => r.0 is None && r.1@ == hook_runs(None, false),
        },
{
    match f {
        Some(f) => {
            let (res, run) = call_without_arguments(f);
            (Some(res), Ghost(Seq::empty().push(run@)))
        },
        None => (None, Ghost(Seq::empty())),
    }
}

/// The record of running the script function `f`, if there is one, where `raised` tells
/// whether it raised an error: nothing when there is no function.
pub open spec fn hook_runs(f: Option<mlua::OwnedFunction>, raised: bool) -> Seq<ScriptRun> {
    match f {
        Some(g) => seq![ScriptRun::Call { function: g, raised }],
        None => Seq::empty(),
    }
}

/// The state a plugin is in.
pub enum PluginState<E> {
    Error(PluginError),
    Unloaded,
    Loaded(PluginContext<E>),
}

impl<E> PluginState<E> {
    /// The error the plugin is in, if it is in one.
    pub open spec fn error_view(&self) -> Option<PluginErrorView> {
        match self {
            PluginState::Error(e) => Some(e@),
            _ => None,
        }
    }

    /// The state as the plugin manager reports it.
    pub fn to_data(&self) -> (r: data::PluginState)
        ensures
            state_reported(*self, r),
    {
        match self {
            PluginState::Error(e) => data::PluginState::Error(e.duplicate()),
            PluginState::Unloaded => data::PluginState::Unloaded,
            PluginState::Loaded(context) => data::PluginState::Loaded(context.hooks()),
        }
    }
}

/// Whether `reported` is how the plugin manager reports `state`.
pub open spec fn state_reported<E>(state: PluginState<E>, reported: data::PluginState) -> bool {
    match state {
        PluginState::Error(e) => reported matches data::PluginState::Error(r) && r@ == e@,
        PluginState::Unloaded => reported is Unloaded,
        PluginState::Loaded(context) => reported matches data::PluginState::Loaded(h) && h == context.spec_hooks(),
    }
}

/// The message of an error raised while reading the main file for the reason `reason`.
pub open spec fn read_error_message(reason: Seq<char>) -> Seq<char> {
    "Error while reading the main file: "@ + reason
}

/// What loading a plugin whose main file is `main_file` and whose environment is built by
/// `make_environment` may result in: the result `r`, the state `state` afterwards, and the
/// plugin's script runs `after`, which were `before` until then.
///
/// The main file's source runs, in the globals just built, once the file was read and the
/// environment built; then, if the chunk raised no error, the `onLoad` function it defined.
pub open spec fn load_outcome<E, F: FnOnce() -> Result<(E, mlua::OwnedTable), mlua::Error>>(
    main_file: MainFile,
    make_environment: F,
    r: Result<(), PluginError>,
    state: PluginState<E>,
    before: Seq<ScriptRun>,
    after: Seq<ScriptRun>,
) -> bool {
    &&& r matches Err(e) ==> state.error_view() == Some(e@)
    &&& match main_file {
        MainFile::NotFound => r matches Err(e) && e@ == PluginErrorView::NoMainFile && after == before,
        MainFile::Unreadable(reason) => r matches Err(e) && e@ == PluginErrorView::Error(
            read_error_message(reason@),
        ) && after == before,
        MainFile::Source(source) => exists|built: Result<(E, mlua::OwnedTable), mlua::Error>| {
            &&& #[trigger] make_environment.ensures((), built)
            &&& match built {
                Err(_) => r matches Err(e) && e@ matches PluginErrorView::Error(m)
                    && "Could not create mod environment: "@.is_prefix_of(m) && after == before,
                Ok((environment, globals)) => source_ran(source@, globals, environment, r, state, before, after),
            }
        },
    }
}

/// Loading ran the chunk `source` in `globals` after the runs `before`, and ended with the
/// result `r`, the state `state` and the runs `after`: a chunk that raised is reported
/// as a module error; otherwise `onLoad` ran if the chunk defined it, and an error it raised is
/// reported; with neither, the plugin is loaded in `environment` with the functions the chunk
/// defined.
pub open spec fn source_ran<E>(
    source: Seq<char>,
    globals: mlua::OwnedTable,
    environment: E,
    r: Result<(), PluginError>,
    state: PluginState<E>,
    before: Seq<ScriptRun>,
    after: Seq<ScriptRun>,
) -> bool {
    let n = before.len();
    &&& after.len() > n
    &&& after.subrange(0, n as int) == before
    &&& match after[n as int] {
        ScriptRun::Chunk { source: ran, globals: ran_in, raised } => {
            &&& ran == source
            &&& ran_in == globals
            &&& raised ==> (after.len() == n + 1 && (r matches Err(e) && e@ matches PluginErrorView::ScriptError(m)
                && "Could not load module: "@.is_prefix_of(m)))
            &&& !raised ==> match r {
                Ok(()) => state matches PluginState::Loaded(context) && context.spec_environment() == environment
                    && after == before.push(after[n as int]) + hook_runs(context.spec_function(HookEvent::Load), false),
                Err(e) => e@ matches PluginErrorView::ScriptError(m)
                    && "Error while executing onLoad function: "@.is_prefix_of(m) && after.len() == n + 2
                    && (after[(n + 1) as int] matches ScriptRun::Call { raised: true, .. }),
            }
        },
        _ => false,
    }
}

/// The source of the main file to run, from what was found of it.
pub fn main_source(main_file: MainFile) -> (r: Result<String, PluginError>)
    ensures
        match main_file {
            MainFile::NotFound => r matches Err(e) && e@ == PluginErrorView::NoMainFile,
            MainFile::Unreadable(reason) => r matches Err(e) && e@ == PluginErrorView::Error(
                read_error_message(reason@),
            ),
            MainFile::Source(source) => r == Ok::<String, PluginError>(source),
        },
{
    match main_file {
        MainFile::NotFound => Err(PluginError::NoMainFile),
        MainFile::Unreadable(reason) => Err(
            PluginError::Error(concat("Error while reading the main file: ", reason.as_str())),
        ),
        MainFile::Source(source) => Ok(source),
    }
}

/// The environment, and the table of its globals, to run the main file in, from what the
/// environment builder returned.
pub fn environment_or_error<E>(built: Result<(E, mlua::OwnedTable), mlua::Error>) -> (r: Result<
    (E, mlua::OwnedTable),
    PluginError,
>)
    ensures
        match built {
            Ok(b) => r == Ok::<(E, mlua::OwnedTable), PluginError>(b),
            Err(_) => r matches Err(e) && e@ matches PluginErrorView::Error(m)
                && "Could not create mod environment: "@.is_prefix_of(m),
        },
{
    match built {
        Ok(b) => Ok(b),
        Err(e) => Err(PluginError::Error(concat("Could not create mod environment: ", error_details(&e).as_str()))),
    }
}

/// What loading reports once the main file ran with the result `chunk` and, after it ran,
/// `onLoad` returned `on_load` (`None` when there was none to call): the chunk's error
/// first, then the error of `onLoad`, and success otherwise.
pub fn finish_load(chunk: Result<(), mlua::Error>, on_load: Option<Result<(), mlua::Error>>) -> (r: Result<
    (),
    PluginError,
>)
    ensures
        match chunk {
            Err(_) => r matches Err(e) && e@ matches PluginErrorView::ScriptError(m)
                && "Could not load module: "@.is_prefix_of(m),
            Ok(()) => match on_load {
                Some(Err(_)) => r matches Err(e) && e@ matches PluginErrorView::ScriptError(m)
                    && "Error while executing onLoad function: "@.is_prefix_of(m),
                _ => r is Ok,
            },
        },
{
    match chunk {
        Err(e) => Err(PluginError::ScriptError(concat("Could not load module: ", error_details(&e).as_str()))),
        Ok(()) => match on_load {
            Some(Err(e)) => Err(
                PluginError::ScriptError(concat("Error while executing onLoad function: ", error_details(&e).as_str())),
            ),
            _ => Ok(()),
        },
    }
}

/// A plugin: its information, its state and whether the user enabled it.
pub struct Plugin<E> {
    enabled: bool,
    pub state: PluginState<E>,
    pub info: PluginInfo,
    lua: Arc<mlua::Lua>,
    /// The runs of the plugin's script so far, oldest first.
    runs: Ghost<Seq<ScriptRun>>,
}

impl<E> Plugin<E> {
    /// Whether the plugin is enabled.
    pub closed spec fn spec_is_enabled(&self) -> bool {
        self.enabled
    }

    /// The state the plugin is in.
    pub closed spec fn spec_state(&self) -> PluginState<E> {
        self.state
    }

    /// The information of the plugin.
    pub closed spec fn spec_info(&self) -> PluginInfo {
        self.info
    }

    /// The runs of the plugin's script so far, oldest first: its main chunk and each of its
    /// functions that the plugin called.
    pub closed spec fn spec_runs(&self) -> Seq<ScriptRun> {
        self.runs@
    }

    /// The Lua state the plugin's scripts run in.
    pub closed spec fn runtime(&self) -> Arc<mlua::Lua> {
        self.lua
    }

    /// Create a new Plugin instance from the plugin info.
    ///
    /// This function only creates the plugin struct and doesn't load the actual plugin
    /// into memory.
    ///
    /// To load the plugin into memory use [`Plugin::load`].
    pub fn new(lua: Arc<mlua::Lua>, info: PluginInfo) -> (p: Self)
        ensures
            p.spec_state() is Unloaded,
            !p.is_enabled(),
            p.spec_info() == info,
            p.runtime() == lua,
            p.spec_runs() == Seq::<ScriptRun>::empty(),
    {
        Plugin { info, state: PluginState::Unloaded, enabled: false, lua, runs: Ghost(Seq::empty()) }
    }

    fn set_error(&mut self, e: PluginError) -> (r: PluginError)
        ensures
            r@ == e@,
            final(self).spec_state().error_view() == Some(e@),
            final(self).spec_info() == old(self).spec_info(),
            final(self).is_enabled() == old(self).is_enabled(),
            final(self).runtime() == old(self).runtime(),
            final(self).spec_runs() == old(self).spec_runs(),
    {
        let r = e.duplicate();
        self.state = PluginState::Error(e);
        r
    }

    /// Load the plugin.
    ///
    /// This method will load the plugin into memory, create its environment and execute the plugin's
    /// main file.
    pub fn load<F>(&mut self, main_file: MainFile, make_environment: F) -> (r: Result<(), PluginError>) where
        F: FnOnce() -> Result<(E, mlua::OwnedTable), mlua::Error>,

        requires
            make_environment.requires(()),
        ensures
            loaded(*old(self), *final(self), main_file, make_environment, r),
    {
        let source = match main_source(main_file) {
            Ok(source) => source,
            Err(e) => return Err(self.set_error(e)),
        };

        let built = make_environment();
        let ghost built_outcome = built;
        let (environment, table) = match environment_or_error(built) {
            Ok(built) => built,
            Err(e) => {
                let r = Err(self.set_error(e));
                proof {
                    assert(make_environment.ensures((), built_outcome));
                }
                return r;
            },
        };

        let ghost before_runs = self.runs@;
        let (chunk, chunk_run) = exec_chunk(&self.lua, source.as_str(), &table);
        self.runs = Ghost(self.runs@.push(chunk_run@));
        proof {
            assert(self.runs@.subrange(0, before_runs.len() as int) =~= before_runs);
            assert(self.runs@[before_runs.len() as int] == chunk_run@);
        }
        if chunk.is_err() {
            let r = match finish_load(chunk, None) {
                Ok(()) => Ok(()),
                Err(e) => Err(self.set_error(e)),
            };
            proof {
                assert(make_environment.ensures((), built_outcome));
                assert(built_outcome == Ok::<(E, mlua::OwnedTable), mlua::Error>((environment, table)));
                assert(source_ran(source@, table, environment, r, self.state, before_runs, self.runs@));
            }
            return r;
        }

        let context = PluginContext {
            environment,
            on_load: function_field(&table, "onLoad"),
            on_unload: function_field(&table, "onUnload"),
            on_update: function_field(&table, "onUpdate"),
            on_enable: function_field(&table, "onEnable"),
            on_disable: function_field(&table, "onDisable"),
            on_install: function_field(&table, "onInstall"),
            on_uninstall: function_field(&table, "onUninstall"),
        };

        let ghost chunk_runs = self.runs@;
        let (on_load, load_runs) = run_hook(context.function(HookEvent::Load));
        self.runs = Ghost(self.runs@ + load_runs@);
        proof {
            assert(self.runs@.subrange(0, before_runs.len() as int) =~= before_runs);
            assert(self.runs@[before_runs.len() as int] == chunk_run@);
            assert(chunk_runs =~= before_runs.push(chunk_run@));
        }
        let r = match finish_load(chunk, on_load) {
            Ok(()) => {
                self.state = PluginState::Loaded(context);
                Ok(())
            },
            Err(e) => Err(self.set_error(e)),
        };
        proof {
            assert(make_environment.ensures((), built_outcome));
            assert(built_outcome == Ok::<(E, mlua::OwnedTable), mlua::Error>((environment, table)));
            if r is Err {
                assert(self.runs@.len() == before_runs.len() + 2);
                assert(self.runs@[before_runs.len() + 1int] == load_runs@[0]);
            } else {
                assert(self.runs@ == before_runs.push(self.runs@[before_runs.len() as int]) + hook_runs(
                    context.spec_function(HookEvent::Load),
                    false,
                ));
            }
            assert(source_ran(source@, table, environment, r, self.state, before_runs, self.runs@));
        }
        r
    }

    /// Unload the plugin: disable it if it is enabled, call its `onUnload` function, drop its
    /// environment and collect the Lua garbage. A plugin that is not loaded is left as it is.
    ///
    /// Neither an error of `onDisable` nor one of `onUnload` stops the unloading; an error of
    /// `onUnload` is returned once the plugin is unloaded.
    pub fn unload(&mut self) -> (r: Result<(), PluginError>)
        ensures
            unloaded(*old(self), *final(self), r),
    {
        match &self.state {
            PluginState::Loaded(_) => {},
            _ => return Ok(()),
        }

        let ghost before = *self;
        let ghost disable_raised = false;
        if self.enabled {
            // An error of the plugin's onDisable function does not stop the unloading.
            let disabling = self.disable();
            proof {
                disable_raised = disabling is Err;
            }
        }
        let ghost after_disable = self.runs@;

        let (unloading, unload_runs) = run_hook(self.hook_to_run(HookEvent::Unload));
        self.runs = Ghost(self.runs@ + unload_runs@);
        let ghost unload_raised = unloading matches Some(Err(_));

        // Dropping the context drops the plugin's environment and all functions and data
        // stored in it.
        self.state = PluginState::Unloaded;

        let r = match collect_garbage(&self.lua) {
            Ok(()) => match collect_garbage(&self.lua) {
                Ok(()) => finish_hook(unloading),
                Err(e) => Err(PluginError::ScriptError(error_details(&e))),
            },
            Err(e) => Err(PluginError::ScriptError(error_details(&e))),
        };
        proof {
            assert(after_disable == before.spec_runs() + hook_runs(
                pending_hook(before, HookEvent::Disable),
                disable_raised,
            ));
            assert(self.runs@ == before.spec_runs() + hook_runs(pending_hook(before, HookEvent::Disable), disable_raised)
                + hook_runs(pending_hook(before, HookEvent::Unload), unload_raised));
        }
        r
    }

    /// Unload the plugin and load it again.
    pub fn reload<F>(&mut self, main_file: MainFile, make_environment: F) -> (r: Result<(), PluginError>) where
        F: FnOnce() -> Result<(E, mlua::OwnedTable), mlua::Error>,

        requires
            make_environment.requires(()),
        ensures
            reloaded(*old(self), *final(self), main_file, make_environment, r),
    {
        match self.unload() {
            Ok(()) => {},
            Err(e) => return Err(e),
        }
        self.load(main_file, make_environment)
    }

    /// Disable the plugin and call its `onDisable` function.
    ///
    /// A plugin that is not enabled, or is not loaded, is left as it is.
    pub fn disable(&mut self) -> (r: Result<(), PluginError>)
        ensures
            disabled(*old(self), *final(self), r),
    {
        if !self.enabled {
            return Ok(());
        }
        let (called, disable_runs) = match &self.state {
            PluginState::Loaded(context) => {
                self.enabled = false;
                run_hook(context.function(HookEvent::Disable))
            },
            _ => (None, Ghost(Seq::empty())),
        };
        self.runs = Ghost(self.runs@ + disable_runs@);
        let r = finish_hook(called);
        assert(hook_reported(called, r));
        r
    }

    /// Enable the plugin and call its `onEnable` function.
    ///
    /// Only a loaded plugin can be enabled; enabling an enabled plugin changes nothing.
    pub fn enable(&mut self) -> (r: Result<(), PluginError>)
        ensures
            enabled(*old(self), *final(self), r),
    {
        if self.enabled {
            return Ok(());
        }
        let (called, enable_runs) = match &self.state {
            PluginState::Loaded(context) => {
                self.enabled = true;
                run_hook(context.function(HookEvent::Enable))
            },
            _ => {
                return Err(PluginError::NotLoaded);
            },
        };
        self.runs = Ghost(self.runs@ + enable_runs@);
        let r = finish_hook(called);
        assert(hook_reported(called, r));
        r
    }

    /// Call the plugin's `onUpdate` function; the plugin must be enabled.
    pub fn on_update(&mut self) -> (r: Result<(), PluginError>)
        ensures
            updated(*old(self), *final(self), r),
    {
        if !self.enabled {
            return Err(PluginError::NotEnabledError);
        }
        let (called, update_runs) = run_hook(self.hook_to_run(HookEvent::Update));
        self.runs = Ghost(self.runs@ + update_runs@);
        let r = finish_hook(called);
        assert(hook_reported(called, r));
        r
    }

    /// Call the plugin's `onInstall` function, once the plugin was installed and loaded.
    /// A plugin that is not loaded, or defines no `onInstall`, is not called.
    pub fn on_install(&mut self) -> (r: Result<(), PluginError>)
        ensures
            hook_ran(*old(self), *final(self), HookEvent::Install, r),
    {
        let (called, install_runs) = run_hook(self.hook_to_run(HookEvent::Install));
        self.runs = Ghost(self.runs@ + install_runs@);
        let r = finish_hook(called);
        assert(hook_reported(called, r));
        r
    }

    /// Call the plugin's `onUninstall` function, as the plugin is being uninstalled.
    /// A plugin that is not loaded, or defines no `onUninstall`, is not called.
    pub fn on_uninstall(&mut self) -> (r: Result<(), PluginError>)
        ensures
            hook_ran(*old(self), *final(self), HookEvent::Uninstall, r),
    {
        let (called, uninstall_runs) = run_hook(self.hook_to_run(HookEvent::Uninstall));
        self.runs = Ghost(self.runs@ + uninstall_runs@);
        let r = finish_hook(called);
        assert(hook_reported(called, r));
        r
    }

    /// The script function that `event` runs on this plugin in its current state, if any.
    pub fn hook_to_run(&self, event: HookEvent) -> (f: Option<&mlua::OwnedFunction>)
        ensures
            same_function(f, pending_hook(*self, event)),
    {
        match &self.state {
            PluginState::Loaded(context) => match event {
                HookEvent::Enable => if self.enabled {
                    None
                } else {
                    context.function(event)
                },
                HookEvent::Disable => if self.enabled {
                    context.function(event)
                } else {
                    None
                },
                HookEvent::Update => if self.enabled {
                    context.function(event)
                } else {
                    None
                },
                _ => context.function(event),
            },
            _ => None,
        }
    }

    pub fn info(&self) -> (r: &PluginInfo)
        ensures
            *r == self.spec_info(),
    {
        &self.info
    }

    /// The state the plugin is in.
    pub fn state(&self) -> (r: &PluginState<E>)
        ensures
            *r == self.spec_state(),
    {
        &self.state
    }

    /// Whether the plugin is enabled.
    #[verifier::when_used_as_spec(spec_is_enabled)]
    pub fn is_enabled(&self) -> (b: bool)
        ensures
            b == self.spec_is_enabled(),
    {
        self.enabled
    }

    /// The plugin as the plugin manager reports it.
    pub fn to_data(&self) -> (r: data::Plugin)
        ensures
            r.enabled == self.is_enabled(),
            state_reported(self.spec_state(), r.state),
            r.info@ == self.spec_info()@,
    {
        data::Plugin { enabled: self.enabled, state: self.state.to_data(), info: self.info.duplicate() }
    }
}

/// `after` is `before` once [`Plugin::load`] returned `r`, given the main file and the
/// environment builder it was handed: the state changes, and the script runs as
/// [`load_outcome`] says.
pub open spec fn loaded<E, F: FnOnce() -> Result<(E, mlua::OwnedTable), mlua::Error>>(
    before: Plugin<E>,
    after: Plugin<E>,
    main_file: MainFile,
    make_environment: F,
    r: Result<(), PluginError>,
) -> bool {
    &&& after.spec_info() == before.spec_info()
    &&& after.is_enabled() == before.is_enabled()
    &&& after.runtime() == before.runtime()
    &&& load_outcome(main_file, make_environment, r, after.spec_state(), before.spec_runs(), after.spec_runs())
}

/// `after` is `before` once [`Plugin::unload`] returned `r`: a loaded plugin ends up unloaded
/// and disabled, having run its `onDisable` if it was enabled and then its `onUnload`, and an
/// error of `onUnload` is reported; any other plugin is left as it is and runs nothing.
pub open spec fn unloaded<E>(before: Plugin<E>, after: Plugin<E>, r: Result<(), PluginError>) -> bool {
    &&& after.spec_info() == before.spec_info()
    &&& after.runtime() == before.runtime()
    &&& !(before.spec_state() is Loaded) ==> r is Ok && after.spec_state() == before.spec_state()
        && after.is_enabled() == before.is_enabled() && after.spec_runs() == before.spec_runs()
    &&& before.spec_state() is Loaded ==> {
        &&& after.spec_state() is Unloaded
        &&& !after.is_enabled()
        &&& exists|disable_raised: bool, unload_raised: bool| {
            &&& after.spec_runs() == before.spec_runs() + hook_runs(
                pending_hook(before, HookEvent::Disable),
                disable_raised,
            ) + hook_runs(pending_hook(before, HookEvent::Unload), unload_raised)
            &&& (pending_hook(before, HookEvent::Unload) is Some && unload_raised) ==> r is Err
        }
    }
    &&& (r matches Err(e) ==> e@ is ScriptError)
}

/// `after` is `before` once [`Plugin::reload`] returned `r`: the plugin was unloaded as
/// [`Plugin::unload`] does; if that failed, its error is returned, otherwise the plugin was
/// loaded again as [`Plugin::load`] does.
pub open spec fn reloaded<E, F: FnOnce() -> Result<(E, mlua::OwnedTable), mlua::Error>>(
    before: Plugin<E>,
    after: Plugin<E>,
    main_file: MainFile,
    make_environment: F,
    r: Result<(), PluginError>,
) -> bool {
    exists|between: Plugin<E>, unloading: Result<(), PluginError>| {
        &&& unloaded(before, between, unloading)
        &&& match unloading {
            Err(e) => after == between && r == Err::<(), PluginError>(e),
            Ok(()) => loaded(between, after, main_file, make_environment, r),
        }
    }
}

/// `after` is `before` once [`Plugin::disable`] returned `r`: an enabled, loaded plugin ends
/// up disabled, having run its `onDisable`; any other plugin is left as it is. An error comes
/// exactly when `onDisable` raised one.
pub open spec fn disabled<E>(before: Plugin<E>, after: Plugin<E>, r: Result<(), PluginError>) -> bool {
    &&& after.spec_info() == before.spec_info()
    &&& after.spec_state() == before.spec_state()
    &&& after.runtime() == before.runtime()
    &&& ran_pending(before, after, HookEvent::Disable, r is Err)
    &&& !(before.is_enabled() && before.spec_state() is Loaded) ==> r is Ok
        && after.is_enabled() == before.is_enabled()
    &&& before.is_enabled() && before.spec_state() is Loaded ==> !after.is_enabled()
        && hook_run_reported(before, HookEvent::Disable, r)
    &&& (before.spec_state() matches PluginState::Loaded(context) && !context.spec_hooks().on_disable
        ==> r is Ok)
    &&& (r matches Err(e) ==> e@ is ScriptError)
}

/// `after` is `before` once [`Plugin::enable`] returned `r`: a loaded plugin ends up
/// enabled, having run its `onEnable` if it was not enabled yet; a plugin that is neither
/// enabled nor loaded is refused with `NotLoaded`. Otherwise an error comes exactly when
/// `onEnable` raised one.
pub open spec fn enabled<E>(before: Plugin<E>, after: Plugin<E>, r: Result<(), PluginError>) -> bool {
    &&& after.spec_info() == before.spec_info()
    &&& after.spec_state() == before.spec_state()
    &&& after.runtime() == before.runtime()
    &&& ran_pending(before, after, HookEvent::Enable, r is Err)
    &&& before.is_enabled() ==> r is Ok && after.is_enabled()
    &&& !before.is_enabled() && before.spec_state() is Loaded ==> after.is_enabled()
        && hook_run_reported(before, HookEvent::Enable, r)
    &&& !before.is_enabled() && !(before.spec_state() is Loaded) ==> (r matches Err(e)
        && e@ is NotLoaded) && !after.is_enabled()
    &&& (before.spec_state() matches PluginState::Loaded(context) && !before.is_enabled()
        && !context.spec_hooks().on_enable ==> r is Ok)
    &&& (r matches Err(e) ==> e@ is ScriptError || e@ is NotLoaded)
}

/// `after` is `before` once [`Plugin::on_update`] returned `r`: a disabled plugin is refused
/// with `NotEnabledError` and runs nothing; an enabled one runs its `onUpdate`, and an error
/// comes exactly when that raised one. Nothing but the record of runs changes.
pub open spec fn updated<E>(before: Plugin<E>, after: Plugin<E>, r: Result<(), PluginError>) -> bool {
    &&& after.spec_info() == before.spec_info()
    &&& after.spec_state() == before.spec_state()
    &&& after.is_enabled() == before.is_enabled()
    &&& after.runtime() == before.runtime()
    &&& !before.is_enabled() ==> (r matches Err(e) && e@ is NotEnabledError) && after.spec_runs()
        == before.spec_runs()
    &&& before.is_enabled() ==> ran_pending(before, after, HookEvent::Update, r is Err)
        && hook_run_reported(before, HookEvent::Update, r)
    &&& (before.spec_state() matches PluginState::Loaded(context) && before.is_enabled()
        && !context.spec_hooks().on_update ==> r is Ok)
}

/// `after` is `before` once an operation that only runs the script function of `event`
/// returned `r` ([`Plugin::on_install`], [`Plugin::on_uninstall`]): the function ran, if
/// there is one, an error comes exactly when it raised one, and nothing else changed.
pub open spec fn hook_ran<E>(before: Plugin<E>, after: Plugin<E>, event: HookEvent, r: Result<(), PluginError>) -> bool {
    &&& after.spec_info() == before.spec_info()
    &&& after.spec_state() == before.spec_state()
    &&& after.is_enabled() == before.is_enabled()
    &&& after.runtime() == before.runtime()
    &&& ran_pending(before, after, event, r is Err)
    &&& hook_run_reported(before, event, r)
}

/// The script runs of `after` are those of `before` followed by the run of the function
/// that `event` runs on `before`, if there is one; `raised` tells whether it raised.
pub open spec fn ran_pending<E>(before: Plugin<E>, after: Plugin<E>, event: HookEvent, raised: bool) -> bool {
    after.spec_runs() == before.spec_runs() + hook_runs(pending_hook(before, event), raised)
}

/// The script function that `event` runs on `plugin` in its current state, if any: a loaded
/// plugin runs `onEnable` only when it is not enabled yet, `onDisable` and `onUpdate` only
/// when it is enabled, and its other functions on their events.
pub open spec fn pending_hook<E>(plugin: Plugin<E>, event: HookEvent) -> Option<mlua::OwnedFunction> {
    match plugin.spec_state() {
        PluginState::Loaded(context) => match event {
            HookEvent::Enable => if plugin.is_enabled() { None } else { context.spec_function(event) },
            HookEvent::Disable => if plugin.is_enabled() { context.spec_function(event) } else { None },
            HookEvent::Update => if plugin.is_enabled() { context.spec_function(event) } else { None },
            _ => context.spec_function(event),
        },
        _ => None,
    }
}

/// What an operation that runs the script function of `event` on `plugin` reports: with no
/// pending function it succeeds; otherwise it fails only when that function raised, with a
/// script error. (The step that finds the function is [`Plugin::hook_to_run`], the one that
/// maps what it returned is [`finish_hook`].)
pub open spec fn hook_run_reported<E>(plugin: Plugin<E>, event: HookEvent, r: Result<(), PluginError>) -> bool {
    &&& pending_hook(plugin, event) is None ==> r is Ok
    &&& (r matches Err(e) ==> e@ is ScriptError)
}

/// Enabling a loaded plugin and then disabling it leaves it disabled, with its
/// state and information as they were.
pub proof fn lemma_enable_then_disable<E>(
    plugin: Plugin<E>,
    after_enable: Plugin<E>,
    after_disable: Plugin<E>,
    enable_result: Result<(), PluginError>,
    disable_result: Result<(), PluginError>,
)
    requires
        plugin.spec_state() is Loaded,
        enabled(plugin, after_enable, enable_result),
        disabled(after_enable, after_disable, disable_result),
    ensures
        after_enable.is_enabled(),
        !after_disable.is_enabled(),
        after_disable.spec_state() == plugin.spec_state(),
        after_disable.spec_info() == plugin.spec_info(),
{
}

/// Enabling an enabled plugin succeeds and changes nothing.
pub proof fn lemma_enable_idempotent<E>(plugin: Plugin<E>, after: Plugin<E>, r: Result<(), PluginError>)
    requires
        plugin.is_enabled(),
        enabled(plugin, after, r),
    ensures
        r is Ok,
        after.is_enabled(),
        after.spec_state() == plugin.spec_state(),
        after.spec_info() == plugin.spec_info(),
{
}

/// Disabling a plugin a second time succeeds and changes nothing.
pub proof fn lemma_disable_idempotent<E>(
    plugin: Plugin<E>,
    once: Plugin<E>,
    twice: Plugin<E>,
    first: Result<(), PluginError>,
    second: Result<(), PluginError>,
)
    requires
        disabled(plugin, once, first),
        disabled(once, twice, second),
    ensures
        second is Ok,
        twice.is_enabled() == once.is_enabled(),
        twice.spec_state() == once.spec_state(),
        twice.spec_info() == once.spec_info(),
{
}

/// The `onUpdate` of a disabled plugin is never run: the update is refused and the plugin's
/// script does not run.
pub proof fn lemma_disabled_plugin_not_updated<E>(plugin: Plugin<E>, after: Plugin<E>, r: Result<(), PluginError>)
    requires
        !plugin.is_enabled(),
        updated(plugin, after, r),
    ensures
        r matches Err(e) && e@ is NotEnabledError,
        after.spec_runs() == plugin.spec_runs(),
{
}

/// Once a loaded plugin is unloaded, it can't be enabled until it is loaded again.
pub proof fn lemma_unloaded_plugin_cannot_be_enabled<E>(
    plugin: Plugin<E>,
    after_unload: Plugin<E>,
    after_enable: Plugin<E>,
    unload_result: Result<(), PluginError>,
    enable_result: Result<(), PluginError>,
)
    requires
        plugin.spec_state() is Loaded,
        unloaded(plugin, after_unload, unload_result),
        enabled(after_unload, after_enable, enable_result),
    ensures
        enable_result matches Err(e) && e@ is NotLoaded,
        !after_enable.is_enabled(),
        after_enable.spec_state() is Unloaded,
{
}

/// How the plugin manager reports whether a loaded plugin defines an optional function.
pub open spec fn hook_presence_text(defined: bool) -> Seq<char> {
    if defined { "set"@ } else { "unset"@ }
}

/// How the plugin manager reports whether a loaded plugin defines an optional function.
pub fn optional_lua_function_to_string(defined: bool) -> (r: &'static str)
    ensures
        r@ == hook_presence_text(defined),
{
    if defined { "set" } else { "unset" }
}

} // verus!
