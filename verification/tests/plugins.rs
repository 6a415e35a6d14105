use std::sync::Arc;

use futurecop_mod::data::plugin::{PluginError, PluginInfo, PluginInfoContent, PluginState as ReportedState};
use futurecop_mod::named_map::NamedMap;
use futurecop_mod::plugins::plugin::{
    discover_main_file, environment_or_error, finish_hook, finish_load, main_source, optional_lua_function_to_string,
    DirectoryFile, HookEvent, MainFile, Plugin, PluginState,
};
use futurecop_mod::plugins::plugin_manager::{
    PersistentPluginState, PersistentPluginStates, PluginInstallError, PluginManager, PluginManagerError,
};

const SCRIPT: &str = r#"
loads = 0
function onLoad() loads = loads + 1 end
function onEnable() end
function onDisable() end
function onUpdate() undefined_function() end
"#;

fn info(name: &str) -> PluginInfo {
    PluginInfo::from_content(
        format!("/plugins/{}", name.to_lowercase()),
        PluginInfoContent {
            name: name.to_string(),
            authors: vec!["Someone".to_string()],
            version: "0.1.0".to_string(),
            dependencies: vec![],
            description: "A test plugin".to_string(),
        },
    )
}

type Environment = ();

fn environment(lua: &Arc<mlua::Lua>) -> impl FnOnce() -> Result<(Environment, mlua::OwnedTable), mlua::Error> + '_ {
    move || Ok(((), lua.create_table()?.into_owned()))
}

fn loaded_plugin(lua: &Arc<mlua::Lua>) -> Plugin<Environment> {
    let mut plugin = Plugin::new(lua.clone(), info("Test"));
    plugin.load(MainFile::Source(SCRIPT.to_string()), environment(lua)).unwrap();
    plugin
}

fn file(stem: Option<&str>, extension: Option<&str>) -> DirectoryFile {
    DirectoryFile { stem: stem.map(|s| s.to_string()), extension: extension.map(|s| s.to_string()) }
}

#[test]
fn main_file_discovery() {
    let files = vec![
        file(Some("info"), Some("toml")),
        file(Some("main"), Some("txt")),
        file(None, Some("lua")),
        file(Some("main"), Some("luau")),
        file(Some("main"), Some("lua")),
    ];
    assert_eq!(discover_main_file(&files), Some(3));
    assert_eq!(discover_main_file(&vec![file(Some("info"), Some("toml"))]), None);
    assert_eq!(discover_main_file(&vec![file(Some("main"), Some("lua"))]), Some(0));
    assert_eq!(discover_main_file(&vec![file(Some("main"), None)]), None);
}

#[test]
fn new_plugin_is_unloaded_and_disabled() {
    let lua = Arc::new(mlua::Lua::new());
    let plugin: Plugin<Environment> = Plugin::new(lua, info("Test"));
    assert!(!plugin.is_enabled());
    assert!(matches!(plugin.state(), PluginState::Unloaded));
    assert_eq!(plugin.info().name, "Test");
}

#[test]
fn load_without_main_file() {
    let lua = Arc::new(mlua::Lua::new());
    let mut plugin: Plugin<Environment> = Plugin::new(lua.clone(), info("Test"));
    let r = plugin.load(MainFile::NotFound, environment(&lua));
    assert!(matches!(r, Err(PluginError::NoMainFile)));
    assert!(matches!(plugin.state(), PluginState::Error(PluginError::NoMainFile)));
}

#[test]
fn load_with_unreadable_main_file() {
    let lua = Arc::new(mlua::Lua::new());
    let mut plugin: Plugin<Environment> = Plugin::new(lua.clone(), info("Test"));
    let r = plugin.load(MainFile::Unreadable("permission denied".to_string()), environment(&lua));
    match r {
        Err(PluginError::Error(m)) => assert_eq!(m, "Error while reading the main file: permission denied"),
        other => panic!("unexpected {:?}", other),
    }
}

#[test]
fn load_with_broken_script() {
    let lua = Arc::new(mlua::Lua::new());
    let mut plugin: Plugin<Environment> = Plugin::new(lua.clone(), info("Test"));
    let r = plugin.load(MainFile::Source("function (".to_string()), environment(&lua));
    match r {
        Err(PluginError::ScriptError(m)) => assert!(m.starts_with("Could not load module: ")),
        other => panic!("unexpected {:?}", other),
    }
    assert!(matches!(plugin.state(), PluginState::Error(PluginError::ScriptError(_))));
}

#[test]
fn load_with_failing_environment() {
    let lua = Arc::new(mlua::Lua::new());
    let mut plugin: Plugin<Environment> = Plugin::new(lua.clone(), info("Test"));
    let failing = || -> Result<(Environment, mlua::OwnedTable), mlua::Error> {
        Err(mlua::Error::RuntimeError("no environment".to_string()))
    };
    match plugin.load(MainFile::Source(SCRIPT.to_string()), failing) {
        Err(PluginError::Error(m)) => assert!(m.starts_with("Could not create mod environment: ")),
        other => panic!("unexpected {:?}", other),
    }
}

#[test]
fn load_with_failing_on_load() {
    let lua = Arc::new(mlua::Lua::new());
    let mut plugin: Plugin<Environment> = Plugin::new(lua.clone(), info("Test"));
    let r = plugin.load(MainFile::Source("function onLoad() missing() end".to_string()), environment(&lua));
    match r {
        Err(PluginError::ScriptError(m)) => assert!(m.starts_with("Error while executing onLoad function: ")),
        other => panic!("unexpected {:?}", other),
    }
}

#[test]
fn loaded_plugin_reports_its_functions() {
    let lua = Arc::new(mlua::Lua::new());
    let plugin = loaded_plugin(&lua);
    match plugin.state() {
        PluginState::Loaded(context) => {
            let hooks = context.hooks();
            assert!(hooks.on_load && hooks.on_enable && hooks.on_disable && hooks.on_update);
            assert!(!hooks.on_unload && !hooks.on_install && !hooks.on_uninstall);
        },
        _ => panic!("plugin is not loaded"),
    }
    let reported = plugin.to_data();
    assert!(!reported.enabled);
    assert!(matches!(reported.state, ReportedState::Loaded(h) if h.on_update && !h.on_unload));
    assert_eq!(reported.info.name, "Test");
    assert_eq!(optional_lua_function_to_string(true), "set");
    assert_eq!(optional_lua_function_to_string(false), "unset");
}

#[test]
fn enable_then_disable() {
    let lua = Arc::new(mlua::Lua::new());
    let mut plugin = loaded_plugin(&lua);
    assert!(plugin.enable().is_ok());
    assert!(plugin.is_enabled());
    assert!(plugin.disable().is_ok());
    assert!(!plugin.is_enabled());
    assert!(matches!(plugin.state(), PluginState::Loaded(_)));
}

#[test]
fn enable_is_idempotent() {
    let lua = Arc::new(mlua::Lua::new());
    let mut plugin = loaded_plugin(&lua);
    plugin.enable().unwrap();
    assert!(plugin.enable().is_ok());
    assert!(plugin.is_enabled());
}

#[test]
fn disable_twice_changes_nothing() {
    let lua = Arc::new(mlua::Lua::new());
    let mut plugin = loaded_plugin(&lua);
    plugin.enable().unwrap();
    plugin.disable().unwrap();
    assert!(plugin.disable().is_ok());
    assert!(!plugin.is_enabled());
}

#[test]
fn disabled_plugin_is_not_updated() {
    let lua = Arc::new(mlua::Lua::new());
    let mut plugin = loaded_plugin(&lua);
    assert!(matches!(plugin.on_update(), Err(PluginError::NotEnabledError)));
}

#[test]
fn failing_on_update_is_a_script_error() {
    let lua = Arc::new(mlua::Lua::new());
    let mut plugin = loaded_plugin(&lua);
    plugin.enable().unwrap();
    assert!(matches!(plugin.on_update(), Err(PluginError::ScriptError(_))));
}

#[test]
fn unloaded_plugin_cannot_be_enabled() {
    let lua = Arc::new(mlua::Lua::new());
    let mut plugin = loaded_plugin(&lua);
    plugin.enable().unwrap();
    assert!(plugin.unload().is_ok());
    assert!(!plugin.is_enabled());
    assert!(matches!(plugin.state(), PluginState::Unloaded));
    assert!(matches!(plugin.enable(), Err(PluginError::NotLoaded)));
    assert!(!plugin.is_enabled());
}

#[test]
fn reload_keeps_plugin_loaded() {
    let lua = Arc::new(mlua::Lua::new());
    let mut plugin = loaded_plugin(&lua);
    plugin.enable().unwrap();
    assert!(plugin.reload(MainFile::Source(SCRIPT.to_string()), environment(&lua)).is_ok());
    assert!(matches!(plugin.state(), PluginState::Loaded(_)));
    assert!(!plugin.is_enabled());
}

fn manager(lua: &Arc<mlua::Lua>, states: NamedMap<PersistentPluginState>) -> PluginManager<Environment> {
    PluginManager::new(
        lua.clone(),
        "/plugins".to_string(),
        PersistentPluginStates::new("/plugins/plugins.json".to_string(), states),
    )
}

#[test]
fn persistent_states_read_back() {
    let mut states = PersistentPluginStates::new("states.json".to_string(), NamedMap::new());
    assert_eq!(states.get_state("a"), None);
    states.insert("a", PersistentPluginState::Enabled);
    assert_eq!(states.get_state("a"), Some(PersistentPluginState::Enabled));
    states.insert("a", PersistentPluginState::Disabled);
    assert_eq!(states.get_state("a"), Some(PersistentPluginState::Disabled));
    states.remove("a");
    assert_eq!(states.get_state("a"), None);
    assert_eq!(states.path, "states.json");
}

#[test]
fn starting_a_plugin_persisted_as_enabled_enables_it() {
    let lua = Arc::new(mlua::Lua::new());
    let mut states = NamedMap::new();
    states.insert("Test".to_string(), PersistentPluginState::Enabled);
    let mut m = manager(&lua, states);
    assert!(m.add_discovered_plugin(info("Test")));
    assert!(!m.add_discovered_plugin(info("Test")));
    assert!(m.start_plugin("Test", MainFile::Source(SCRIPT.to_string()), environment(&lua)).is_ok());
    assert!(m.get_plugins().get("Test").unwrap().is_enabled());
    assert_eq!(m.persistent_state("Test"), Some(PersistentPluginState::Enabled));
}

#[test]
fn starting_a_new_plugin_persists_it_as_disabled() {
    let lua = Arc::new(mlua::Lua::new());
    let mut m = manager(&lua, NamedMap::new());
    m.add_discovered_plugin(info("Fresh"));
    assert!(m.start_plugin("Fresh", MainFile::Source(SCRIPT.to_string()), environment(&lua)).is_ok());
    assert!(!m.get_plugins().get("Fresh").unwrap().is_enabled());
    assert_eq!(m.persistent_state("Fresh"), Some(PersistentPluginState::Disabled));
    assert!(matches!(
        m.start_plugin("Unknown", MainFile::NotFound, environment(&lua)),
        Err(PluginManagerError::PluginNotFound)
    ));
}

#[test]
fn manager_enable_and_disable_persist() {
    let lua = Arc::new(mlua::Lua::new());
    let mut m = manager(&lua, NamedMap::new());
    m.add_discovered_plugin(info("Test"));
    m.load_plugin("Test", MainFile::Source(SCRIPT.to_string()), environment(&lua)).unwrap();
    assert_eq!(m.persistent_state("Test"), Some(PersistentPluginState::Disabled));
    m.enable_plugin("Test").unwrap();
    assert_eq!(m.persistent_state("Test"), Some(PersistentPluginState::Enabled));
    assert!(m.get_plugins().get("Test").unwrap().is_enabled());
    m.disable_plugin("Test").unwrap();
    assert_eq!(m.persistent_state("Test"), Some(PersistentPluginState::Disabled));
    assert!(!m.get_plugins().get("Test").unwrap().is_enabled());
    m.unload_plugin("Test").unwrap();
    assert_eq!(m.persistent_state("Test"), Some(PersistentPluginState::Unloaded));
}

#[test]
fn enabling_an_unloaded_plugin_is_refused_and_not_persisted() {
    let lua = Arc::new(mlua::Lua::new());
    let mut m = manager(&lua, NamedMap::new());
    m.add_discovered_plugin(info("Test"));
    assert!(matches!(m.enable_plugin("Test"), Err(PluginManagerError::Plugin(PluginError::NotLoaded))));
    assert_eq!(m.persistent_state("Test"), None);
}

#[test]
fn operations_on_unknown_plugins() {
    let lua = Arc::new(mlua::Lua::new());
    let mut m = manager(&lua, NamedMap::new());
    assert!(matches!(m.enable_plugin("x"), Err(PluginManagerError::PluginNotFound)));
    assert!(matches!(m.disable_plugin("x"), Err(PluginManagerError::PluginNotFound)));
    assert!(matches!(m.unload_plugin("x"), Err(PluginManagerError::PluginNotFound)));
    assert!(matches!(m.load_plugin("x", MainFile::NotFound, environment(&lua)), Err(PluginManagerError::PluginNotFound)));
    assert!(matches!(
        m.reload_plugin("x", MainFile::NotFound, environment(&lua)),
        Err(PluginManagerError::PluginNotFound)
    ));
    assert!(matches!(m.uninstall_plugin("x"), Err(PluginManagerError::PluginNotFound)));
    assert_eq!(m.get_plugins().len(), 0);
}

#[test]
fn uninstalled_plugin_is_gone() {
    let lua = Arc::new(mlua::Lua::new());
    let mut m = manager(&lua, NamedMap::new());
    m.add_discovered_plugin(info("Test"));
    m.load_plugin("Test", MainFile::Source(SCRIPT.to_string()), environment(&lua)).unwrap();
    m.enable_plugin("Test").unwrap();
    assert_eq!(m.uninstall_plugin("Test").unwrap(), "/plugins/test");
    assert!(!m.get_plugins().contains_key("Test"));
    assert_eq!(m.persistent_state("Test"), None);
    assert!(matches!(m.enable_plugin("Test"), Err(PluginManagerError::PluginNotFound)));
}

#[test]
fn update_reports_failing_plugins() {
    let lua = Arc::new(mlua::Lua::new());
    let mut m = manager(&lua, NamedMap::new());
    m.add_discovered_plugin(info("Bad"));
    m.add_discovered_plugin(info("Quiet"));
    m.load_plugin("Bad", MainFile::Source(SCRIPT.to_string()), environment(&lua)).unwrap();
    m.load_plugin("Quiet", MainFile::Source("function onUpdate() end".to_string()), environment(&lua)).unwrap();
    assert!(m.on_update().is_empty());
    m.enable_plugin("Bad").unwrap();
    m.enable_plugin("Quiet").unwrap();
    let reports = m.on_update();
    assert_eq!(reports.len(), 2);
    assert_eq!(reports[0].plugin, "Bad");
    assert!(matches!(reports[0].result, Err(PluginError::ScriptError(_))));
    assert_eq!(reports[1].plugin, "Quiet");
    assert!(reports[1].result.is_ok());
    m.add_discovered_plugin(info("Unloaded"));
    assert_eq!(m.on_update().len(), 2);
}

#[test]
fn installation_checks() {
    let lua = Arc::new(mlua::Lua::new());
    let mut m = manager(&lua, NamedMap::new());
    assert_eq!(m.prepare_installation(&info("My Plugin.v2")).unwrap(), "my_plugin-v2");
    assert!(matches!(m.prepare_installation(&info("Plügin")), Err(PluginInstallError::InvalidName)));
    assert!(matches!(m.prepare_installation(&info("a/b")), Err(PluginInstallError::InvalidName)));
    m.add_discovered_plugin(info("Test"));
    assert!(matches!(m.prepare_installation(&info("Test")), Err(PluginInstallError::AlreadyInstalled)));
}

#[test]
fn installed_plugin_is_loaded_and_disabled() {
    let lua = Arc::new(mlua::Lua::new());
    let mut m = manager(&lua, NamedMap::new());
    let r = m.install_plugin_from_folder(info("New"), MainFile::Source(SCRIPT.to_string()), environment(&lua));
    assert!(r.is_ok());
    let plugin = m.get_plugins().get("New").unwrap();
    assert!(matches!(plugin.state(), PluginState::Loaded(_)));
    assert!(!plugin.is_enabled());
    assert_eq!(m.persistent_state("New"), Some(PersistentPluginState::Disabled));
    let broken = m.install_plugin_from_folder(info("Broken"), MainFile::NotFound, environment(&lua));
    assert!(matches!(broken, Err(PluginInstallError::Plugin(PluginError::NoMainFile))));
    assert!(m.get_plugins().contains_key("Broken"));
}

#[test]
fn failing_on_unload_still_unloads() {
    let lua = Arc::new(mlua::Lua::new());
    let mut plugin: Plugin<Environment> = Plugin::new(lua.clone(), info("Test"));
    plugin
        .load(MainFile::Source("function onEnable() end function onUnload() missing() end".to_string()), environment(&lua))
        .unwrap();
    plugin.enable().unwrap();
    assert!(matches!(plugin.unload(), Err(PluginError::ScriptError(_))));
    assert!(matches!(plugin.state(), PluginState::Unloaded));
    assert!(!plugin.is_enabled());
    assert!(plugin.unload().is_ok());
}

#[test]
fn install_survives_failing_on_install() {
    let lua = Arc::new(mlua::Lua::new());
    let mut m = manager(&lua, NamedMap::new());
    let script = "function onInstall() missing() end".to_string();
    let r = m.install_plugin_from_folder(info("Installer"), MainFile::Source(script), environment(&lua));
    assert!(r.is_ok());
    let plugin = m.get_plugins().get("Installer").unwrap();
    assert!(matches!(plugin.state(), PluginState::Loaded(_)));
    let quiet = m.install_plugin_from_folder(
        info("Quiet"),
        MainFile::Source("function onInstall() end".to_string()),
        environment(&lua),
    );
    assert!(quiet.is_ok());
}

#[test]
fn uninstall_survives_failing_on_uninstall() {
    let lua = Arc::new(mlua::Lua::new());
    let mut m = manager(&lua, NamedMap::new());
    m.add_discovered_plugin(info("Test"));
    m.load_plugin("Test", MainFile::Source("function onUninstall() missing() end".to_string()), environment(&lua))
        .unwrap();
    assert_eq!(m.uninstall_plugin("Test").unwrap(), "/plugins/test");
    assert!(!m.get_plugins().contains_key("Test"));
}

#[test]
fn install_and_uninstall_hooks_of_unloaded_plugins_do_nothing() {
    let lua = Arc::new(mlua::Lua::new());
    let mut plugin: Plugin<Environment> = Plugin::new(lua, info("Test"));
    assert!(plugin.on_install().is_ok());
    assert!(plugin.on_uninstall().is_ok());
}

fn shared_environment(
    table: &mlua::OwnedTable,
) -> impl FnOnce() -> Result<(Environment, mlua::OwnedTable), mlua::Error> + '_ {
    move || Ok(((), table.clone()))
}

fn counter(table: &mlua::OwnedTable, name: &str) -> i64 {
    table.to_ref().get::<_, Option<i64>>(name).unwrap().unwrap_or(0)
}

const COUNTING_SCRIPT: &str = r#"
function onLoad() loads = (loads or 0) + 1 end
function onEnable() enables = (enables or 0) + 1 end
function onDisable() disables = (disables or 0) + 1 end
function onUpdate() updates = (updates or 0) + 1 end
function onUnload() unloads = (unloads or 0) + 1 end
function onInstall() installs = (installs or 0) + 1 end
function onUninstall() uninstalls = (uninstalls or 0) + 1 end
"#;

#[test]
fn starting_a_plugin_persisted_as_unloaded_leaves_it_unloaded() {
    let lua = Arc::new(mlua::Lua::new());
    let mut states = NamedMap::new();
    states.insert("Test".to_string(), PersistentPluginState::Unloaded);
    let mut m = manager(&lua, states);
    m.add_discovered_plugin(info("Test"));
    let table = lua.create_table().unwrap().into_owned();
    let r = m.start_plugin("Test", MainFile::Source(COUNTING_SCRIPT.to_string()), shared_environment(&table));
    assert!(r.is_ok());
    let plugin = m.get_plugins().get("Test").unwrap();
    assert!(matches!(plugin.state(), PluginState::Unloaded));
    assert!(!plugin.is_enabled());
    assert_eq!(m.persistent_state("Test"), Some(PersistentPluginState::Unloaded));
    assert_eq!(counter(&table, "loads"), 0);
}

#[test]
fn starting_an_enabled_plugin_runs_on_enable_once() {
    let lua = Arc::new(mlua::Lua::new());
    let mut states = NamedMap::new();
    states.insert("Test".to_string(), PersistentPluginState::Enabled);
    let mut m = manager(&lua, states);
    m.add_discovered_plugin(info("Test"));
    let table = lua.create_table().unwrap().into_owned();
    let r = m.start_plugin("Test", MainFile::Source(COUNTING_SCRIPT.to_string()), shared_environment(&table));
    assert!(r.is_ok());
    assert_eq!(counter(&table, "loads"), 1);
    assert_eq!(counter(&table, "enables"), 1);
    assert_eq!(counter(&table, "installs"), 0);
}

#[test]
fn installing_an_installed_plugin_is_refused() {
    let lua = Arc::new(mlua::Lua::new());
    let mut m = manager(&lua, NamedMap::new());
    let table = lua.create_table().unwrap().into_owned();
    let first = m.install_plugin_from_folder(
        info("Twice"),
        MainFile::Source(COUNTING_SCRIPT.to_string()),
        shared_environment(&table),
    );
    assert!(first.is_ok());
    assert_eq!(counter(&table, "installs"), 1);
    let second = m.install_plugin_from_folder(
        info("Twice"),
        MainFile::Source(COUNTING_SCRIPT.to_string()),
        shared_environment(&table),
    );
    assert!(matches!(second, Err(PluginInstallError::AlreadyInstalled)));
    assert_eq!(counter(&table, "loads"), 1);
    assert_eq!(counter(&table, "installs"), 1);
    assert!(matches!(m.get_plugins().get("Twice").unwrap().state(), PluginState::Loaded(_)));
    assert_eq!(m.persistent_state("Twice"), Some(PersistentPluginState::Disabled));
}

#[test]
fn life_cycle_functions_run_once_per_event() {
    let lua = Arc::new(mlua::Lua::new());
    let table = lua.create_table().unwrap().into_owned();
    let mut plugin: Plugin<Environment> = Plugin::new(lua.clone(), info("Counter"));
    plugin.load(MainFile::Source(COUNTING_SCRIPT.to_string()), shared_environment(&table)).unwrap();
    assert_eq!(counter(&table, "loads"), 1);
    assert!(plugin.hook_to_run(HookEvent::Enable).is_some());
    assert!(plugin.hook_to_run(HookEvent::Update).is_none());
    plugin.enable().unwrap();
    plugin.enable().unwrap();
    assert_eq!(counter(&table, "enables"), 1);
    assert!(plugin.hook_to_run(HookEvent::Enable).is_none());
    plugin.on_update().unwrap();
    assert_eq!(counter(&table, "updates"), 1);
    plugin.disable().unwrap();
    plugin.disable().unwrap();
    assert_eq!(counter(&table, "disables"), 1);
    plugin.enable().unwrap();
    plugin.unload().unwrap();
    assert_eq!(counter(&table, "disables"), 2);
    assert_eq!(counter(&table, "unloads"), 1);
    assert!(plugin.hook_to_run(HookEvent::Unload).is_none());
}

#[test]
fn uninstalling_runs_on_disable_and_on_uninstall() {
    let lua = Arc::new(mlua::Lua::new());
    let mut m = manager(&lua, NamedMap::new());
    m.add_discovered_plugin(info("Test"));
    let table = lua.create_table().unwrap().into_owned();
    m.load_plugin("Test", MainFile::Source(COUNTING_SCRIPT.to_string()), shared_environment(&table)).unwrap();
    m.enable_plugin("Test").unwrap();
    assert_eq!(m.uninstall_plugin("Test").unwrap(), "/plugins/test");
    assert_eq!(counter(&table, "disables"), 1);
    assert_eq!(counter(&table, "uninstalls"), 1);
}

#[test]
fn manager_update_runs_each_enabled_plugin() {
    let lua = Arc::new(mlua::Lua::new());
    let mut m = manager(&lua, NamedMap::new());
    m.add_discovered_plugin(info("On"));
    m.add_discovered_plugin(info("Off"));
    let on = lua.create_table().unwrap().into_owned();
    let off = lua.create_table().unwrap().into_owned();
    m.load_plugin("On", MainFile::Source(COUNTING_SCRIPT.to_string()), shared_environment(&on)).unwrap();
    m.load_plugin("Off", MainFile::Source(COUNTING_SCRIPT.to_string()), shared_environment(&off)).unwrap();
    m.enable_plugin("On").unwrap();
    let reports = m.on_update();
    assert_eq!(reports.len(), 1);
    assert_eq!(reports[0].plugin, "On");
    assert!(reports[0].result.is_ok());
    assert_eq!(counter(&on, "updates"), 1);
    assert_eq!(counter(&off, "updates"), 0);
}

#[test]
fn load_steps_map_each_outcome() {
    assert!(matches!(main_source(MainFile::NotFound), Err(PluginError::NoMainFile)));
    assert!(matches!(main_source(MainFile::Unreadable("denied".to_string())), Err(PluginError::Error(_))));
    assert_eq!(main_source(MainFile::Source("x = 1".to_string())).unwrap(), "x = 1");

    let lua = mlua::Lua::new();
    let built: Result<((), mlua::OwnedTable), mlua::Error> = Err(mlua::Error::runtime("no table"));
    match environment_or_error(built) {
        Err(PluginError::Error(m)) => assert!(m.starts_with("Could not create mod environment: ")),
        _ => panic!("the environment error is reported"),
    }
    let table = lua.create_table().unwrap().into_owned();
    assert!(environment_or_error(Ok(((), table))).is_ok());

    match finish_load(Err(mlua::Error::runtime("syntax")), None) {
        Err(PluginError::ScriptError(m)) => assert!(m.starts_with("Could not load module: ")),
        _ => panic!("a failing chunk is reported"),
    }
    match finish_load(Ok(()), Some(Err(mlua::Error::runtime("boom")))) {
        Err(PluginError::ScriptError(m)) => assert!(m.starts_with("Error while executing onLoad function: ")),
        _ => panic!("a failing onLoad is reported"),
    }
    assert!(finish_load(Ok(()), Some(Ok(()))).is_ok());
    assert!(finish_load(Ok(()), None).is_ok());

    assert!(finish_hook(None).is_ok());
    assert!(finish_hook(Some(Ok(()))).is_ok());
    assert!(matches!(finish_hook(Some(Err(mlua::Error::runtime("boom")))), Err(PluginError::ScriptError(_))));
}

#[test]
fn text_script_starting_with_a_tab_runs() {
    let lua = Arc::new(mlua::Lua::new());
    let table = lua.create_table().unwrap().into_owned();
    let mut plugin: Plugin<Environment> = Plugin::new(lua.clone(), info("Tab"));
    let r = plugin.load(MainFile::Source("\tloads = 1".to_string()), shared_environment(&table));
    assert!(r.is_ok());
    assert_eq!(counter(&table, "loads"), 1);
}
