use futurecop_mod::data::plugin::{
    Plugin, PluginContext, PluginDependency, PluginError, PluginInfo, PluginInfoContent, PluginState,
};
use futurecop_mod::injector::config::{create_config_error, Config, ConfigError, ConfigStore};
use futurecop_mod::injector::gui::{Command as GuiCommand, Message as GuiMessage, ModInjector};
use futurecop_mod::injector::view::loading::{
    Command as LoadingCommand, InjectionOutcome, Loading, Message as LoadingMessage,
};
use futurecop_mod::injector::view::logs::{is_level_shown, log_level_color, Logs, Message as LogsMessage, SelectedLogLevels};
use futurecop_mod::injector::view::main::{
    Command as MainCommand, LogEvent, LogState, Main, Message as MainMessage, View,
};
use futurecop_mod::injector::view::plugins::{
    dependencies_list, has_dangerous_dependency, plugin_description_text, plugin_details_state,
    plugin_state_label, plugin_toggle_label, Command, InstallConfirmationPrompt, Message, Plugins,
};
use futurecop_mod::named_map::NamedMap;
use futurecop_mod::server::LogRecord;

fn info(name: &str) -> PluginInfo {
    PluginInfo::from_content(
        format!("/plugins/{}", name),
        PluginInfoContent {
            name: name.to_string(),
            authors: vec![],
            version: "1.0.0".to_string(),
            dependencies: vec![PluginDependency::Game],
            description: String::new(),
        },
    )
}

fn hooks() -> PluginContext {
    PluginContext {
        on_load: true,
        on_unload: false,
        on_update: true,
        on_enable: false,
        on_disable: false,
        on_install: false,
        on_uninstall: false,
    }
}

fn plugin(name: &str, enabled: bool, state: PluginState) -> Plugin {
    Plugin { enabled, state, info: info(name) }
}

fn list(names: &[&str]) -> NamedMap<Plugin> {
    let mut m = NamedMap::new();
    for n in names {
        m.insert(n.to_string(), plugin(n, false, PluginState::Loaded(hooks())));
    }
    m
}

fn loaded_view(names: &[&str]) -> Plugins {
    let (mut view, command) = Plugins::new();
    assert!(matches!(view, Plugins::Loading));
    assert!(matches!(command, Command::FetchPlugins));
    let c = view.update(Message::GetPluginsResult(Ok(list(names))));
    assert!(matches!(c, Command::Nothing));
    view
}

#[test]
fn plugin_list_loads() {
    match loaded_view(&["A", "B"]) {
        Plugins::Loaded(v) => {
            assert_eq!(v.plugins.len(), 2);
            assert!(v.selected_plugin.is_none() && v.error.is_none() && v.confirm_installation.is_none());
            assert!(!v.show_reload_success_message);
        },
        _ => panic!("not loaded"),
    }
}

#[test]
fn plugin_list_fetch_error() {
    let (mut view, _) = Plugins::new();
    view.update(Message::GetPluginsResult(Err("offline".to_string())));
    assert!(matches!(view, Plugins::Error(ref e) if e == "offline"));
}

#[test]
fn loading_view_ignores_other_messages() {
    let (mut view, _) = Plugins::new();
    let c = view.update(Message::Enable("A".to_string()));
    assert!(matches!(c, Command::Nothing));
    assert!(matches!(view, Plugins::Loading));
}

#[test]
fn enable_asks_the_mod_and_response_marks_plugin() {
    let mut view = loaded_view(&["A", "B"]);
    let c = view.update(Message::Enable("A".to_string()));
    assert!(matches!(c, Command::EnablePlugin(ref n) if n == "A"));
    view.update(Message::EnableResponse(Some("A".to_string())));
    match &view {
        Plugins::Loaded(v) => {
            assert!(v.plugins.get("A").unwrap().enabled);
            assert!(!v.plugins.get("B").unwrap().enabled);
        },
        _ => panic!("not loaded"),
    }
    let c = view.update(Message::Disable("A".to_string()));
    assert!(matches!(c, Command::DisablePlugin(ref n) if n == "A"));
    view.update(Message::DisableResponse(Some("A".to_string())));
    view.update(Message::EnableResponse(Some("missing".to_string())));
    match &view {
        Plugins::Loaded(v) => {
            assert!(!v.plugins.get("A").unwrap().enabled);
            assert_eq!(v.plugins.len(), 2);
        },
        _ => panic!("not loaded"),
    }
}

#[test]
fn details_navigation() {
    let mut view = loaded_view(&["A"]);
    view.update(Message::GoToDetails("A".to_string()));
    assert!(matches!(&view, Plugins::Loaded(v) if v.selected_plugin.as_deref() == Some("A")));
    view.update(Message::GoToOverview);
    assert!(matches!(&view, Plugins::Loaded(v) if v.selected_plugin.is_none()));
}

#[test]
fn reload_shows_message_then_hides_it() {
    let mut view = loaded_view(&["A"]);
    let c = view.update(Message::Reload("A".to_string()));
    assert!(matches!(c, Command::ReloadPlugin(ref n) if n == "A"));
    let c = view.update(Message::ReloadResponse(Ok(list(&["A", "C"]))));
    assert!(matches!(c, Command::HideReloadMessageAfter(3000)));
    assert!(matches!(&view, Plugins::Loaded(v) if v.show_reload_success_message && v.plugins.len() == 2));
    view.update(Message::HideReloadSuccessfulMessage);
    assert!(matches!(&view, Plugins::Loaded(v) if !v.show_reload_success_message));
    view.update(Message::ReloadResponse(Err("gone".to_string())));
    assert!(matches!(view, Plugins::Error(ref e) if e == "gone"));
}

#[test]
fn installation_flow() {
    let mut view = loaded_view(&["A"]);
    assert!(matches!(view.update(Message::SelectPluginToInstall), Command::PickPluginPackage));
    assert!(matches!(view.update(Message::PluginPackagePicked(None)), Command::Nothing));
    let c = view.update(Message::PluginPackagePicked(Some("/tmp/p.zip".to_string())));
    assert!(matches!(c, Command::FetchPluginInfo(ref p) if p == "/tmp/p.zip"));
    let prompt = InstallConfirmationPrompt { plugin: info("New"), path: "/tmp/p.zip".to_string() };
    view.update(Message::PluginInfoResponse(Ok(prompt)));
    assert!(matches!(&view, Plugins::Loaded(v) if v.confirm_installation.is_some()));
    let confirm = InstallConfirmationPrompt { plugin: info("New"), path: "/tmp/p.zip".to_string() };
    let c = view.update(Message::ConfirmInstallation(confirm));
    assert!(matches!(c, Command::InstallPlugin(ref p) if p == "/tmp/p.zip"));
    let c = view.update(Message::InstallResponse(Err("already installed".to_string())));
    assert!(matches!(c, Command::FetchPlugins));
    assert!(matches!(&view, Plugins::Loaded(v) if v.confirm_installation.is_none()
        && v.error.as_deref() == Some("already installed")));
    view.update(Message::ClearError);
    assert!(matches!(&view, Plugins::Loaded(v) if v.error.is_none()));
    view.update(Message::PluginInfoResponse(Err("bad package".to_string())));
    assert!(matches!(&view, Plugins::Loaded(v) if v.error.as_deref() == Some("bad package")));
    view.update(Message::CancelInstallation);
    assert!(matches!(&view, Plugins::Loaded(v) if v.confirm_installation.is_none()));
    assert!(matches!(view.update(Message::InstallResponse(Ok(()))), Command::FetchPlugins));
}

#[test]
fn uninstall_removes_and_deselects() {
    let mut view = loaded_view(&["A", "B"]);
    view.update(Message::GoToDetails("A".to_string()));
    let c = view.update(Message::UninstallPlugin("A".to_string()));
    assert!(matches!(c, Command::UninstallPlugin(ref n) if n == "A"));
    view.update(Message::UninstallPluginResponse(Ok("A".to_string())));
    assert!(matches!(&view, Plugins::Loaded(v) if v.selected_plugin.is_none()
        && !v.plugins.contains_key("A") && v.plugins.contains_key("B")));
    view.update(Message::GoToDetails("B".to_string()));
    view.update(Message::UninstallPluginResponse(Err("failed".to_string())));
    assert!(matches!(&view, Plugins::Loaded(v) if v.selected_plugin.as_deref() == Some("B")
        && v.error.as_deref() == Some("failed")));
}

#[test]
fn plugin_labels() {
    let enabled = plugin("A", true, PluginState::Loaded(hooks()));
    let disabled = plugin("A", false, PluginState::Loaded(hooks()));
    let unloaded = plugin("A", false, PluginState::Unloaded);
    let failed = plugin("A", true, PluginState::Error(PluginError::NoMainFile));
    assert_eq!(plugin_state_label(&enabled), "Enabled");
    assert_eq!(plugin_state_label(&disabled), "Disabled");
    assert_eq!(plugin_state_label(&unloaded), "Unloaded");
    assert_eq!(plugin_state_label(&failed), "Error");
    assert_eq!(plugin_toggle_label(&enabled), Some("Enabled"));
    assert_eq!(plugin_toggle_label(&unloaded), Some("Disabled"));
    assert_eq!(plugin_toggle_label(&failed), None);
    assert_eq!(plugin_details_state(&enabled), Some("The plugin is loaded and enabled"));
    assert_eq!(plugin_details_state(&disabled), Some("The plugin is loaded but disabled"));
    assert_eq!(plugin_details_state(&unloaded), Some("The plugin is currently unloaded"));
    assert_eq!(plugin_details_state(&failed), None);
    assert_eq!(plugin_description_text(&String::new()), "No description");
    assert_eq!(plugin_description_text(&"Shows FPS".to_string()), "Shows FPS");
}

#[test]
fn dangerous_dependencies_are_flagged() {
    let safe = vec![PluginDependency::Game, PluginDependency::UI];
    let risky = vec![PluginDependency::Game, PluginDependency::Dangerous];
    assert!(!has_dangerous_dependency(&safe));
    assert!(has_dangerous_dependency(&risky));
    let shown = dependencies_list(&risky);
    assert!(shown.dangerous_warning);
    assert_eq!(shown.lines, vec!["- Game".to_string(), "- Dangerous".to_string()]);
    let none = dependencies_list(&vec![]);
    assert!(!none.dangerous_warning);
    assert_eq!(none.lines, vec!["No dependencies".to_string()]);
}

fn record(level: &str) -> LogRecord {
    LogRecord {
        message: "m".to_string(),
        target: "t".to_string(),
        level: level.to_string(),
        timestamp: "2024-01-01T00:00:00.000Z".to_string(),
        plugin: None,
    }
}

#[test]
fn log_levels() {
    let levels = SelectedLogLevels::default();
    assert!(!is_level_shown(levels, "DEBUG"));
    assert!(is_level_shown(levels, "INFO"));
    assert!(is_level_shown(levels, "WARN"));
    assert!(is_level_shown(levels, "ERROR"));
    assert!(!is_level_shown(levels, "TRACE"));
    assert_eq!(log_level_color("DEBUG"), (150, 150, 150));
    assert_eq!(log_level_color("INFO"), (81, 113, 240));
    assert_eq!(log_level_color("WARN"), (238, 203, 63));
    assert_eq!(log_level_color("ERROR"), (241, 83, 75));
    assert_eq!(log_level_color("other"), (0, 0, 0));
}

#[test]
fn log_view_filters_and_limits() {
    let mut logs = Logs::new();
    assert!(!logs.unlimited_history);
    let mut records = vec![record("DEBUG"), record("INFO"), record("TRACE")];
    assert_eq!(logs.visible_records(&records), vec![1]);
    logs.update(LogsMessage::ToggleLevelDebug(true));
    assert_eq!(logs.visible_records(&records), vec![0, 1]);
    logs.update(LogsMessage::ToggleLevelInfo(false));
    assert_eq!(logs.visible_records(&records), vec![0]);
    records.clear();
    for _ in 0..300 {
        records.push(record("WARN"));
    }
    let window = logs.visible_records(&records);
    assert_eq!(window.len(), 250);
    assert_eq!(window[0], 50);
    assert_eq!(window[249], 299);
    logs.update(LogsMessage::ToggleHistory(true));
    assert_eq!(logs.visible_records(&records).len(), 300);
    logs.update(LogsMessage::ToggleLevelWarn(false));
    logs.update(LogsMessage::ToggleLevelError(false));
    assert!(logs.visible_records(&records).is_empty());
    let before = logs;
    logs.update(LogsMessage::NoOp);
    assert_eq!(logs, before);
}

#[test]
fn loading_view_without_mod_file() {
    let (mut view, c) = Loading::new("mod.dll".to_string(), false);
    assert!(matches!(view, Loading::NoPath));
    assert!(matches!(c, LoadingCommand::Nothing));
    assert!(matches!(view.update(LoadingMessage::OpenPathSelection), LoadingCommand::PickModPath));
    assert!(matches!(view.update(LoadingMessage::ModPathPicked(None)), LoadingCommand::Nothing));
    assert!(matches!(view, Loading::NoPath));
    let c = view.update(LoadingMessage::ModPathPicked(Some("other.dll".to_string())));
    assert!(matches!(c, LoadingCommand::CheckModRunning));
    assert!(matches!(view, Loading::WaitingForProgram { ref mod_path } if mod_path == "other.dll"));
}

#[test]
fn loading_view_injects() {
    let (mut view, c) = Loading::new("mod.dll".to_string(), true);
    assert!(matches!(c, LoadingCommand::CheckIfStarted));
    let c = view.update(LoadingMessage::CheckIfStarted);
    assert!(matches!(c, LoadingCommand::TryInject(ref p) if p == "mod.dll"));
    let c = view.update(LoadingMessage::InjectionAttempted {
        mod_path: "mod.dll".to_string(),
        outcome: InjectionOutcome::ProcessNotRunning,
    });
    assert!(matches!(c, LoadingCommand::RetryInjectionAfter(100)));
    let c = view.update(LoadingMessage::InjectionAttempted {
        mod_path: "mod.dll".to_string(),
        outcome: InjectionOutcome::InjectionFailed("access denied".to_string()),
    });
    assert!(matches!(c, LoadingCommand::Nothing));
    assert!(matches!(view, Loading::InjectionError { ref error, .. } if error == "Could not inject the mod: access denied"));
    let c = view.update(LoadingMessage::CheckIfStarted);
    assert!(matches!(c, LoadingCommand::TryInject(ref p) if p == "mod.dll"));
    let c = view.update(LoadingMessage::InjectionAttempted {
        mod_path: "mod.dll".to_string(),
        outcome: InjectionOutcome::Injected,
    });
    assert!(matches!(c, LoadingCommand::CheckModRunning));
    assert!(matches!(view, Loading::WaitingForMod));
    assert!(matches!(view.update(LoadingMessage::IsModActive(false)), LoadingCommand::CheckModRunningAfter(500)));
}

#[test]
fn main_view_navigation_and_log() {
    let mut main = Main::new();
    assert!(matches!(main.logs.state, LogState::Disconnected));
    assert!(main.view.is_none());
    let c = main.update(MainMessage::ToPlugins);
    assert!(matches!(c, MainCommand::Plugins(Command::FetchPlugins)));
    assert!(matches!(main.view, Some(View::Plugins(Plugins::Loading))));
    let c = main.update(MainMessage::Plugins(Message::GoBack));
    assert!(matches!(c, MainCommand::Nothing));
    assert!(main.view.is_none());
    main.update(MainMessage::ToLogs);
    assert!(matches!(main.view, Some(View::Logs(_))));
    main.update(MainMessage::LogEvent(LogEvent::Connected));
    main.update(MainMessage::LogEvent(LogEvent::Message(record("INFO"))));
    assert!(matches!(main.logs.state, LogState::Connected));
    assert_eq!(main.logs.logs.len(), 1);
    main.update(MainMessage::LogEvent(LogEvent::Disconnected));
    assert!(matches!(main.logs.state, LogState::Error(ref m) if m == "Got disconnected"));
    assert!(main.logs.logs.is_empty());
}

#[test]
fn injector_switches_to_main_once_mod_runs() {
    let (mut gui, c) = ModInjector::new("mod.dll".to_string(), true);
    assert!(matches!(c, GuiCommand::Loading(LoadingCommand::CheckIfStarted)));
    assert_eq!(gui.title(), "FutureCop Mod");
    let c = gui.update(GuiMessage::FontLoaded(true));
    assert!(matches!(c, GuiCommand::Nothing));
    let c = gui.update(GuiMessage::Loading(LoadingMessage::IsModActive(true)));
    assert!(matches!(c, GuiCommand::Nothing));
    assert!(matches!(gui, ModInjector::Main(_)));
    let c = gui.update(GuiMessage::Main(MainMessage::ToPlugins));
    assert!(matches!(c, GuiCommand::Main(MainCommand::Plugins(Command::FetchPlugins))));
}

#[test]
fn configuration_is_set_once() {
    let mut store = ConfigStore::new();
    assert!(!store.is_loaded());
    let config = Config {
        mod_path: "futurecop_mod.dll".to_string(),
        mod_address: "http://localhost:8000".to_string(),
        process_name: "FCopLAPD.exe".to_string(),
        require_admin: false,
    };
    assert_eq!(store.set(config.duplicate()), Ok(()));
    assert!(store.is_loaded());
    assert_eq!(store.set(config), Err(ConfigError::AlreadyLoaded));
    let read = store.get_config();
    assert_eq!(read.mod_path, "futurecop_mod.dll");
    assert_eq!(read.process_name, "FCopLAPD.exe");
    assert_eq!(
        create_config_error("config.json", "missing field"),
        "could not load config from 'config.json': missing field"
    );
}

use futurecop_mod::injector::process::{find_process, handle_usable, ProcessEntry};

fn process(pid: u32, name: Option<&str>) -> ProcessEntry {
    ProcessEntry { pid, exe_name: name.map(|n| n.to_string()) }
}

#[test]
fn game_process_is_found_after_the_first_entry() {
    let entries = vec![
        process(4, Some("FCopLAPD.exe")),
        process(8, None),
        process(12, Some("explorer.exe")),
        process(16, Some("FCopLAPD.exe")),
        process(20, Some("FCopLAPD.exe")),
    ];
    assert_eq!(find_process(&entries, "FCopLAPD.exe"), Some(16));
    assert_eq!(find_process(&entries, "missing.exe"), None);
    assert_eq!(find_process(&entries[..1].iter().map(|e| process(e.pid, e.exe_name.as_deref())).collect(), "FCopLAPD.exe"), None);
    assert_eq!(find_process(&vec![], "FCopLAPD.exe"), None);
}

#[test]
fn handles_need_elevation_only_when_required() {
    assert!(handle_usable(false, false));
    assert!(handle_usable(false, true));
    assert!(!handle_usable(true, false));
    assert!(handle_usable(true, true));
}
