use futurecop_mod::config::{default_log_level, default_server};
use futurecop_mod::data::plugin::{PluginDependency, PluginError};
use futurecop_mod::futurecop::{player_slot, GameMode, PlayerSlots, PLAYER_ARRAY_ADDR};
use futurecop_mod::plugins::environment::{
    library_name, library_names, require_file_outcome, resolve_require, RequireCache, RequireOutcome, RequireTarget,
};
use futurecop_mod::plugins::library::game::{game_mode_from_value, player_array_entry, player_entity_address, GameState};
use futurecop_mod::plugins::plugin_info::PluginInfoError;
use futurecop_mod::plugins::plugin_manager::{PluginInstallError, PluginManagerError};
use futurecop_mod::plugins::sanitize::{sanitize_matched_name, sanitize_name, to_ascii_lowercase};
use futurecop_mod::server::{
    install_status, plugin_info_error_status, plugin_operation_status, should_forward, LogHistory, LogRecord,
};

#[test]
fn plugin_names_become_folder_names() {
    assert_eq!(sanitize_name("My Plugin.v2"), Some("my_plugin-v2".to_string()));
    assert_eq!(sanitize_name("FPS Display"), Some("fps_display".to_string()));
    assert_eq!(sanitize_name(""), Some(String::new()));
    assert_eq!(sanitize_name("tab\tname"), None);
    assert_eq!(sanitize_name("Ärger"), None);
    assert_eq!(sanitize_name("../escape"), None);
    assert_eq!(sanitize_name("ABC xyz 019."), Some("abc_xyz_019-".to_string()));
    assert_eq!(sanitize_name("a_b"), None);
    assert_eq!(sanitize_name("a-b"), None);
}

#[test]
fn folder_names_from_matched_names() {
    assert_eq!(sanitize_matched_name("a b.c", true), Some("a_b-c".to_string()));
    assert_eq!(sanitize_matched_name("a b.c", false), None);
    assert_eq!(to_ascii_lowercase("AbC Ü"), "abc Ü");
}

#[test]
fn default_configuration() {
    let server = default_server();
    assert_eq!(server.port, 8000);
    assert_eq!(server.host, "0.0.0.0");
    assert_eq!(default_log_level(), "INFO");
}

#[test]
fn game_state() {
    assert_eq!(game_mode_from_value(0), GameMode::CrimeWar);
    assert_eq!(game_mode_from_value(1), GameMode::PrecinctAssault);
    assert_eq!(game_mode_from_value(7), GameMode::PrecinctAssault);
    let state = GameState::new(true, 1, true);
    assert!(state.is_in_mission);
    assert_eq!(state.game_mode, GameMode::PrecinctAssault);
    assert_eq!(state.player_count, 2);
    assert_eq!(GameState::new(false, 0, false).player_count, 1);
    assert_eq!(GameMode::CrimeWar.name(), "CrimeWar");
    assert_eq!(GameMode::PrecinctAssault.name(), "PrecinctAssault");
    assert_eq!(GameMode::default(), GameMode::CrimeWar);
}

#[test]
fn player_addresses() {
    assert_eq!(player_array_entry(0), Ok(PLAYER_ARRAY_ADDR));
    assert_eq!(player_array_entry(1), Ok(PLAYER_ARRAY_ADDR + 8));
    assert_eq!(player_array_entry(2), Err("Can only get player one or two at the moment.".to_string()));
    assert_eq!(player_entity_address(0x1234), Ok(0x1234));
    assert_eq!(player_entity_address(0), Err("Player doesn't exist".to_string()));
}

#[test]
fn player_slots_follow_the_player_method() {
    assert_eq!(player_slot(0, 1), Some(0));
    assert_eq!(player_slot(0, 3), Some(1));
    assert_eq!(player_slot(1, 1), Some(0));
    assert_eq!(player_slot(1, 64), Some(1));
    assert_eq!(player_slot(1, 3), None);
    assert_eq!(player_slot(0, 64), Some(1));

    let mut slots = PlayerSlots::new();
    assert_eq!(slots.health_target(), None);
    slots.on_player_method(2, 0, 1, 0);
    assert_eq!(slots, PlayerSlots::new());
    slots.on_player_method(2, 0x100, 1, 0);
    assert_eq!(slots.player_entity_address, Some(0x100));
    assert_eq!(slots.first_player, Some(0x100));
    assert_eq!(slots.health_target(), Some(0x100));
    slots.on_player_method(2, 0x200, 3, 0);
    assert_eq!(slots.second_player, Some(0x200));
    assert_eq!(slots.health_target(), Some(0x200));
    slots.on_player_method(2, 0x300, 1, 0);
    assert_eq!(slots.first_player, Some(0x100));
    slots.on_player_method(5, 0x100, 99, 0);
    assert_eq!(slots.first_player, None);
    assert_eq!(slots.second_player, Some(0x200));
    assert_eq!(slots.health_target(), None);
    assert_eq!(slots.player_entity_address, Some(0x100));
}

#[test]
fn libraries_follow_dependencies() {
    assert_eq!(library_name(&PluginDependency::Dangerous), Some("dangerous".to_string()));
    assert_eq!(library_name(&PluginDependency::Game), Some("game".to_string()));
    assert_eq!(library_name(&PluginDependency::Input), Some("input".to_string()));
    assert_eq!(library_name(&PluginDependency::UI), Some("ui".to_string()));
    assert_eq!(library_name(&PluginDependency::Math), None);
    let names = library_names(&vec![
        PluginDependency::Game,
        PluginDependency::Math,
        PluginDependency::Dangerous,
        PluginDependency::Game,
    ]);
    assert_eq!(names, vec!["game".to_string(), "dangerous".to_string()]);
    assert!(library_names(&vec![]).is_empty());
}

#[test]
fn require_resolves_libraries_before_files() {
    let libraries = vec!["game".to_string(), "dangerous".to_string()];
    assert!(matches!(resolve_require("dangerous", &libraries), RequireTarget::Library(1)));
    match resolve_require("util/math", &libraries) {
        RequireTarget::File(path) => assert_eq!(path, "util/math.lua"),
        RequireTarget::Library(_) => panic!("not a library"),
    }
    match resolve_require("helpers.luau", &libraries) {
        RequireTarget::File(path) => assert_eq!(path, "helpers.lua"),
        RequireTarget::Library(_) => panic!("not a library"),
    }
}

#[test]
fn require_of_files() {
    let cached = vec!["/p/x/lib/a.lua".to_string()];
    assert!(matches!(require_file_outcome("/p/x/lib/a.lua", "/p/x", &cached, true), RequireOutcome::Cached(0)));
    assert!(matches!(require_file_outcome("/p/x//lib/a.lua", "/p/x", &cached, true), RequireOutcome::Cached(0)));
    let outside = require_file_outcome("/p/y/b.lua", "/p/x", &cached, true);
    assert!(matches!(outside, RequireOutcome::OutsidePlugin));
    assert_eq!(
        outside.error_message(),
        Some("Permission denied: Requiring a file outside of the plugin folder is not allowed".to_string())
    );
    let prefix_only = require_file_outcome("/p/xy/b.lua", "/p/x", &cached, true);
    assert!(matches!(prefix_only, RequireOutcome::OutsidePlugin));
    let missing = require_file_outcome("/p/x/b.lua", "/p/x", &cached, false);
    assert!(matches!(missing, RequireOutcome::Missing));
    assert_eq!(missing.error_message(), Some("Required file doesn't exist".to_string()));
    let load = require_file_outcome("/p/x/b.lua", "/p/x", &cached, true);
    assert!(matches!(load, RequireOutcome::Load));
    assert_eq!(load.error_message(), None);
    let mut after_load = cached.clone();
    after_load.push("/p/x/b.lua".to_string());
    assert!(matches!(require_file_outcome("/p/x/b.lua", "/p/x", &after_load, true), RequireOutcome::Cached(1)));
}

fn record(message: &str) -> LogRecord {
    LogRecord {
        message: message.to_string(),
        target: "futurecop_mod".to_string(),
        level: "INFO".to_string(),
        timestamp: "2024-01-01T00:00:00.000Z".to_string(),
        plugin: Some("FPS Display".to_string()),
    }
}

#[test]
fn log_history_ids_are_positions() {
    let mut history = LogHistory::new();
    assert_eq!(history.len(), 0);
    assert_eq!(history.append(record("first")), 0);
    assert_eq!(history.append(record("second")), 1);
    assert_eq!(history.append(record("third")), 2);
    let (last, copy) = history.snapshot();
    assert_eq!(last, 3);
    assert_eq!(copy.len(), 3);
    for (i, (id, r)) in copy.iter().enumerate() {
        assert_eq!(*id, i as u64);
        assert_eq!(r.plugin.as_deref(), Some("FPS Display"));
    }
    assert_eq!(copy[1].1.message, "second");
    let (id, r) = history.entry(2);
    assert_eq!(id, 2);
    assert_eq!(r.message, "third");
}

#[test]
fn only_newer_records_are_forwarded() {
    assert!(!should_forward(2, 3));
    assert!(should_forward(3, 3));
    assert!(should_forward(4, 3));
}

#[test]
fn web_api_statuses() {
    assert_eq!(plugin_info_error_status(&PluginInfoError::FileNotFound), 400);
    assert_eq!(plugin_info_error_status(&PluginInfoError::Format("x".to_string())), 400);
    assert_eq!(plugin_info_error_status(&PluginInfoError::Other("x".to_string())), 500);
    assert_eq!(plugin_operation_status::<()>(&Ok(())), 204);
    assert_eq!(plugin_operation_status::<()>(&Err(PluginManagerError::PluginNotFound)), 404);
    assert_eq!(plugin_operation_status::<()>(&Err(PluginManagerError::AlreadyLoaded)), 500);
    assert_eq!(plugin_operation_status::<()>(&Err(PluginManagerError::Plugin(PluginError::NotLoaded))), 500);
    assert_eq!(plugin_operation_status::<String>(&Ok("path".to_string())), 204);
    assert_eq!(install_status(&Ok(())), 200);
    assert_eq!(install_status(&Err(PluginInstallError::AlreadyInstalled)), 400);
    assert_eq!(install_status(&Err(PluginInstallError::InvalidName)), 400);
    assert_eq!(install_status(&Err(PluginInstallError::InfoFile(PluginInfoError::FileNotFound))), 400);
    assert_eq!(install_status(&Err(PluginInstallError::Plugin(PluginError::NoMainFile))), 400);
    assert_eq!(install_status(&Err(PluginInstallError::Copy("disk full".to_string()))), 500);
}

use futurecop_mod::util::{other_threads, ThreadEntry};

#[test]
fn only_other_threads_of_the_game_are_suspended() {
    let t = |thread_id, owner_process_id| ThreadEntry { thread_id, owner_process_id };
    let entries = vec![t(1, 100), t(2, 200), t(3, 100), t(4, 100), t(5, 300)];
    assert_eq!(other_threads(&entries, 100, 3), vec![t(1, 100), t(4, 100)]);
    assert_eq!(other_threads(&entries, 999, 3), vec![]);
    assert_eq!(other_threads(&vec![], 100, 3), vec![]);
}

#[test]
fn recorded_file_is_answered_from_the_cache() {
    let lua = mlua::Lua::new();
    let mut cache = RequireCache::new();
    assert!(matches!(cache.outcome("/p/x/lib/a.lua", "/p/x", true), RequireOutcome::Load));
    let table = lua.create_table().unwrap();
    table.set("marker", 7).unwrap();
    cache.record("/p/x/lib/a.lua".to_string(), table.into_owned());
    assert_eq!(cache.len(), 1);
    match cache.outcome("/p/x/lib/a.lua", "/p/x", true) {
        RequireOutcome::Cached(i) => {
            assert_eq!(i, 0);
            assert_eq!(cache.table(i).to_ref().get::<_, i64>("marker").unwrap(), 7);
        },
        _ => panic!("a recorded file is answered from the cache"),
    }
    assert!(matches!(cache.outcome("/p/x/lib/b.lua", "/p/x", false), RequireOutcome::Missing));
}
