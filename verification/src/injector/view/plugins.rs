//! The plugin list of the plugin manager's user interface: what it shows, and how it
//! reacts to the user and to the answers of the mod.
//!
//! Every reaction is a new state and a [`Command`]: the work that the interface has to
//! do next (ask the mod, open a file dialog, wait). Its result comes back as a [`Message`].
use vstd::prelude::*;
use vstd::string::*;

use crate::data::plugin::{Plugin, PluginDependency, PluginInfo, PluginState, dependency_name};
use crate::named_map::NamedMap;
use crate::text::concat;

verus! {

/// The plugin list, once it was fetched from the mod.
pub struct PluginsView {
    pub plugins: NamedMap<Plugin>,
    pub selected_plugin: Option<String>,
    pub error: Option<String>,
    pub confirm_installation: Option<InstallConfirmationPrompt>,
    pub show_reload_success_message: bool,
}

/// The state of the plugin list view.
pub enum Plugins {
    Error(String),
    Loading,
    Loaded(PluginsView),
}

/// A plugin package the user selected, waiting for the user to confirm its installation.
pub struct InstallConfirmationPrompt {
    pub plugin: PluginInfo,
    pub path: String,
}

/// What the user did, or what the mod answered.
pub enum Message {
    GetPluginsResult(Result<NamedMap<Plugin>, String>),
    Enable(String),
    EnableResponse(Option<String>),
    Disable(String),
    DisableResponse(Option<String>),
    Reload(String),
    ReloadResponse(Result<NamedMap<Plugin>, String>),
    GoToDetails(String),
    GoToOverview,
    GoBack,
    SelectPluginToInstall,
    /// The plugin package the user picked in the file dialog, if any.
    PluginPackagePicked(Option<String>),
    PluginInfoResponse(Result<InstallConfirmationPrompt, String>),
    ConfirmInstallation(InstallConfirmationPrompt),
    CancelInstallation,
    InstallResponse(Result<(), String>),
    ClearError,
    UninstallPlugin(String),
    UninstallPluginResponse(Result<String, String>),
    HideReloadSuccessfulMessage,
}

/// The work the view asks for; each answers with the message named here.
pub enum Command {
    Nothing,
    /// Fetch the plugin list from the mod; answers `GetPluginsResult`.
    FetchPlugins,
    /// Ask the mod to enable the plugin; answers `EnableResponse`.
    EnablePlugin(String),
    /// Ask the mod to disable the plugin; answers `DisableResponse`.
    DisablePlugin(String),
    /// Ask the mod to reload the plugin, then fetch the plugin list; answers `ReloadResponse`.
    ReloadPlugin(String),
    /// Wait that many milliseconds; answers `HideReloadSuccessfulMessage`.
    HideReloadMessageAfter(u64),
    /// Let the user pick a plugin package; answers `PluginPackagePicked`.
    PickPluginPackage,
    /// Ask the mod for the information of the package at that path; answers `PluginInfoResponse`.
    FetchPluginInfo(String),
    /// Ask the mod to install the package at that path; answers `InstallResponse`.
    InstallPlugin(String),
    /// Ask the mod to uninstall the plugin; answers `UninstallPluginResponse`.
    UninstallPlugin(String),
}

/// How long the message about a successful reload stays, in milliseconds.
pub open spec fn reload_message_duration() -> u64 {
    3000
}

/// Whenever the mod answers with the list of plugins, the view shows exactly that list, in
/// the loading view as in the loaded one; a successful reload shows the list it answered with
/// and the message that the reload succeeded.
pub proof fn lemma_fetched_list_is_shown(
    before: Plugins,
    list: NamedMap<Plugin>,
    after: Plugins,
    command: Command,
    reload_after: Plugins,
    reload_command: Command,
)
    requires
        !(before is Error),
        plugins_step(before, Message::GetPluginsResult(Ok(list)), after, command),
        plugins_step(before, Message::ReloadResponse(Ok(list)), reload_after, reload_command),
    ensures
        after matches Plugins::Loaded(v) && v.plugins@ == list@,
        command is Nothing,
        before is Loaded ==> (reload_after matches Plugins::Loaded(v) && v.plugins@ == list@
            && v.show_reload_success_message),
{
}

/// What the loaded plugin list does with the user's actions and the mod's answers: each
/// action on a plugin asks the mod for that action on that same plugin and leaves the view as
/// it is; a confirmed installation installs the confirmed package; the answer that a plugin
/// was enabled or disabled marks that plugin, and only it, as enabled or disabled; an
/// installation's answer fetches the list again; an uninstalled plugin leaves the list and
/// the selection.
pub proof fn lemma_loaded_view_actions(view: PluginsView, message: Message, after: Plugins, command: Command)
    requires
        plugins_step(Plugins::Loaded(view), message, after, command),
    ensures
        match message {
            Message::Enable(name) => command == Command::EnablePlugin(name) && after == Plugins::Loaded(view),
            Message::Disable(name) => command == Command::DisablePlugin(name) && after == Plugins::Loaded(view),
            Message::Reload(name) => command == Command::ReloadPlugin(name) && after == Plugins::Loaded(view),
            Message::UninstallPlugin(name) => command == Command::UninstallPlugin(name) && after == Plugins::Loaded(
                view,
            ),
            Message::ConfirmInstallation(prompt) => command == Command::InstallPlugin(prompt.path),
            Message::InstallResponse(_) => command is FetchPlugins && (after matches Plugins::Loaded(v)
                && v.confirm_installation is None && v.plugins@ == view.plugins@),
            Message::EnableResponse(Some(name)) => after matches Plugins::Loaded(v) && v.plugins@.dom()
                == view.plugins@.dom() && (view.plugins@.contains_key(name@) ==> v.plugins@[name@].enabled
                && v.plugins@[name@].info == view.plugins@[name@].info) && (forall|k: Seq<char>|
                #[trigger] view.plugins@.contains_key(k) && k != name@ ==> v.plugins@[k] == view.plugins@[k]),
            Message::DisableResponse(Some(name)) => after matches Plugins::Loaded(v) && v.plugins@.dom()
                == view.plugins@.dom() && (view.plugins@.contains_key(name@) ==> !v.plugins@[name@].enabled
                && v.plugins@[name@].info == view.plugins@[name@].info) && (forall|k: Seq<char>|
                #[trigger] view.plugins@.contains_key(k) && k != name@ ==> v.plugins@[k] == view.plugins@[k]),
            Message::UninstallPluginResponse(Ok(name)) => after matches Plugins::Loaded(v) && !v.plugins@.contains_key(
                name@,
            ) && (forall|k: Seq<char>| #[trigger] view.plugins@.contains_key(k) && k != name@ ==> v.plugins@.contains_key(k)
                && v.plugins@[k] == view.plugins@[k]) && (view.selected_plugin matches Some(s) && s@ == name@
                ==> v.selected_plugin is None),
            _ => true,
        },
{
    match message {
        Message::EnableResponse(Some(name)) => {
            assert(with_enabled_flag(view.plugins@, name@, true).dom() =~= view.plugins@.dom());
        },
        Message::DisableResponse(Some(name)) => {
            assert(with_enabled_flag(view.plugins@, name@, false).dom() =~= view.plugins@.dom());
        },
        _ => {},
    }
}

/// `plugins` with the plugin `name`, if there is one, marked as `enabled`.
pub open spec fn with_enabled_flag(plugins: Map<Seq<char>, Plugin>, name: Seq<char>, enabled: bool) -> Map<
    Seq<char>,
    Plugin,
> {
    if plugins.contains_key(name) {
        plugins.insert(name, Plugin { enabled, ..plugins[name] })
    } else {
        plugins
    }
}

/// The selection once the plugin `name` is gone.
pub open spec fn selection_without(selected: Option<String>, name: Seq<char>) -> Option<String> {
    match selected {
        Some(s) => if s@ == name { None } else { Some(s) },
        None => None,
    }
}

/// Whether `after` is `view` with only its plugin list changed, to one with the map `plugins`.
pub open spec fn only_plugins_changed(view: PluginsView, after: Plugins, plugins: Map<Seq<char>, Plugin>) -> bool {
    after matches Plugins::Loaded(v) && v.plugins@ == plugins && v.selected_plugin == view.selected_plugin
        && v.error == view.error && v.confirm_installation == view.confirm_installation
        && v.show_reload_success_message == view.show_reload_success_message
}

/// How the loaded view `view` reacts to `message`: the state `after` and the command.
pub open spec fn loaded_step(view: PluginsView, message: Message, after: Plugins, command: Command) -> bool {
    match message {
        Message::GetPluginsResult(Ok(list)) => after == Plugins::Loaded(PluginsView { plugins: list, ..view })
            && command is Nothing,
        Message::GetPluginsResult(Err(e)) => after == Plugins::Error(e) && command is Nothing,
        Message::Enable(name) => after == Plugins::Loaded(view) && command == Command::EnablePlugin(name),
        Message::Disable(name) => after == Plugins::Loaded(view) && command == Command::DisablePlugin(name),
        Message::EnableResponse(Some(name)) => only_plugins_changed(
            view,
            after,
            with_enabled_flag(view.plugins@, name@, true),
        ) && command is Nothing,
        Message::DisableResponse(Some(name)) => only_plugins_changed(
            view,
            after,
            with_enabled_flag(view.plugins@, name@, false),
        ) && command is Nothing,
        Message::GoToDetails(name) => after == Plugins::Loaded(
            PluginsView { selected_plugin: Some(name), ..view },
        ) && command is Nothing,
        Message::GoToOverview => after == Plugins::Loaded(PluginsView { selected_plugin: None, ..view })
            && command is Nothing,
        Message::Reload(name) => after == Plugins::Loaded(view) && command == Command::ReloadPlugin(name),
        Message::ReloadResponse(Ok(list)) => after == Plugins::Loaded(
            PluginsView { plugins: list, show_reload_success_message: true, ..view },
        ) && command == Command::HideReloadMessageAfter(reload_message_duration()),
        Message::ReloadResponse(Err(e)) => after == Plugins::Error(e) && command is Nothing,
        Message::HideReloadSuccessfulMessage => after == Plugins::Loaded(
            PluginsView { show_reload_success_message: false, ..view },
        ) && command is Nothing,
        Message::SelectPluginToInstall => after == Plugins::Loaded(view) && command is PickPluginPackage,
        Message::PluginPackagePicked(Some(path)) => after == Plugins::Loaded(view) && command
            == Command::FetchPluginInfo(path),
        Message::PluginInfoResponse(Ok(prompt)) => after == Plugins::Loaded(
            PluginsView { confirm_installation: Some(prompt), ..view },
        ) && command is Nothing,
        Message::PluginInfoResponse(Err(e)) => after == Plugins::Loaded(PluginsView { error: Some(e), ..view })
            && command is Nothing,
        Message::ConfirmInstallation(prompt) => after == Plugins::Loaded(view) && command
            == Command::InstallPlugin(prompt.path),
        Message::CancelInstallation => after == Plugins::Loaded(
            PluginsView { confirm_installation: None, ..view },
        ) && command is Nothing,
        Message::InstallResponse(Ok(())) => after == Plugins::Loaded(
            PluginsView { confirm_installation: None, ..view },
        ) && command is FetchPlugins,
        Message::InstallResponse(Err(e)) => after == Plugins::Loaded(
            PluginsView { confirm_installation: None, error: Some(e), ..view },
        ) && command is FetchPlugins,
        Message::ClearError => after == Plugins::Loaded(PluginsView { error: None, ..view }) && command is Nothing,
        Message::UninstallPlugin(name) => after == Plugins::Loaded(view) && command == Command::UninstallPlugin(
            name,
        ),
        Message::UninstallPluginResponse(Ok(name)) => after matches Plugins::Loaded(v) && v.plugins@
            == view.plugins@.remove(name@) && v.selected_plugin == selection_without(
            view.selected_plugin,
            name@,
        ) && v.error == view.error && v.confirm_installation == view.confirm_installation
            && v.show_reload_success_message == view.show_reload_success_message && command is Nothing,
        Message::UninstallPluginResponse(Err(e)) => after == Plugins::Loaded(
            PluginsView { error: Some(e), ..view },
        ) && command is Nothing,
        _ => after == Plugins::Loaded(view) && command is Nothing,
    }
}

/// How the plugin list view in state `before` reacts to `message`.
pub open spec fn plugins_step(before: Plugins, message: Message, after: Plugins, command: Command) -> bool {
    match before {
        Plugins::Loading => match message {
            Message::GetPluginsResult(Ok(list)) => after == Plugins::Loaded(
                PluginsView {
                    plugins: list,
                    selected_plugin: None,
                    error: None,
                    confirm_installation: None,
                    show_reload_success_message: false,
                },
            ) && command is Nothing,
            Message::GetPluginsResult(Err(e)) => after == Plugins::Error(e) && command is Nothing,
            _ => after == Plugins::Loading && command is Nothing,
        },
        Plugins::Loaded(view) => loaded_step(view, message, after, command),
        Plugins::Error(_) => false,
    }
}

/// `plugins` with the plugin `name`, if there is one, marked as `enabled`.
fn set_enabled_flag(plugins: &mut NamedMap<Plugin>, name: &str, enabled: bool)
    ensures
        final(plugins)@ == with_enabled_flag(old(plugins)@, name@, enabled),
{
    match plugins.index_of(name) {
        Some(i) => {
            let mut entry = plugins.take_at(i);
            entry.value.enabled = enabled;
            let ghost changed = entry.value;
            plugins.put_back(i, entry);
            proof {
                assert(changed == Plugin { enabled, ..old(plugins)@[name@] });
                assert(plugins@ =~= old(plugins)@.insert(name@, changed));
            }
        },
        None => {},
    }
}

/// How the loaded view reacts to `message`.
fn loaded_update(view: PluginsView, message: Message) -> (r: (Plugins, Command))
    ensures
        loaded_step(view, message, r.0, r.1),
{
    let mut view = view;
    match message {
        Message::GetPluginsResult(result) => match result {
            Ok(list) => {
                view.plugins = list;
                (Plugins::Loaded(view), Command::Nothing)
            },
            Err(e) => (Plugins::Error(e), Command::Nothing),
        },
        Message::Enable(name) => (Plugins::Loaded(view), Command::EnablePlugin(name)),
        Message::Disable(name) => (Plugins::Loaded(view), Command::DisablePlugin(name)),
        Message::DisableResponse(response) => match response {
            Some(name) => {
                set_enabled_flag(&mut view.plugins, name.as_str(), false);
                (Plugins::Loaded(view), Command::Nothing)
            },
            None => (Plugins::Loaded(view), Command::Nothing),
        },
        Message::EnableResponse(response) => match response {
            Some(name) => {
                set_enabled_flag(&mut view.plugins, name.as_str(), true);
                (Plugins::Loaded(view), Command::Nothing)
            },
            None => (Plugins::Loaded(view), Command::Nothing),
        },
        Message::GoToDetails(name) => {
            view.selected_plugin = Some(name);
            (Plugins::Loaded(view), Command::Nothing)
        },
        Message::GoToOverview => {
            view.selected_plugin = None;
            (Plugins::Loaded(view), Command::Nothing)
        },
        Message::Reload(plugin_name) => (Plugins::Loaded(view), Command::ReloadPlugin(plugin_name)),
        Message::ReloadResponse(response) => match response {
            Ok(new_plugins) => {
                view.plugins = new_plugins;
                view.show_reload_success_message = true;
                (Plugins::Loaded(view), Command::HideReloadMessageAfter(3000))
            },
            Err(e) => (Plugins::Error(e), Command::Nothing),
        },
        Message::HideReloadSuccessfulMessage => {
            view.show_reload_success_message = false;
            (Plugins::Loaded(view), Command::Nothing)
        },
        Message::SelectPluginToInstall => (Plugins::Loaded(view), Command::PickPluginPackage),
        Message::PluginPackagePicked(picked) => match picked {
            Some(path) => (Plugins::Loaded(view), Command::FetchPluginInfo(path)),
            None => (Plugins::Loaded(view), Command::Nothing),
        },
        Message::PluginInfoResponse(result) => match result {
            Ok(info) => {
                view.confirm_installation = Some(info);
                (Plugins::Loaded(view), Command::Nothing)
            },
            Err(e) => {
                view.error = Some(e);
                (Plugins::Loaded(view), Command::Nothing)
            },
        },
        Message::ConfirmInstallation(confirmation) => (
            Plugins::Loaded(view),
            Command::InstallPlugin(confirmation.path),
        ),
        Message::CancelInstallation => {
            view.confirm_installation = None;
            (Plugins::Loaded(view), Command::Nothing)
        },
        Message::InstallResponse(result) => {
            view.confirm_installation = None;
            match result {
                Ok(()) => (Plugins::Loaded(view), Command::FetchPlugins),
                Err(err) => {
                    view.error = Some(err);
                    (Plugins::Loaded(view), Command::FetchPlugins)
                },
            }
        },
        Message::ClearError => {
            view.error = None;
            (Plugins::Loaded(view), Command::Nothing)
        },
        Message::UninstallPlugin(plugin_name) => (Plugins::Loaded(view), Command::UninstallPlugin(plugin_name)),
        Message::UninstallPluginResponse(result) => {
            match result {
                Ok(name) => {
                    let _ = view.plugins.remove(name.as_str());
                    let deselect = match &view.selected_plugin {
                        Some(selected) => *selected == name,
                        None => false,
                    };
                    if deselect {
                        view.selected_plugin = None;
                    }
                },
                Err(err) => {
                    view.error = Some(err);
                },
            }
            (Plugins::Loaded(view), Command::Nothing)
        },
        Message::GoBack => (Plugins::Loaded(view), Command::Nothing),
    }
}

impl Plugins {
    /// The view while the plugin list is being fetched, and the command that fetches it.
    pub fn new() -> (r: (Self, Command))
        ensures
            r.0 is Loading,
            r.1 is FetchPlugins,
    {
        (Plugins::Loading, Command::FetchPlugins)
    }

    /// React to `message`. A view that failed to fetch the plugin list takes no message.
    pub fn update(&mut self, message: Message) -> (command: Command)
        requires
            !(*old(self) is Error),
        ensures
            plugins_step(*old(self), message, *final(self), command),
            match message {
                Message::GetPluginsResult(Ok(list)) => *final(self) matches Plugins::Loaded(v) && v.plugins@ == list@,
                Message::ReloadResponse(Ok(list)) => *old(self) is Loaded ==> (*final(self) matches Plugins::Loaded(v)
                    && v.plugins@ == list@ && v.show_reload_success_message),
                _ => true,
            },
    {
        let mut state = Plugins::Loading;
        std::mem::swap(&mut state, self);
        let (next, command) = match state {
            Plugins::Loading => match message {
                Message::GetPluginsResult(result) => match result {
                    Ok(result) => (
                        Plugins::Loaded(
                            PluginsView {
                                plugins: result,
                                selected_plugin: None,
                                error: None,
                                confirm_installation: None,
                                show_reload_success_message: false,
                            },
                        ),
                        Command::Nothing,
                    ),
                    Err(e) => (Plugins::Error(e), Command::Nothing),
                },
                _ => (Plugins::Loading, Command::Nothing),
            },
            Plugins::Error(e) => (Plugins::Error(e), Command::Nothing),
            Plugins::Loaded(plugins_view) => loaded_update(plugins_view, message),
        };
        *self = next;
        command
    }
}

/// The short state of a plugin shown in the plugin list.
pub open spec fn state_label(plugin: Plugin) -> Seq<char> {
    match plugin.state {
        PluginState::Error(_) => "Error"@,
        PluginState::Unloaded => "Unloaded"@,
        PluginState::Loaded(_) => if plugin.enabled { "Enabled"@ } else { "Disabled"@ },
    }
}

/// The short state of a plugin shown in the plugin list.
pub fn plugin_state_label(plugin: &Plugin) -> (r: &'static str)
    ensures
        r@ == state_label(*plugin),
{
    match &plugin.state {
        PluginState::Error(_) => "Error",
        PluginState::Unloaded => "Unloaded",
        _ => {
            if plugin.enabled {
                "Enabled"
            } else {
                "Disabled"
            }
        },
    }
}

/// The label of the switch that enables and disables a plugin; a plugin in error has none.
pub fn plugin_toggle_label(plugin: &Plugin) -> (r: Option<&'static str>)
    ensures
        match r {
            Some(label) => !(plugin.state is Error) && label@ == if plugin.enabled {
                "Enabled"@
            } else {
                "Disabled"@
            },
            None => plugin.state is Error,
        },
{
    if let PluginState::Error(_) = plugin.state {
        return None;
    }
    if plugin.enabled {
        Some("Enabled")
    } else {
        Some("Disabled")
    }
}

/// The sentence describing the state of a plugin on its details page; a plugin in error
/// shows its error instead.
pub fn plugin_details_state(plugin: &Plugin) -> (r: Option<&'static str>)
    ensures
        match plugin.state {
            PluginState::Error(_) => r is None,
            PluginState::Unloaded => r matches Some(s) && s@ == "The plugin is currently unloaded"@,
            PluginState::Loaded(_) => r matches Some(s) && s@ == if plugin.enabled {
                "The plugin is loaded and enabled"@
            } else {
                "The plugin is loaded but disabled"@
            },
        },
{
    match &plugin.state {
        PluginState::Unloaded => Some("The plugin is currently unloaded"),
        PluginState::Error(_) => None,
        PluginState::Loaded(_) => {
            if plugin.enabled {
                Some("The plugin is loaded and enabled")
            } else {
                Some("The plugin is loaded but disabled")
            }
        },
    }
}

/// The description shown for a plugin: its own, or a note that it has none.
pub fn plugin_description_text(description: &String) -> (r: String)
    ensures
        r@ == if description@.len() > 0 { description@ } else { "No description"@ },
{
    if description.unicode_len() > 0 {
        description.clone()
    } else {
        String::from_str("No description")
    }
}

/// Whether `dependencies` holds the dangerous library.
pub fn has_dangerous_dependency(dependencies: &Vec<PluginDependency>) -> (r: bool)
    ensures
        r == dependencies@.contains(PluginDependency::Dangerous),
{
    let mut i: usize = 0;
    while i < dependencies.len()
        invariant
            i <= dependencies@.len(),
            forall|j: int| 0 <= j < i ==> dependencies@[j] != PluginDependency::Dangerous,
        decreases dependencies@.len() - i,
    {
        if dependencies[i] == PluginDependency::Dangerous {
            return true;
        }
        i = i + 1;
    }
    false
}

/// The warning shown above the dependencies of a plugin that depends on the dangerous library.
pub open spec fn dangerous_dependency_warning() -> Seq<char> {
    "This plugin has a dangerous dependency. This means it is effectively able to escape the usual safety features. Make sure to audit the plugin."@
}

/// The dependency list of a plugin as it is shown.
pub struct DependencyList {
    /// Whether the list starts with the warning about the dangerous library.
    pub dangerous_warning: bool,
    /// The lines of the list.
    pub lines: Vec<String>,
}

/// The line listing `dependency`.
pub open spec fn dependency_line(dependency: PluginDependency) -> Seq<char> {
    "- "@ + dependency_name(dependency)
}

/// The dependency list of a plugin: a note when there are none, else one line per
/// dependency, after a warning if the dangerous library is among them.
pub fn dependencies_list(dependencies: &Vec<PluginDependency>) -> (r: DependencyList)
    ensures
        r.dangerous_warning == dependencies@.contains(PluginDependency::Dangerous),
        dependencies@.len() == 0 ==> r.lines@.len() == 1 && r.lines@[0]@ == "No dependencies"@,
        dependencies@.len() > 0 ==> r.lines@.len() == dependencies@.len() && forall|i: int|
            0 <= i < dependencies@.len() ==> #[trigger] r.lines@[i]@ == dependency_line(dependencies@[i]),
{
    let dangerous_warning = has_dangerous_dependency(dependencies);
    let mut lines: Vec<String> = Vec::new();
    if dependencies.len() == 0 {
        lines.push(String::from_str("No dependencies"));
        return DependencyList { dangerous_warning, lines };
    }
    let mut i: usize = 0;
    while i < dependencies.len()
        invariant
            i <= dependencies@.len(),
            lines@.len() == i,
            forall|j: int| 0 <= j < i ==> #[trigger] lines@[j]@ == dependency_line(dependencies@[j]),
        decreases dependencies@.len() - i,
    {
        let name = dependencies[i].display_name();
        lines.push(concat("- ", name.as_str()));
        i = i + 1;
    }
    DependencyList { dangerous_warning, lines }
}

} // verus!
