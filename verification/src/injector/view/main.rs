//! The main view of the plugin manager's user interface: the menu, the plugin list and the
//! log view, and the log records received from the mod.
use vstd::prelude::*;
use vstd::string::*;
use vstd::view::View as _;

use crate::injector::view::logs;
use crate::injector::view::plugins;
use crate::server::LogRecord;

verus! {

/// The view shown inside the main view, if any.
pub enum View {
    Plugins(plugins::Plugins),
    Logs(logs::Logs),
}

/// What happened on the connection that streams the mod's log.
pub enum LogEvent {
    Connected,
    Disconnected,
    Message(LogRecord),
}

/// What the user did, what the mod answered, or what arrived on the log connection.
pub enum Message {
    ToLogs,
    ToPlugins,
    Plugins(plugins::Message),
    Logs(logs::Message),
    LogEvent(LogEvent),
}

/// The state of the connection that streams the mod's log.
pub enum LogState {
    Disconnected,
    Connecting,
    Connected,
    Error(String),
}

/// The log received from the mod.
pub struct Logs {
    pub state: LogState,
    pub logs: Vec<LogRecord>,
}

/// The main view.
pub struct Main {
    pub logs: Logs,
    pub view: Option<View>,
}

/// The work the main view asks for.
pub enum Command {
    Nothing,
    Plugins(plugins::Command),
}

/// Whether the main view may take `message` in state `main`: the plugin list view takes no
/// message but "go back" once fetching the plugin list failed.
pub open spec fn takes(main: Main, message: Message) -> bool {
    match message {
        Message::Plugins(m) => match main.view {
            Some(View::Plugins(p)) => !(p is Error) || m is GoBack,
            _ => true,
        },
        _ => true,
    }
}

/// How the main view reacts to `message`, apart from log events.
pub open spec fn view_step(before: Option<View>, message: Message, after: Option<View>, command: Command) -> bool {
    match before {
        Some(View::Plugins(p)) => match message {
            Message::Plugins(m) => if m is GoBack {
                after is None && command is Nothing
            } else {
                after matches Some(View::Plugins(p2)) && command matches Command::Plugins(c)
                    && plugins::plugins_step(p, m, p2, c)
            },
            _ => after == before && command is Nothing,
        },
        Some(View::Logs(l)) => match message {
            Message::Logs(m) => if m is GoBack {
                after is None && command is Nothing
            } else {
                after == Some(View::Logs(logs::logs_step(l, m))) && command is Nothing
            },
            _ => after == before && command is Nothing,
        },
        None => match message {
            Message::ToPlugins => after == Some(View::Plugins(plugins::Plugins::Loading)) && command
                == Command::Plugins(plugins::Command::FetchPlugins),
            Message::ToLogs => after == Some(View::Logs(logs::initial_logs())) && command is Nothing,
            _ => after == before && command is Nothing,
        },
    }
}

/// How the main view reacts to `message`.
pub open spec fn main_step(before: Main, message: Message, after: Main, command: Command) -> bool {
    match message {
        Message::LogEvent(event) => after.view == before.view && command is Nothing && match event {
            LogEvent::Connected => after.logs.state is Connected && after.logs.logs == before.logs.logs,
            LogEvent::Disconnected => after.logs.state matches LogState::Error(m) && m@ == "Got disconnected"@
                && after.logs.logs@.len() == 0,
            LogEvent::Message(record) => after.logs.state == before.logs.state && after.logs.logs@
                == before.logs.logs@.push(record),
        },
        _ => after.logs == before.logs && view_step(before.view, message, after.view, command),
    }
}

impl Main {
    /// The main view as it opens: the menu, with no log received yet.
    pub fn new() -> (r: Self)
        ensures
            r.logs.state is Disconnected,
            r.logs.logs@.len() == 0,
            r.view is None,
    {
        Main { logs: Logs { state: LogState::Disconnected, logs: Vec::new() }, view: None }
    }

    /// React to `message`.
    pub fn update(&mut self, message: Message) -> (command: Command)
        requires
            takes(*old(self), message),
        ensures
            main_step(*old(self), message, *final(self), command),
    {
        match message {
            Message::LogEvent(event) => {
                match event {
                    LogEvent::Connected => {
                        self.logs.state = LogState::Connected;
                    },
                    LogEvent::Disconnected => {
                        self.logs.state = LogState::Error(String::from_str("Got disconnected"));
                        self.logs.logs.clear();
                    },
                    LogEvent::Message(record) => {
                        self.logs.logs.push(record);
                    },
                }
                return Command::Nothing;
            },
            _ => {},
        }

        let mut view: Option<View> = None;
        std::mem::swap(&mut view, &mut self.view);
        let (next, command) = match view {
            Some(View::Plugins(plugins)) => match message {
                Message::Plugins(m) => match m {
                    plugins::Message::GoBack => (None, Command::Nothing),
                    m => {
                        let mut plugins = plugins;
                        let c = plugins.update(m);
                        (Some(View::Plugins(plugins)), Command::Plugins(c))
                    },
                },
                _ => (Some(View::Plugins(plugins)), Command::Nothing),
            },
            Some(View::Logs(logs)) => match message {
                Message::Logs(m) => match m {
                    logs::Message::GoBack => (None, Command::Nothing),
                    m => {
                        let mut logs = logs;
                        logs.update(m);
                        (Some(View::Logs(logs)), Command::Nothing)
                    },
                },
                _ => (Some(View::Logs(logs)), Command::Nothing),
            },
            None => match message {
                Message::ToPlugins => {
                    let (view, command) = plugins::Plugins::new();
                    (Some(View::Plugins(view)), Command::Plugins(command))
                },
                Message::ToLogs => {
                    let view = logs::Logs::new();
                    (Some(View::Logs(view)), Command::Nothing)
                },
                _ => (None, Command::Nothing),
            },
        };
        self.view = next;
        command
    }
}

} // verus!
