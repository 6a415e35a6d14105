//! The plugin manager's user interface as a whole: the loading view until the mod runs,
//! then the main view.
use vstd::prelude::*;
use vstd::string::*;

use crate::injector::view::{loading, main};

verus! {

/// The state of the user interface.
pub enum ModInjector {
    Loading(loading::Loading),
    Main(main::Main),
}

/// A message of the user interface.
pub enum Message {
    Loading(loading::Message),
    /// The icon font finished loading; `true` if it loaded.
    FontLoaded(bool),
    Main(main::Message),
}

/// The work the user interface asks for.
pub enum Command {
    Nothing,
    Loading(loading::Command),
    Main(main::Command),
}

/// Whether the user interface may take `message` in state `state`.
pub open spec fn takes(state: ModInjector, message: Message) -> bool {
    match state {
        ModInjector::Main(m) => match message {
            Message::Main(mm) => main::takes(m, mm),
            _ => true,
        },
        _ => true,
    }
}

/// How the user interface in state `before` reacts to `message`.
pub open spec fn injector_step(before: ModInjector, message: Message, after: ModInjector, command: Command) -> bool {
    match before {
        ModInjector::Loading(l) => match message {
            Message::Loading(loading::Message::IsModActive(true)) => after matches ModInjector::Main(m)
                && m.logs.state is Disconnected && m.logs.logs@.len() == 0 && m.view is None && command is Nothing,
            Message::Loading(lm) => after matches ModInjector::Loading(l2) && command matches Command::Loading(c)
                && loading::loading_step(l, lm, l2, c),
            _ => after == before && command is Nothing,
        },
        ModInjector::Main(m) => match message {
            Message::Main(mm) => after matches ModInjector::Main(m2) && command matches Command::Main(c)
                && main::main_step(m, mm, m2, c),
            _ => after == before && command is Nothing,
        },
    }
}

impl ModInjector {
    /// The user interface as it starts: the loading view for the mod file at `mod_path`,
    /// which `exists` tells whether it exists.
    pub fn new(mod_path: String, exists: bool) -> (r: (Self, Command))
        ensures
            r.0 matches ModInjector::Loading(l) && r.1 matches Command::Loading(c) && (exists ==> l
                == (loading::Loading::WaitingForProgram { mod_path }) && c is CheckIfStarted) && (!exists
                ==> l is NoPath && c is Nothing),
    {
        let (loading, command) = loading::Loading::new(mod_path, exists);
        (ModInjector::Loading(loading), Command::Loading(command))
    }

    /// The title of the window.
    pub fn title(&self) -> (r: String)
        ensures
            r@ == "FutureCop Mod"@,
    {
        String::from_str("FutureCop Mod")
    }

    /// React to `message`.
    pub fn update(&mut self, message: Message) -> (command: Command)
        requires
            takes(*old(self), message),
        ensures
            injector_step(*old(self), message, *final(self), command),
    {
        match self {
            ModInjector::Loading(loading) => {
                if let Message::Loading(loading::Message::IsModActive(true)) = message {
                    let main = main::Main::new();
                    *self = ModInjector::Main(main);
                    return Command::Nothing;
                }
                if let Message::Loading(message) = message {
                    return Command::Loading(loading.update(message));
                }
                Command::Nothing
            },
            ModInjector::Main(main) => match message {
                Message::Main(message) => Command::Main(main.update(message)),
                _ => Command::Nothing,
            },
        }
    }
}

} // verus!
