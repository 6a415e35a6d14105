//! The loading view of the plugin manager's user interface: finding the mod's file,
//! waiting for Future Cop to start, injecting the mod and waiting for it to answer.
use vstd::prelude::*;

use crate::text::concat;

verus! {

/// The state of the loading view.
pub enum Loading {
    /// The mod's file was not found; the user has to pick it.
    NoPath,
    /// Waiting for Future Cop to start, to inject the mod at `mod_path`.
    WaitingForProgram { mod_path: String },
    /// Injecting the mod at `mod_path` failed.
    InjectionError { mod_path: String, error: String },
    /// The mod was injected; waiting for it to answer.
    WaitingForMod,
}

/// What came of an attempt to inject the mod into Future Cop.
pub enum InjectionOutcome {
    /// The mod was injected.
    Injected,
    /// Future Cop runs, but the mod could not be injected; the reason is attached.
    InjectionFailed(String),
    /// Future Cop does not run yet.
    ProcessNotRunning,
    /// Looking for Future Cop failed; the reason is attached.
    HandleError(String),
}

/// What the user did, or what came of the work the view asked for.
pub enum Message {
    OpenPathSelection,
    CheckIfStarted,
    IsModActive(bool),
    /// The mod file the user picked, if any.
    ModPathPicked(Option<String>),
    /// What came of the attempt to inject the mod at `mod_path`.
    InjectionAttempted { mod_path: String, outcome: InjectionOutcome },
}

/// The work the view asks for; each answers with the message named here.
pub enum Command {
    Nothing,
    /// Answers `CheckIfStarted` right away.
    CheckIfStarted,
    /// Let the user pick the mod file; answers `ModPathPicked`.
    PickModPath,
    /// Try to inject the mod at this path; answers `InjectionAttempted`.
    TryInject(String),
    /// Ask whether the mod runs; answers `IsModActive`.
    CheckModRunning,
    /// Wait that many milliseconds, then ask whether the mod runs; answers `IsModActive`.
    CheckModRunningAfter(u64),
    /// Wait that many milliseconds; answers `CheckIfStarted`.
    RetryInjectionAfter(u64),
}

/// How long to wait before asking the mod again whether it runs, in milliseconds.
pub open spec fn mod_poll_delay() -> u64 {
    500
}

/// How long to wait before trying to inject the mod again, in milliseconds.
pub open spec fn injection_retry_delay() -> u64 {
    100
}

/// The message shown when injecting the mod failed for the reason `reason`.
pub open spec fn injection_error_message(reason: Seq<char>) -> Seq<char> {
    "Could not inject the mod: "@ + reason
}

/// How the loading view in state `before` reacts to `message`.
pub open spec fn loading_step(before: Loading, message: Message, after: Loading, command: Command) -> bool {
    match message {
        Message::ModPathPicked(Some(path)) => after == (Loading::WaitingForProgram { mod_path: path })
            && command is CheckModRunning,
        Message::ModPathPicked(None) => after == before && command is Nothing,
        Message::InjectionAttempted { mod_path, outcome } => match outcome {
            InjectionOutcome::Injected => after is WaitingForMod && command is CheckModRunning,
            InjectionOutcome::InjectionFailed(reason) => after matches Loading::InjectionError { mod_path: p, error }
                && p == mod_path && error@ == injection_error_message(reason@) && command is Nothing,
            _ => after == before && command == Command::RetryInjectionAfter(injection_retry_delay()),
        },
        _ => after == before && match before {
            Loading::WaitingForProgram { mod_path } => match message {
                Message::CheckIfStarted => command == Command::TryInject(mod_path),
                Message::OpenPathSelection => command is PickModPath,
                _ => command is Nothing,
            },
            Loading::InjectionError { mod_path, .. } => match message {
                Message::CheckIfStarted => command == Command::TryInject(mod_path),
                _ => command is Nothing,
            },
            Loading::WaitingForMod => match message {
                Message::IsModActive(false) => command == Command::CheckModRunningAfter(mod_poll_delay()),
                _ => command is Nothing,
            },
            Loading::NoPath => match message {
                Message::OpenPathSelection => command is PickModPath,
                _ => command is Nothing,
            },
        },
    }
}

/// A copy of a path.
fn copy_path(path: &String) -> (r: String)
    ensures
        r == *path,
{
    path.clone()
}

impl Loading {
    /// The loading view as it opens, for the mod file at `mod_path`; `exists` tells whether
    /// that file exists.
    pub fn new(mod_path: String, exists: bool) -> (r: (Self, Command))
        ensures
            exists ==> r.0 == (Loading::WaitingForProgram { mod_path }) && r.1 is CheckIfStarted,
            !exists ==> r.0 is NoPath && r.1 is Nothing,
    {
        if exists {
            (Loading::WaitingForProgram { mod_path }, Command::CheckIfStarted)
        } else {
            (Loading::NoPath, Command::Nothing)
        }
    }

    /// React to `message`.
    pub fn update(&mut self, msg: Message) -> (command: Command)
        ensures
            loading_step(*old(self), msg, *final(self), command),
    {
        match msg {
            Message::ModPathPicked(picked) => {
                return self.pick_mod_path(picked);
            },
            Message::InjectionAttempted { mod_path, outcome } => {
                return self.try_to_inject_mod(mod_path, outcome);
            },
            _ => {},
        }
        match self {
            Loading::WaitingForProgram { mod_path } => match msg {
                Message::CheckIfStarted => Command::TryInject(copy_path(mod_path)),
                Message::OpenPathSelection => Command::PickModPath,
                _ => Command::Nothing,
            },
            Loading::InjectionError { mod_path, .. } => match msg {
                Message::CheckIfStarted => Command::TryInject(copy_path(mod_path)),
                _ => Command::Nothing,
            },
            Loading::WaitingForMod => match msg {
                Message::IsModActive(is_active) => {
                    if is_active {
                        // The main view takes over once the mod is active.
                        Command::Nothing
                    } else {
                        Command::CheckModRunningAfter(500)
                    }
                },
                _ => Command::Nothing,
            },
            Loading::NoPath => match msg {
                Message::OpenPathSelection => Command::PickModPath,
                _ => Command::Nothing,
            },
        }
    }

    /// The user picked the mod file `picked`, if any.
    fn pick_mod_path(&mut self, picked: Option<String>) -> (command: Command)
        ensures
            loading_step(*old(self), Message::ModPathPicked(picked), *final(self), command),
    {
        match picked {
            Some(path) => {
                *self = Loading::WaitingForProgram { mod_path: path };
                Command::CheckModRunning
            },
            None => Command::Nothing,
        }
    }

    /// What came of trying to inject the mod at `mod_path`.
    fn try_to_inject_mod(&mut self, mod_path: String, outcome: InjectionOutcome) -> (command: Command)
        ensures
            loading_step(
                *old(self),
                Message::InjectionAttempted { mod_path, outcome },
                *final(self),
                command,
            ),
    {
        match outcome {
            InjectionOutcome::Injected => {
                *self = Loading::WaitingForMod;
                Command::CheckModRunning
            },
            InjectionOutcome::InjectionFailed(reason) => {
                let error = concat("Could not inject the mod: ", reason.as_str());
                *self = Loading::InjectionError { error, mod_path };
                Command::Nothing
            },
            _ => Command::RetryInjectionAfter(100),
        }
    }
}

} // verus!
