//! The view state of one command run: the command being edited, the child in
//! flight, and how the run ended. Launching is the host's job: `update`
//! hands the command text out, and the launch outcome comes back through
//! `launched`.

use vstd::prelude::*;
use crate::backend::Exited;

verus! {

/// A message from the user interface.
#[derive(Debug, Clone, PartialEq)]
pub enum Message {
    /// The command text changed.
    Input(String),
    /// Launch the command.
    Run,
    /// Forget the finished run and start over.
    Reset,
}

/// The state of one run.
#[derive(Debug, PartialEq)]
pub enum Process {
    /// Editing this command.
    Idle(String),
    /// The command is running as the child with this identifier.
    Running(u32, String),
    /// The command finished with this Exit Record.
    Exited(String, Exited),
    /// The command could not be launched, or its run failed: the message.
    Error(String, String),
}

/// The state after the running child's exit is applied: a record moves the
/// run to `Exited`, an error message to `Error`; every other state ignores
/// the outcome.
pub open spec fn exited_next(p: Process, result: Result<Exited, String>) -> Process {
    match p {
        Process::Running(_id, command) => match result {
            Ok(record) => Process::Exited(command, record),
            Err(message) => Process::Error(command, message),
        },
        _ => p,
    }
}

/// The command that `message` asks to launch: only `Run` while editing does.
pub open spec fn run_request(p: Process, message: Message) -> Option<Seq<char>> {
    match p {
        Process::Idle(command) => if message is Run {
            Some(command@)
        } else {
            None
        },
        _ => None,
    }
}

/// An idle state holding the empty command.
pub open spec fn is_fresh_idle(p: Process) -> bool {
    p matches Process::Idle(command) && command@ == Seq::<char>::empty()
}

impl Default for Process {
    /// A fresh run state: editing an empty command.
    fn default() -> (p: Self)
        ensures
            p matches Process::Idle(command) && command@ == Seq::<char>::empty(),
    {
        Process::Idle(String::new())
    }
}

impl Process {
    /// Applies the exit of the running child.
    pub fn exited(&mut self, result: Result<Exited, String>)
        ensures
            *final(self) == exited_next(*old(self), result),
    {
        let mut current = Process::Idle(String::new());
        core::mem::swap(self, &mut current);
        match current {
            Process::Running(_id, command) => match result {
                Ok(record) => {
                    *self = Process::Exited(command, record);
                }
                Err(message) => {
                    *self = Process::Error(command, message);
                }
            },
            other => {
                *self = other;
            }
        }
    }

    /// Applies one interface message. `Input` replaces the command while it
    /// is still being edited, `Reset` starts over with an empty command, and
    /// `Run` while editing asks the host to launch the command: the result
    /// carries its text and the state waits for `launched`.
    pub fn update(&mut self, message: Message) -> (run: Option<String>)
        ensures
            message matches Message::Input(input) ==> {
                &&& run is None
                &&& if (*old(self)) is Idle {
                    *final(self) == Process::Idle(input)
                } else {
                    *final(self) == *old(self)
                }
            },
            message is Run ==> *final(self) == *old(self),
            (*old(self)) matches Process::Idle(command) ==> (message is Run ==> (run matches Some(c)
                && c@ == command@)),
            message is Run && !((*old(self)) is Idle) ==> run is None,
            message is Reset ==> run is None && is_fresh_idle(*final(self)),
    {
        match message {
            Message::Input(input) => {
                if let Process::Idle(command) = self {
                    *command = input;
                }
                None
            }
            Message::Run => {
                if let Process::Idle(command) = self {
                    Some(command.clone())
                } else {
                    None
                }
            }
            Message::Reset => {
                *self = Process::Idle(String::new());
                None
            }
        }
    }

    /// Applies the outcome of the launch that `update` requested: an
    /// identifier moves the run to `Running`, a missing identifier or an
    /// error message to `Error`; every other state ignores the outcome.
    pub fn launched(&mut self, result: Result<Option<u32>, String>)
        ensures
            (*old(self)) matches Process::Idle(command) ==> match result {
                Ok(id_opt) => match id_opt {
                    Some(id) => *final(self) == Process::Running(id, command),
                    None => (*final(self)) matches Process::Error(c, m) && c == command && m@
                        == "Unknown Error"@,
                },
                Err(message) => *final(self) == Process::Error(command, message),
            },
            !((*old(self)) is Idle) ==> *final(self) == *old(self),
    {
        let mut current = Process::Idle(String::new());
        core::mem::swap(self, &mut current);
        match current {
            Process::Idle(command) => match result {
                Ok(Some(id)) => {
                    *self = Process::Running(id, command);
                }
                Ok(None) => {
                    *self = Process::Error(command, "Unknown Error".to_owned());
                }
                Err(message) => {
                    *self = Process::Error(command, message);
                }
            },
            other => {
                *self = other;
            }
        }
    }

    /// The command text the state carries.
    pub fn command(&self) -> (r: &String)
        ensures
            r@ == self.command_view(),
    {
        match self {
            Process::Idle(command) => command,
            Process::Running(_, command) => command,
            Process::Exited(command, _) => command,
            Process::Error(command, _) => command,
        }
    }

    /// The command text, whatever the state.
    pub open spec fn command_view(&self) -> Seq<char> {
        match self {
            Process::Idle(command) => command@,
            Process::Running(_, command) => command@,
            Process::Exited(command, _) => command@,
            Process::Error(command, _) => command@,
        }
    }
}

} // verus!
