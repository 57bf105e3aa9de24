//! Top-level message routing of the process-runner application: window
//! events, interface messages and backend notifications go in; the state
//! moves and an action for the host comes out.

use vstd::prelude::*;
use crate::backend;
use crate::process;

verus! {

/// A window event, reduced to what the router reads.
#[derive(Debug, Clone, Copy, PartialEq, Eq, Structural)]
pub enum WindowEvent {
    /// The user asked to close the window.
    CloseRequested,
    /// Anything else.
    Other,
}

/// A message the application receives.
#[derive(Debug, PartialEq)]
pub enum Message {
    Event(WindowEvent),
    Process(process::Message),
    Backend(backend::Message),
}

/// What the router asks of the host.
#[derive(Debug, PartialEq)]
pub enum Action {
    /// Nothing to do.
    Nothing,
    /// Tell the backend to terminate every child and close.
    CloseBackend,
    /// Close the window: the backend reported completion.
    CloseWindow,
    /// Launch this command line and hand the outcome to `launched`.
    Spawn(String),
}

/// Freshly installed: running, editing an empty command.
pub open spec fn running_fresh(a: App) -> bool {
    a matches App::Running { process: p } && process::is_fresh_idle(p)
}

/// The application: idle until the backend reports ready, then running one
/// command at a time.
#[derive(Debug, PartialEq)]
pub enum App {
    Idle,
    Running { process: process::Process },
}

impl App {
    /// The application starts idle, waiting for the backend.
    pub fn new() -> (a: App)
        ensures
            a is Idle,
    {
        App::Idle
    }

    /// Routes one message. A close request asks the backend to shut down
    /// (only once it exists); interface messages drive the run state and may
    /// ask for a launch; backend notifications install the running state,
    /// deliver exits, and close the window at the very end.
    pub fn update(&mut self, message: Message) -> (action: Action)
        ensures
            message matches Message::Event(e) ==> *final(self) == *old(self) && action == (
            if e is CloseRequested && (*old(self)) is Running {
                Action::CloseBackend
            } else {
                Action::Nothing
            }),
            message matches Message::Process(m) ==> {
                &&& ((*old(self)) is Idle ==> *final(self) == *old(self) && action == Action::Nothing)
                &&& ((*old(self)) matches App::Running { process: p } ==> {
                    &&& (m matches process::Message::Input(input) ==> action == Action::Nothing
                        && *final(self) == (App::Running {
                        process: if p is Idle {
                            process::Process::Idle(input)
                        } else {
                            p
                        },
                    }))
                    &&& (m is Run ==> *final(self) == (App::Running { process: p }) && (
                    match process::run_request(p, m) {
                        Some(c) => action matches Action::Spawn(cmd) && cmd@ == c,
                        None => action == Action::Nothing,
                    }))
                    &&& (m is Reset ==> action == Action::Nothing && running_fresh(*final(self)))
                })
            },
            message matches Message::Backend(note) ==> match note {
                backend::Message::Setup => action == Action::Nothing && running_fresh(
                    *final(self),
                ),
                backend::Message::Spawned(_) => *final(self) == *old(self) && action
                    == Action::Nothing,
                backend::Message::ProcessExited(_id, result) => {
                    &&& action == Action::Nothing
                    &&& ((*old(self)) is Idle ==> *final(self) == *old(self))
                    &&& ((*old(self)) matches App::Running { process: p } ==> *final(self) == (
                    App::Running { process: process::exited_next(p, result) }))
                },
                backend::Message::Closed => *final(self) == *old(self) && action
                    == Action::CloseWindow,
            },
    {
        match message {
            Message::Event(e) => {
                if matches!(e, WindowEvent::CloseRequested) && matches!(self, App::Running { .. }) {
                    Action::CloseBackend
                } else {
                    Action::Nothing
                }
            }
            Message::Process(m) => {
                match self {
                    App::Running { process } => {
                        let run = process.update(m);
                        match run {
                            Some(cmd) => Action::Spawn(cmd),
                            None => Action::Nothing,
                        }
                    }
                    App::Idle => Action::Nothing,
                }
            }
            Message::Backend(note) => match note {
                backend::Message::Setup => {
                    *self = App::Running { process: process::Process::default() };
                    Action::Nothing
                }
                backend::Message::Spawned(_) => Action::Nothing,
                backend::Message::ProcessExited(_id, result) => {
                    if let App::Running { process } = self {
                        process.exited(result);
                    }
                    Action::Nothing
                }
                backend::Message::Closed => Action::CloseWindow,
            },
        }
    }

    /// Applies the outcome of the launch a `Spawn` action asked for,
    /// forwarding it to the run state.
    pub fn launched(&mut self, result: Result<Option<u32>, String>)
        ensures
            (*old(self)) is Idle ==> *final(self) == *old(self),
            (*old(self)) matches App::Running { process: p } ==> {
                &&& (*final(self)) matches App::Running { process: p2 }
                &&& (p matches process::Process::Idle(command) ==> match result {
                    Ok(id_opt) => match id_opt {
                        Some(id) => p2 == process::Process::Running(id, command),
                        None => p2 matches process::Process::Error(c, m) && c == command && m@
                            == "Unknown Error"@,
                    },
                    Err(message) => p2 == process::Process::Error(command, message),
                })
                &&& (!(p is Idle) ==> p2 == p)
            },
    {
        if let App::Running { process } = self {
            process.launched(result);
        }
    }
}

} // verus!
