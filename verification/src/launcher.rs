//! The launcher of the auxiliary server process.
//!
//! The launcher decides and the host performs: the host reports what
//! happened to the process as a `ServerEvent`, and is told what to do next
//! as a `ServerAction`. The server is started once, never restarted, and a
//! failure to start or to await it is reported and goes no further.

use vstd::prelude::*;
use vstd::string::StringExecFns;

verus! {

/// How the server process is invoked.
#[derive(Clone, Debug, PartialEq, Eq)]
pub struct ServerCommand {
    /// The executable.
    pub program: String,
    /// Its arguments, in order.
    pub args: Vec<String>,
    /// The directory it runs in, relative to the host's own.
    pub working_dir: String,
}

impl ServerCommand {
    /// The one invocation the launcher uses: `go run .`, run in the project
    /// root, two levels above the host's own directory.
    pub open spec fn is_server_invocation(&self) -> bool {
        &&& self.program@ == "go"@
        &&& self.args@.len() == 2
        &&& self.args@[0]@ == "run"@
        &&& self.args@[1]@ == "."@
        &&& self.working_dir@ == "../.."@
    }
}

/// Where the server process is in its life.
#[derive(Clone, Copy, Debug, PartialEq, Eq, Structural)]
pub enum ServerState {
    /// Nothing has been asked of the host yet.
    NotStarted,
    /// The host has been asked to spawn the process.
    Starting,
    /// The process runs.
    Running,
    /// The process ran and has ended.
    Exited,
    /// The process could not be spawned, or could not be awaited.
    Failed,
}

/// What the host reports to the launcher.
#[derive(Clone, Copy, Debug, PartialEq, Eq, Structural)]
pub enum ServerEvent {
    /// The application starts up.
    Startup,
    /// The process was spawned.
    Spawned,
    /// Spawning the process failed.
    SpawnFailed,
    /// The process ended.
    Exited,
    /// Waiting for the process failed.
    WaitFailed,
}

/// What the launcher asks of the host.
#[derive(Clone, Copy, Debug, PartialEq, Eq, Structural)]
pub enum ServerAction {
    /// Nothing.
    Nothing,
    /// Spawn the process of `server_command`, in the background.
    Spawn,
    /// Log that the process started, then wait for it to end.
    AwaitExit,
    /// Log the failure to spawn; do not retry.
    ReportFailure,
    /// Log that the process ended.
    ReportExit,
    /// Log the failure to wait for the process.
    ReportWaitFailure,
}

/// The launcher's rules: the next state and the action for an event.
///
/// Startup asks for the one spawn. Its outcome leads to waiting for the
/// process or to reporting the failure; the end of the process, or a failure
/// to wait for it, is reported. An event that does not fit the state asks
/// for nothing and changes nothing.
pub open spec fn supervise(state: ServerState, event: ServerEvent) -> (ServerState, ServerAction) {
    match (state, event) {
        (ServerState::NotStarted, ServerEvent::Startup) => (
            ServerState::Starting,
            ServerAction::Spawn,
        ),
        (ServerState::Starting, ServerEvent::Spawned) => (
            ServerState::Running,
            ServerAction::AwaitExit,
        ),
        (ServerState::Starting, ServerEvent::SpawnFailed) => (
            ServerState::Failed,
            ServerAction::ReportFailure,
        ),
        (ServerState::Running, ServerEvent::Exited) => (
            ServerState::Exited,
            ServerAction::ReportExit,
        ),
        (ServerState::Running, ServerEvent::WaitFailed) => (
            ServerState::Failed,
            ServerAction::ReportWaitFailure,
        ),
        _ => (state, ServerAction::Nothing),
    }
}

/// The state reached from `state` by handling `events` in order.
pub open spec fn state_after(state: ServerState, events: Seq<ServerEvent>) -> ServerState
    decreases events.len(),
{
    if events.len() == 0 {
        state
    } else {
        supervise(state_after(state, events.drop_last()), events.last()).0
    }
}

/// How many times the host is asked to spawn while `events` are handled in
/// order, starting from `state`.
pub open spec fn spawns_during(state: ServerState, events: Seq<ServerEvent>) -> nat
    decreases events.len(),
{
    if events.len() == 0 {
        0
    } else {
        let earlier = events.drop_last();
        let asked = supervise(state_after(state, earlier), events.last()).1;
        spawns_during(state, earlier) + if asked == ServerAction::Spawn {
            1nat
        } else {
            0nat
        }
    }
}

/// The supervisor of the server process.
#[derive(Debug, PartialEq, Eq)]
pub struct ServerLauncher {
    state: ServerState,
}

impl View for ServerLauncher {
    type V = ServerState;

    closed spec fn view(&self) -> ServerState {
        self.state
    }
}

impl ServerLauncher {
    /// A launcher that has not started anything.
    pub fn new() -> (launcher: ServerLauncher)
        ensures
            launcher@ == ServerState::NotStarted,
    {
        ServerLauncher { state: ServerState::NotStarted }
    }

    /// Where the server process is in its life.
    pub fn state(&self) -> (state: ServerState)
        ensures
            state == self@,
    {
        self.state
    }

    /// Handles one report from the host: moves to the next state and
    /// returns what the host is to do.
    pub fn handle(&mut self, event: ServerEvent) -> (action: ServerAction)
        ensures
            (final(self)@, action) == supervise(old(self)@, event),
    {
        match (self.state, event) {
            (ServerState::NotStarted, ServerEvent::Startup) => {
                self.state = ServerState::Starting;
                ServerAction::Spawn
            },
            (ServerState::Starting, ServerEvent::Spawned) => {
                self.state = ServerState::Running;
                ServerAction::AwaitExit
            },
            (ServerState::Starting, ServerEvent::SpawnFailed) => {
                self.state = ServerState::Failed;
                ServerAction::ReportFailure
            },
            (ServerState::Running, ServerEvent::Exited) => {
                self.state = ServerState::Exited;
                ServerAction::ReportExit
            },
            (ServerState::Running, ServerEvent::WaitFailed) => {
                self.state = ServerState::Failed;
                ServerAction::ReportWaitFailure
            },
            _ => ServerAction::Nothing,
        }
    }
}

/// The invocation of the server process.
pub fn server_command() -> (command: ServerCommand)
    ensures
        command.is_server_invocation(),
{
    let mut args: Vec<String> = Vec::new();
    args.push(String::from_str("run"));
    args.push(String::from_str("."));
    ServerCommand {
        program: String::from_str("go"),
        args,
        working_dir: String::from_str("../.."),
    }
}

/// The line logged when the process has started.
pub fn started_line() -> (line: &'static str)
    ensures
        line@ == "Go server started successfully"@,
{
    "Go server started successfully"
}

/// The line logged when the process could not be spawned; `error` is the
/// operating system's message.
pub fn failure_line(error: &str) -> (line: String)
    ensures
        line@ == "Failed to start Go server: "@ + error@,
{
    String::from_str("Failed to start Go server: ").concat(error)
}

/// The line logged when the process has ended.
pub fn exit_line() -> (line: &'static str)
    ensures
        line@ == "Go server exited"@,
{
    "Go server exited"
}

/// The line logged when waiting for the process failed; `error` is the
/// operating system's message.
pub fn wait_failure_line(error: &str) -> (line: String)
    ensures
        line@ == "Failed to wait for Go server: "@ + error@,
{
    String::from_str("Failed to wait for Go server: ").concat(error)
}

/// Handling any events from the start asks for a spawn at most once: once
/// exactly if startup was ever handled, never before.
pub proof fn law_at_most_one_spawn(events: Seq<ServerEvent>)
    ensures
        spawns_during(ServerState::NotStarted, events) <= 1,
        spawns_during(ServerState::NotStarted, events) == 1 <==> state_after(
            ServerState::NotStarted,
            events,
        ) != ServerState::NotStarted,
    decreases events.len(),
{
    if events.len() > 0 {
        law_at_most_one_spawn(events.drop_last());
    }
}

/// A failure is final, and so is the end of the process: whatever is
/// reported afterwards, the launcher stays where it is and never asks for
/// another spawn.
pub proof fn law_no_restart(state: ServerState, events: Seq<ServerEvent>)
    requires
        state == ServerState::Failed || state == ServerState::Exited,
    ensures
        state_after(state, events) == state,
        spawns_during(state, events) == 0,
    decreases events.len(),
{
    if events.len() > 0 {
        law_no_restart(state, events.drop_last());
    }
}

/// A failure to spawn is reported, and only that: from `Starting` the
/// launcher goes to `Failed` and asks for the failure to be logged.
pub proof fn law_spawn_failure_reported()
    ensures
        supervise(ServerState::Starting, ServerEvent::SpawnFailed) == (
            ServerState::Failed,
            ServerAction::ReportFailure,
        ),
        forall|event: ServerEvent| #[trigger]
            supervise(ServerState::Failed, event) == (ServerState::Failed, ServerAction::Nothing),
{
}

} // verus!
