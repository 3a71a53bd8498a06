//! The vocabulary shared by the supervisor and the code that drives it:
//! the supervisor asks for outside work with an [`Action`], and the driver
//! reports what came of it with an [`Event`].

use crate::spawn_spec::{text_of, SpawnSpec, SpawnSpecView};
use crate::teardown::TeardownStep;
use vstd::prelude::*;

verus! {

/// Where the supervisor stands in its single-shot lifecycle.
#[derive(Clone, Copy, Debug, PartialEq, Eq, Structural)]
pub enum Phase {
    /// Nothing has been asked of it yet.
    Idle,
    /// It is working towards a running child.
    Spawning,
    /// The child runs; it is not yet known to accept connections.
    Starting,
    /// The child accepted a connection and its port is published.
    Ready,
    /// Startup failed; the application goes on without the sidecar.
    Failed,
    /// Teardown has run.
    Terminated,
}

/// The lifecycle in full detail: each phase split by the outside work that
/// the supervisor is waiting for.
#[derive(Clone, Copy, Debug, PartialEq, Eq, Structural)]
pub enum Stage {
    Idle,
    AwaitingPort,
    AwaitingExecutable,
    AwaitingEnvironment,
    AwaitingChild,
    Probing,
    Pausing,
    Ready,
    Failed,
    Terminated,
}

/// The phase that a stage belongs to.
pub open spec fn phase_of(stage: Stage) -> Phase {
    match stage {
        Stage::Idle => Phase::Idle,
        Stage::AwaitingPort => Phase::Spawning,
        Stage::AwaitingExecutable => Phase::Spawning,
        Stage::AwaitingEnvironment => Phase::Spawning,
        Stage::AwaitingChild => Phase::Spawning,
        Stage::Probing => Phase::Starting,
        Stage::Pausing => Phase::Starting,
        Stage::Ready => Phase::Ready,
        Stage::Failed => Phase::Failed,
        Stage::Terminated => Phase::Terminated,
    }
}

/// Whether a stage lies before the child has been started.
pub open spec fn before_child(stage: Stage) -> bool {
    phase_of(stage) == Phase::Idle || phase_of(stage) == Phase::Spawning
}

/// Why the sidecar is unavailable.
#[derive(Clone, Copy, Debug, PartialEq, Eq)]
pub enum StartError {
    /// The system would not bind a loopback port.
    PortAllocationFailed,
    /// No bundled server binary was found.
    ExecutableNotFound,
    /// The system refused to start the process; `os_error` is its error
    /// number where it gave one.
    SpawnFailed { os_error: Option<i32> },
    /// The child started but accepted no connection within the policy's
    /// attempts. It is left running.
    ReadinessTimeout,
}

/// What the driver reports to the supervisor.
#[derive(Clone, Debug, PartialEq, Eq)]
pub enum Event {
    /// The application asks for the sidecar.
    Start,
    /// An attempt to bind a free loopback port ended; `None` if it failed.
    PortAllocated { port: Option<u16> },
    /// The search for the server binary ended; `None` if nothing was found.
    ExecutableLocated { executable: Option<String> },
    /// The child's surroundings are prepared: the database path and the
    /// schema path, each where it could be determined.
    EnvironmentPrepared { database_path: Option<String>, schema_path: Option<String> },
    /// The child process runs under the given process id.
    SpawnSucceeded { pid: u32 },
    /// The system refused to start the child.
    SpawnFailed { os_error: Option<i32> },
    /// A connection attempt to the sidecar's port succeeded.
    ProbeConnected,
    /// A connection attempt to the sidecar's port failed.
    ProbeRefused,
    /// A pause that the supervisor asked for is over.
    PauseElapsed,
    /// The application is exiting.
    Shutdown,
}

/// An [`Event`] as plain mathematical data.
pub enum EventView {
    Start,
    PortAllocated { port: Option<u16> },
    ExecutableLocated { executable: Option<Seq<char>> },
    EnvironmentPrepared { database_path: Option<Seq<char>>, schema_path: Option<Seq<char>> },
    SpawnSucceeded { pid: u32 },
    SpawnFailed { os_error: Option<i32> },
    ProbeConnected,
    ProbeRefused,
    PauseElapsed,
    Shutdown,
}

impl View for Event {
    type V = EventView;

    open spec fn view(&self) -> EventView {
        match *self {
            Event::Start => EventView::Start,
            Event::PortAllocated { port } => EventView::PortAllocated { port },
            Event::ExecutableLocated { executable } => EventView::ExecutableLocated {
                executable: text_of(executable),
            },
            Event::EnvironmentPrepared { database_path, schema_path } => {
                EventView::EnvironmentPrepared {
                    database_path: text_of(database_path),
                    schema_path: text_of(schema_path),
                }
            },
            Event::SpawnSucceeded { pid } => EventView::SpawnSucceeded { pid },
            Event::SpawnFailed { os_error } => EventView::SpawnFailed { os_error },
            Event::ProbeConnected => EventView::ProbeConnected,
            Event::ProbeRefused => EventView::ProbeRefused,
            Event::PauseElapsed => EventView::PauseElapsed,
            Event::Shutdown => EventView::Shutdown,
        }
    }
}

/// What the supervisor asks the driver to do next. After `Nothing`,
/// `Publish`, `Report` and `Teardown` there is nothing to report back.
#[derive(Clone, Debug, PartialEq, Eq)]
pub enum Action {
    /// Nothing: the event did not concern the supervisor in its stage.
    Nothing,
    /// Bind a loopback port chosen by the system, note it, release it.
    AllocatePort,
    /// Search the known places for the server binary.
    LocateExecutable,
    /// Prepare the launch of `executable`: make the file executable where
    /// `make_executable` is set, create the data directory, find the schema.
    PrepareEnvironment { executable: String, make_executable: bool },
    /// Start the child as specified.
    Spawn { spec: SpawnSpec },
    /// Try to connect to the loopback port.
    Probe { port: u16 },
    /// Wait for the given time.
    Pause { millis: u64 },
    /// Make the port known to the rest of the application.
    Publish { port: u16 },
    /// Tell the operator that the sidecar is unavailable, and why.
    Report { error: StartError },
    /// Perform the kill sequence, in order, disregarding failures.
    Teardown { plan: Vec<TeardownStep> },
}

/// An [`Action`] as plain mathematical data.
pub enum ActionView {
    Nothing,
    AllocatePort,
    LocateExecutable,
    PrepareEnvironment { executable: Seq<char>, make_executable: bool },
    Spawn { spec: SpawnSpecView },
    Probe { port: u16 },
    Pause { millis: u64 },
    Publish { port: u16 },
    Report { error: StartError },
    Teardown { plan: Seq<TeardownStep> },
}

impl View for Action {
    type V = ActionView;

    open spec fn view(&self) -> ActionView {
        match *self {
            Action::Nothing => ActionView::Nothing,
            Action::AllocatePort => ActionView::AllocatePort,
            Action::LocateExecutable => ActionView::LocateExecutable,
            Action::PrepareEnvironment { executable, make_executable } => {
                ActionView::PrepareEnvironment { executable: executable@, make_executable }
            },
            Action::Spawn { spec } => ActionView::Spawn { spec: spec@ },
            Action::Probe { port } => ActionView::Probe { port },
            Action::Pause { millis } => ActionView::Pause { millis },
            Action::Publish { port } => ActionView::Publish { port },
            Action::Report { error } => ActionView::Report { error },
            Action::Teardown { plan } => ActionView::Teardown { plan: plan@ },
        }
    }
}

} // verus!
