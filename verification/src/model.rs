//! The supervisor as a mathematical state machine: a state, and for each
//! event the state that follows and the action that is asked for.

use crate::platform::{uses_permission_bits, Platform};
use crate::protocol::{before_child, ActionView, EventView, Stage, StartError};
use crate::readiness::ReadinessPolicy;
use crate::spawn_spec::spawn_spec;
use crate::teardown::plan_for;
use vstd::prelude::*;

verus! {

/// Everything the supervisor knows.
pub struct State {
    /// The platform it drives.
    pub platform: Platform,
    /// How long it waits for readiness.
    pub policy: ReadinessPolicy,
    /// Where it stands.
    pub stage: Stage,
    /// The port allocated for the sidecar; 0 before allocation.
    pub port: u16,
    /// Path of the server binary; empty before it is located.
    pub executable: Seq<char>,
    /// Process id of the child that the supervisor holds, if any.
    pub child: Option<u32>,
    /// The published port; 0 means "not ready".
    pub published: u16,
    /// Connection attempts that have failed so far.
    pub failed_probes: u32,
    /// Why startup failed, if it did.
    pub failure: Option<StartError>,
}

/// The state of a fresh supervisor.
pub open spec fn initial(platform: Platform, policy: ReadinessPolicy) -> State {
    State {
        platform,
        policy,
        stage: Stage::Idle,
        port: 0,
        executable: Seq::empty(),
        child: None,
        published: 0,
        failed_probes: 0,
        failure: None,
    }
}

impl State {
    /// What holds of every state that a supervisor can be in.
    pub open spec fn wf(self) -> bool {
        &&& self.failed_probes <= self.policy.attempts
        &&& self.published != 0 ==> self.published == self.port && (self.stage == Stage::Ready
            || self.stage == Stage::Terminated)
        &&& self.child is Some ==> self.port != 0
        &&& before_child(self.stage) ==> self.child is None && self.published == 0
            && self.failed_probes == 0 && self.failure is None
        &&& self.stage == Stage::Idle || self.stage == Stage::AwaitingPort ==> self.port == 0
        &&& self.stage == Stage::AwaitingExecutable || self.stage == Stage::AwaitingEnvironment
            || self.stage == Stage::AwaitingChild ==> self.port != 0
        &&& self.stage == Stage::Probing ==> self.child is Some && self.failure is None
            && self.published == 0 && self.failed_probes < self.policy.attempts
        &&& self.stage == Stage::Pausing ==> self.child is Some && self.failure is None
            && self.published == 0 && self.failed_probes >= 1
        &&& self.stage == Stage::Ready ==> self.child is Some && self.failure is None
            && self.published == self.port
        &&& self.stage == Stage::Failed ==> self.failure is Some && self.published == 0
    }
}

/// Startup ends in failure: the error is recorded and reported.
pub open spec fn fail(s: State, error: StartError) -> (State, ActionView) {
    (State { stage: Stage::Failed, failure: Some(error), ..s }, ActionView::Report { error })
}

/// An event that does not concern the supervisor in its stage changes nothing.
pub open spec fn ignore(s: State) -> (State, ActionView) {
    (s, ActionView::Nothing)
}

/// The application asks for the sidecar: a port is needed first.
pub open spec fn on_start(s: State) -> (State, ActionView) {
    if s.stage == Stage::Idle {
        (State { stage: Stage::AwaitingPort, ..s }, ActionView::AllocatePort)
    } else {
        ignore(s)
    }
}

/// The port allocation ended. A port was bound if the system gave a
/// number other than 0, which stands for "no port".
pub open spec fn on_port_allocated(s: State, port: Option<u16>) -> (State, ActionView) {
    if s.stage == Stage::AwaitingPort {
        match port {
            Some(p) if p != 0 => (
                State { stage: Stage::AwaitingExecutable, port: p, ..s },
                ActionView::LocateExecutable,
            ),
            _ => fail(s, StartError::PortAllocationFailed),
        }
    } else {
        ignore(s)
    }
}

/// The search for the server binary ended.
pub open spec fn on_executable_located(s: State, executable: Option<Seq<char>>) -> (
    State,
    ActionView,
) {
    if s.stage == Stage::AwaitingExecutable {
        match executable {
            Some(path) => (
                State { stage: Stage::AwaitingEnvironment, executable: path, ..s },
                ActionView::PrepareEnvironment {
                    executable: path,
                    make_executable: uses_permission_bits(s.platform),
                },
            ),
            None => fail(s, StartError::ExecutableNotFound),
        }
    } else {
        ignore(s)
    }
}

/// The surroundings are prepared: the child can be started, with the
/// allocated port in its environment.
pub open spec fn on_environment_prepared(
    s: State,
    database_path: Option<Seq<char>>,
    schema_path: Option<Seq<char>>,
) -> (State, ActionView) {
    if s.stage == Stage::AwaitingEnvironment {
        (
            State { stage: Stage::AwaitingChild, ..s },
            ActionView::Spawn {
                spec: spawn_spec(s.platform, s.executable, s.port, database_path, schema_path),
            },
        )
    } else {
        ignore(s)
    }
}

/// The child runs: the supervisor holds it from now on and starts polling,
/// unless the policy allows no attempt at all.
pub open spec fn on_spawn_succeeded(s: State, pid: u32) -> (State, ActionView) {
    if s.stage == Stage::AwaitingChild {
        let holding = State { child: Some(pid), ..s };
        if s.policy.attempts == 0 {
            fail(holding, StartError::ReadinessTimeout)
        } else {
            (State { stage: Stage::Probing, ..holding }, ActionView::Probe { port: s.port })
        }
    } else {
        ignore(s)
    }
}

/// The system refused to start the child.
pub open spec fn on_spawn_failed(s: State, os_error: Option<i32>) -> (State, ActionView) {
    if s.stage == Stage::AwaitingChild {
        fail(s, StartError::SpawnFailed { os_error })
    } else {
        ignore(s)
    }
}

/// The sidecar accepted a connection: it is ready and its port is published.
pub open spec fn on_probe_connected(s: State) -> (State, ActionView) {
    if s.stage == Stage::Probing {
        (
            State { stage: Stage::Ready, published: s.port, ..s },
            ActionView::Publish { port: s.port },
        )
    } else {
        ignore(s)
    }
}

/// A connection attempt failed: it is counted and followed by a pause.
pub open spec fn on_probe_refused(s: State) -> (State, ActionView) {
    if s.stage == Stage::Probing {
        (
            State { stage: Stage::Pausing, failed_probes: (s.failed_probes + 1) as u32, ..s },
            ActionView::Pause { millis: s.policy.interval_millis as u64 },
        )
    } else {
        ignore(s)
    }
}

/// A pause is over: the next attempt, or failure once all are used up.
pub open spec fn on_pause_elapsed(s: State) -> (State, ActionView) {
    if s.stage == Stage::Pausing {
        if s.failed_probes < s.policy.attempts {
            (State { stage: Stage::Probing, ..s }, ActionView::Probe { port: s.port })
        } else {
            fail(s, StartError::ReadinessTimeout)
        }
    } else {
        ignore(s)
    }
}

/// Teardown, from any stage: the kill sequence for the child that is held,
/// after which the supervisor holds none and is done.
pub open spec fn on_shutdown(s: State) -> (State, ActionView) {
    (
        State { stage: Stage::Terminated, child: None, ..s },
        ActionView::Teardown { plan: plan_for(s.platform, s.child) },
    )
}

/// The state that follows `s` on event `e`, and the action asked for.
pub open spec fn step(s: State, e: EventView) -> (State, ActionView) {
    match e {
        EventView::Start => on_start(s),
        EventView::PortAllocated { port } => on_port_allocated(s, port),
        EventView::ExecutableLocated { executable } => on_executable_located(s, executable),
        EventView::EnvironmentPrepared { database_path, schema_path } => {
            on_environment_prepared(s, database_path, schema_path)
        },
        EventView::SpawnSucceeded { pid } => on_spawn_succeeded(s, pid),
        EventView::SpawnFailed { os_error } => on_spawn_failed(s, os_error),
        EventView::ProbeConnected => on_probe_connected(s),
        EventView::ProbeRefused => on_probe_refused(s),
        EventView::PauseElapsed => on_pause_elapsed(s),
        EventView::Shutdown => on_shutdown(s),
    }
}

/// Every step keeps the state well-formed.
pub proof fn lemma_step_preserves_wf(s: State, e: EventView)
    requires
        s.wf(),
    ensures
        step(s, e).0.wf(),
{
}

} // verus!
