//! The supervisor itself: the state machine of [`crate::model`], executable.
//!
//! Its four operations appear as follows. Spawning runs from
//! [`Event::Start`] to the report of the spawn's outcome; on the way the
//! supervisor asks for a port, the server binary, its surroundings, and
//! the spawn itself. Waiting for readiness is the exchange of
//! [`Action::Probe`] and [`Action::Pause`] with their outcomes, bounded by
//! the [`ReadinessPolicy`]. Publication is [`Action::Publish`], asked for
//! on the first successful connection. Teardown is
//! [`Supervisor::teardown`], at any time.

use crate::model::{initial, lemma_step_preserves_wf, step, State};
use crate::platform::Platform;
use crate::protocol::{phase_of, Action, ActionView, Event, EventView, Phase, Stage, StartError};
use crate::readiness::ReadinessPolicy;
use crate::spawn_spec::SpawnSpec;
use crate::teardown::{teardown_plan, TeardownStep};
use vstd::prelude::*;

verus! {

/// The part of the supervisor's state that is plain numbers and tags.
#[derive(Clone, Copy, Debug)]
struct Core {
    platform: Platform,
    policy: ReadinessPolicy,
    stage: Stage,
    port: u16,
    child: Option<u32>,
    published: u16,
    failed_probes: u32,
    failure: Option<StartError>,
}

/// Supervisor of one sidecar, from launch to teardown.
///
/// It performs no outside work itself. The driver hands it each [`Event`]
/// through [`Supervisor::step`], performs the [`Action`] that comes back,
/// and reports the outcome as the next event.
#[derive(Debug)]
pub struct Supervisor {
    core: Core,
    executable: String,
}

impl View for Supervisor {
    type V = State;

    closed spec fn view(&self) -> State {
        State {
            platform: self.core.platform,
            policy: self.core.policy,
            stage: self.core.stage,
            port: self.core.port,
            executable: self.executable@,
            child: self.core.child,
            published: self.core.published,
            failed_probes: self.core.failed_probes,
            failure: self.core.failure,
        }
    }
}

impl Supervisor {
    #[verifier::type_invariant]
    spec fn valid(self) -> bool {
        self@.wf()
    }

    /// A supervisor that has not been asked for anything yet.
    pub fn new(platform: Platform, policy: ReadinessPolicy) -> (supervisor: Supervisor)
        ensures
            supervisor@ == initial(platform, policy),
            supervisor@.wf(),
    {
        let supervisor = Supervisor {
            core: Core {
                platform,
                policy,
                stage: Stage::Idle,
                port: 0,
                child: None,
                published: 0,
                failed_probes: 0,
                failure: None,
            },
            executable: String::new(),
        };
        assert(supervisor@.executable =~= Seq::<char>::empty());
        supervisor
    }

    /// Takes note of `event` and says what is to be done next.
    pub fn step(&mut self, event: Event) -> (action: Action)
        ensures
            (final(self)@, action@) == step(old(self)@, event@),
            final(self)@.wf(),
    {
        proof {
            use_type_invariant(&*self);
            lemma_step_preserves_wf(self@, event@);
        }
        let core = self.core;
        match event {
            Event::Start => match core.stage {
                Stage::Idle => {
                    self.core = Core { stage: Stage::AwaitingPort, ..core };
                    Action::AllocatePort
                },
                _ => Action::Nothing,
            },
            Event::PortAllocated { port } => match core.stage {
                Stage::AwaitingPort => match port {
                    Some(p) if p != 0 => {
                        self.core = Core { stage: Stage::AwaitingExecutable, port: p, ..core };
                        Action::LocateExecutable
                    },
                    _ => self.fail(StartError::PortAllocationFailed),
                },
                _ => Action::Nothing,
            },
            Event::ExecutableLocated { executable } => match core.stage {
                Stage::AwaitingExecutable => match executable {
                    Some(path) => {
                        let make_executable = match core.platform {
                            Platform::Posix => true,
                            Platform::Windows => false,
                        };
                        self.executable = path.clone();
                        self.core = Core { stage: Stage::AwaitingEnvironment, ..core };
                        Action::PrepareEnvironment { executable: path, make_executable }
                    },
                    None => self.fail(StartError::ExecutableNotFound),
                },
                _ => Action::Nothing,
            },
            Event::EnvironmentPrepared { database_path, schema_path } => match core.stage {
                Stage::AwaitingEnvironment => {
                    let spec = SpawnSpec::new(
                        core.platform,
                        self.executable.clone(),
                        core.port,
                        database_path,
                        schema_path,
                    );
                    self.core = Core { stage: Stage::AwaitingChild, ..core };
                    Action::Spawn { spec }
                },
                _ => Action::Nothing,
            },
            Event::SpawnSucceeded { pid } => match core.stage {
                Stage::AwaitingChild => {
                    if core.policy.attempts == 0 {
                        self.core = Core {
                            stage: Stage::Failed,
                            child: Some(pid),
                            failure: Some(StartError::ReadinessTimeout),
                            ..core
                        };
                        Action::Report { error: StartError::ReadinessTimeout }
                    } else {
                        self.core = Core { stage: Stage::Probing, child: Some(pid), ..core };
                        Action::Probe { port: core.port }
                    }
                },
                _ => Action::Nothing,
            },
            Event::SpawnFailed { os_error } => match core.stage {
                Stage::AwaitingChild => self.fail(StartError::SpawnFailed { os_error }),
                _ => Action::Nothing,
            },
            Event::ProbeConnected => match core.stage {
                Stage::Probing => {
                    self.core = Core { stage: Stage::Ready, published: core.port, ..core };
                    Action::Publish { port: core.port }
                },
                _ => Action::Nothing,
            },
            Event::ProbeRefused => match core.stage {
                Stage::Probing => {
                    self.core = Core {
                        stage: Stage::Pausing,
                        failed_probes: core.failed_probes + 1,
                        ..core
                    };
                    Action::Pause { millis: core.policy.interval_millis as u64 }
                },
                _ => Action::Nothing,
            },
            Event::PauseElapsed => match core.stage {
                Stage::Pausing => {
                    if core.failed_probes < core.policy.attempts {
                        self.core = Core { stage: Stage::Probing, ..core };
                        Action::Probe { port: core.port }
                    } else {
                        self.fail(StartError::ReadinessTimeout)
                    }
                },
                _ => Action::Nothing,
            },
            Event::Shutdown => Action::Teardown { plan: self.teardown() },
        }
    }

    /// Records `error` as the reason why the sidecar is unavailable.
    fn fail(&mut self, error: StartError) -> (action: Action)
        requires
            old(self)@.wf(),
            (State { stage: Stage::Failed, failure: Some(error), ..old(self)@ }).wf(),
        ensures
            final(self)@ == (State { stage: Stage::Failed, failure: Some(error), ..old(self)@ }),
            action@ == (ActionView::Report { error }),
    {
        self.core = Core { stage: Stage::Failed, failure: Some(error), ..self.core };
        Action::Report { error }
    }

    /// Ends the supervisor's life and returns the kill sequence for the
    /// child it held: empty if it held none, so that a teardown before any
    /// spawn, or a second teardown, asks for nothing.
    pub fn teardown(&mut self) -> (plan: Vec<TeardownStep>)
        ensures
            (final(self)@, ActionView::Teardown { plan: plan@ }) == step(
                old(self)@,
                EventView::Shutdown,
            ),
            final(self)@.wf(),
    {
        proof {
            use_type_invariant(&*self);
            lemma_step_preserves_wf(self@, EventView::Shutdown);
        }
        let plan = teardown_plan(self.core.platform, self.core.child);
        self.core = Core { stage: Stage::Terminated, child: None, ..self.core };
        plan
    }

    /// The phase of the lifecycle that the supervisor is in.
    pub fn phase(&self) -> (phase: Phase)
        ensures
            phase == phase_of(self@.stage),
    {
        match self.core.stage {
            Stage::Idle => Phase::Idle,
            Stage::AwaitingPort => Phase::Spawning,
            Stage::AwaitingExecutable => Phase::Spawning,
            Stage::AwaitingEnvironment => Phase::Spawning,
            Stage::AwaitingChild => Phase::Spawning,
            Stage::Probing => Phase::Starting,
            Stage::Pausing => Phase::Starting,
            Stage::Ready => Phase::Ready,
            Stage::Failed => Phase::Failed,
            Stage::Terminated => Phase::Terminated,
        }
    }

    /// The published port: the sidecar's port once it is ready, 0 before
    /// that and whenever the sidecar is unavailable.
    pub fn published_port(&self) -> (port: u16)
        ensures
            port == self@.published,
    {
        self.core.published
    }

    /// The port allocated for the sidecar, 0 as long as there is none. It
    /// is the port that the child is started with and that is probed.
    pub fn port(&self) -> (port: u16)
        ensures
            port == self@.port,
    {
        self.core.port
    }

    /// Process id of the child that the supervisor holds, if any.
    pub fn child(&self) -> (child: Option<u32>)
        ensures
            child == self@.child,
    {
        self.core.child
    }

    /// Why startup failed, if it did.
    pub fn failure(&self) -> (failure: Option<StartError>)
        ensures
            failure == self@.failure,
    {
        self.core.failure
    }
}

} // verus!
