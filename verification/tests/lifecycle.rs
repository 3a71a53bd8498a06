use bord_sidecar::platform::Platform;
use bord_sidecar::protocol::{Action, Event, Phase, StartError};
use bord_sidecar::readiness::ReadinessPolicy;
use bord_sidecar::supervisor::Supervisor;
use bord_sidecar::teardown::TeardownStep;

fn launched(platform: Platform, policy: ReadinessPolicy, port: u16, pid: u32) -> Supervisor {
    let mut s = Supervisor::new(platform, policy);
    assert_eq!(s.step(Event::Start), Action::AllocatePort);
    assert_eq!(s.step(Event::PortAllocated { port: Some(port) }), Action::LocateExecutable);
    let located = s.step(Event::ExecutableLocated {
        executable: Some(String::from("/opt/bord/bord-server")),
    });
    assert_eq!(
        located,
        Action::PrepareEnvironment {
            executable: String::from("/opt/bord/bord-server"),
            make_executable: platform == Platform::Posix,
        }
    );
    let spawn = s.step(Event::EnvironmentPrepared { database_path: None, schema_path: None });
    assert!(matches!(spawn, Action::Spawn { .. }));
    assert_eq!(s.step(Event::SpawnSucceeded { pid }), Action::Probe { port });
    s
}

#[test]
fn fresh_supervisor_is_idle_and_unpublished() {
    let s = Supervisor::new(Platform::Posix, ReadinessPolicy::standard());
    assert_eq!(s.phase(), Phase::Idle);
    assert_eq!(s.published_port(), 0);
    assert_eq!(s.child(), None);
    assert_eq!(s.failure(), None);
}

#[test]
fn server_that_listens_after_a_delay_becomes_ready() {
    let port: u16 = 41873;
    let mut s = Supervisor::new(Platform::Posix, ReadinessPolicy::within(5000));
    assert_eq!(s.step(Event::Start), Action::AllocatePort);
    assert_eq!(s.phase(), Phase::Spawning);
    assert_eq!(s.step(Event::PortAllocated { port: Some(port) }), Action::LocateExecutable);
    assert_eq!(
        s.step(Event::ExecutableLocated { executable: Some(String::from("/app/bord-server")) }),
        Action::PrepareEnvironment {
            executable: String::from("/app/bord-server"),
            make_executable: true,
        }
    );
    let action = s.step(Event::EnvironmentPrepared {
        database_path: Some(String::from("/data/bord.db")),
        schema_path: Some(String::from("/app/schema.sql")),
    });
    let spec = match action {
        Action::Spawn { spec } => spec,
        other => panic!("expected a spawn, got {:?}", other),
    };
    assert_eq!(spec.port(), port);
    assert_eq!(spec.executable(), "/app/bord-server");
    assert_eq!(spec.env()[0].name, "BORD_PORT");
    assert_eq!(spec.env()[0].value, "41873");
    assert_eq!(s.phase(), Phase::Spawning);

    assert_eq!(s.step(Event::SpawnSucceeded { pid: 4242 }), Action::Probe { port });
    assert_eq!(s.phase(), Phase::Starting);
    assert_eq!(s.child(), Some(4242));
    assert_eq!(s.published_port(), 0);

    assert_eq!(s.step(Event::ProbeRefused), Action::Pause { millis: 100 });
    assert_eq!(s.step(Event::PauseElapsed), Action::Probe { port });
    assert_eq!(s.published_port(), 0);
    assert_eq!(s.step(Event::ProbeConnected), Action::Publish { port });
    assert_eq!(s.phase(), Phase::Ready);
    assert_eq!(s.published_port(), port);

    let plan = s.teardown();
    assert_eq!(
        plan,
        vec![
            TeardownStep::SignalGroup { group: 4242, signal: 15 },
            TeardownStep::Grace { millis: 2000 },
            TeardownStep::Kill { pid: 4242 },
            TeardownStep::Reap { pid: 4242 },
        ]
    );
    assert_eq!(s.phase(), Phase::Terminated);
    assert_eq!(s.child(), None);
    assert_eq!(s.published_port(), port);
}

#[test]
fn missing_executable_is_reported_and_nothing_published() {
    let mut s = Supervisor::new(Platform::Posix, ReadinessPolicy::standard());
    s.step(Event::Start);
    s.step(Event::PortAllocated { port: Some(5000) });
    assert_eq!(
        s.step(Event::ExecutableLocated { executable: None }),
        Action::Report { error: StartError::ExecutableNotFound }
    );
    assert_eq!(s.phase(), Phase::Failed);
    assert_eq!(s.failure(), Some(StartError::ExecutableNotFound));
    assert_eq!(s.published_port(), 0);
    assert_eq!(s.child(), None);
    assert_eq!(s.teardown(), vec![]);
}

#[test]
fn refused_spawn_is_reported_with_the_system_error() {
    let mut s = Supervisor::new(Platform::Posix, ReadinessPolicy::standard());
    s.step(Event::Start);
    s.step(Event::PortAllocated { port: Some(5000) });
    s.step(Event::ExecutableLocated { executable: Some(String::from("/nowhere/bord-server")) });
    s.step(Event::EnvironmentPrepared { database_path: None, schema_path: None });
    assert_eq!(
        s.step(Event::SpawnFailed { os_error: Some(2) }),
        Action::Report { error: StartError::SpawnFailed { os_error: Some(2) } }
    );
    assert_eq!(s.phase(), Phase::Failed);
    assert_eq!(s.failure(), Some(StartError::SpawnFailed { os_error: Some(2) }));
    assert_eq!(s.published_port(), 0);
    assert_eq!(s.child(), None);
    assert_eq!(s.step(Event::ProbeConnected), Action::Nothing);
    assert_eq!(s.published_port(), 0);
}

#[test]
fn failed_port_allocation_ends_startup() {
    let mut s = Supervisor::new(Platform::Windows, ReadinessPolicy::standard());
    s.step(Event::Start);
    assert_eq!(
        s.step(Event::PortAllocated { port: None }),
        Action::Report { error: StartError::PortAllocationFailed }
    );
    assert_eq!(s.phase(), Phase::Failed);
    assert_eq!(s.failure(), Some(StartError::PortAllocationFailed));
    assert_eq!(
        s.step(Event::ExecutableLocated { executable: Some(String::from("x")) }),
        Action::Nothing
    );
    assert_eq!(s.published_port(), 0);
}

#[test]
fn port_zero_counts_as_no_port() {
    let mut s = Supervisor::new(Platform::Posix, ReadinessPolicy::standard());
    s.step(Event::Start);
    assert_eq!(
        s.step(Event::PortAllocated { port: Some(0) }),
        Action::Report { error: StartError::PortAllocationFailed }
    );
    assert_eq!(s.phase(), Phase::Failed);
}

#[test]
fn server_that_never_listens_times_out_after_the_ceiling() {
    let port: u16 = 6000;
    let policy = ReadinessPolicy::within(5000);
    assert_eq!(policy.attempts, 50);
    let mut s = launched(Platform::Posix, policy, port, 900);
    let mut paused: u64 = 0;
    let mut probes: u32 = 1;
    loop {
        match s.step(Event::ProbeRefused) {
            Action::Pause { millis } => paused += millis,
            other => panic!("expected a pause, got {:?}", other),
        }
        match s.step(Event::PauseElapsed) {
            Action::Probe { port: p } => {
                assert_eq!(p, port);
                probes += 1;
            }
            Action::Report { error } => {
                assert_eq!(error, StartError::ReadinessTimeout);
                break;
            }
            other => panic!("unexpected {:?}", other),
        }
    }
    assert_eq!(probes, 50);
    assert_eq!(paused, 5000);
    assert_eq!(paused, policy.budget_millis());
    assert_eq!(s.phase(), Phase::Failed);
    assert_eq!(s.failure(), Some(StartError::ReadinessTimeout));
    assert_eq!(s.published_port(), 0);
    // The process is left running: the supervisor still holds it for teardown.
    assert_eq!(s.child(), Some(900));
    assert_eq!(s.teardown().len(), 4);
}

#[test]
fn standard_policy_gives_up_after_fifteen_seconds() {
    let mut s = launched(Platform::Windows, ReadinessPolicy::standard(), 6001, 12);
    let mut paused: u64 = 0;
    for round in 0..150u32 {
        assert_eq!(s.step(Event::ProbeRefused), Action::Pause { millis: 100 });
        paused += 100;
        let next = s.step(Event::PauseElapsed);
        if round < 149 {
            assert_eq!(next, Action::Probe { port: 6001 });
            assert_eq!(s.phase(), Phase::Starting);
        } else {
            assert_eq!(next, Action::Report { error: StartError::ReadinessTimeout });
        }
    }
    assert_eq!(paused, 15_000);
    assert_eq!(s.phase(), Phase::Failed);
    assert_eq!(s.published_port(), 0);
}

#[test]
fn success_on_the_last_attempt_still_counts() {
    let policy = ReadinessPolicy { attempts: 3, interval_millis: 100 };
    let mut s = launched(Platform::Posix, policy, 6002, 13);
    s.step(Event::ProbeRefused);
    s.step(Event::PauseElapsed);
    s.step(Event::ProbeRefused);
    assert_eq!(s.step(Event::PauseElapsed), Action::Probe { port: 6002 });
    assert_eq!(s.step(Event::ProbeConnected), Action::Publish { port: 6002 });
    assert_eq!(s.published_port(), 6002);
}

#[test]
fn policy_without_attempts_fails_at_once_and_keeps_the_child() {
    let policy = ReadinessPolicy { attempts: 0, interval_millis: 100 };
    let mut s = Supervisor::new(Platform::Posix, policy);
    s.step(Event::Start);
    s.step(Event::PortAllocated { port: Some(7000) });
    s.step(Event::ExecutableLocated { executable: Some(String::from("/a")) });
    s.step(Event::EnvironmentPrepared { database_path: None, schema_path: None });
    assert_eq!(
        s.step(Event::SpawnSucceeded { pid: 5 }),
        Action::Report { error: StartError::ReadinessTimeout }
    );
    assert_eq!(s.child(), Some(5));
    assert_eq!(s.published_port(), 0);
    assert_eq!(s.teardown().len(), 4);
}

#[test]
fn port_is_published_once() {
    let mut s = launched(Platform::Posix, ReadinessPolicy::standard(), 6100, 77);
    assert_eq!(s.step(Event::ProbeConnected), Action::Publish { port: 6100 });
    assert_eq!(s.step(Event::ProbeConnected), Action::Nothing);
    assert_eq!(s.step(Event::ProbeRefused), Action::Nothing);
    assert_eq!(s.step(Event::PauseElapsed), Action::Nothing);
    assert_eq!(s.step(Event::Start), Action::Nothing);
    assert_eq!(s.step(Event::PortAllocated { port: Some(9) }), Action::Nothing);
    assert_eq!(s.step(Event::SpawnSucceeded { pid: 78 }), Action::Nothing);
    assert_eq!(s.published_port(), 6100);
    assert_eq!(s.child(), Some(77));
    assert_eq!(s.phase(), Phase::Ready);
}

#[test]
fn events_out_of_turn_change_nothing() {
    let mut s = Supervisor::new(Platform::Posix, ReadinessPolicy::standard());
    assert_eq!(s.step(Event::ProbeConnected), Action::Nothing);
    assert_eq!(s.step(Event::SpawnSucceeded { pid: 3 }), Action::Nothing);
    assert_eq!(s.step(Event::PortAllocated { port: Some(80) }), Action::Nothing);
    assert_eq!(s.phase(), Phase::Idle);
    assert_eq!(s.published_port(), 0);
    assert_eq!(s.child(), None);
    assert_eq!(s.step(Event::Start), Action::AllocatePort);
    assert_eq!(s.step(Event::Start), Action::Nothing);
}

#[test]
fn teardown_without_child_is_a_no_op() {
    let mut s = Supervisor::new(Platform::Posix, ReadinessPolicy::standard());
    assert_eq!(s.teardown(), vec![]);
    assert_eq!(s.phase(), Phase::Terminated);
    assert_eq!(s.published_port(), 0);
    assert_eq!(s.child(), None);
    assert_eq!(s.failure(), None);
}

#[test]
fn teardown_twice_is_safe() {
    let mut s = launched(Platform::Posix, ReadinessPolicy::standard(), 6200, 31);
    s.step(Event::ProbeConnected);
    assert_eq!(s.teardown().len(), 4);
    assert_eq!(s.teardown(), vec![]);
    assert_eq!(s.step(Event::Shutdown), Action::Teardown { plan: vec![] });
    assert_eq!(s.phase(), Phase::Terminated);
    assert_eq!(s.published_port(), 6200);
}

#[test]
fn shutdown_event_is_teardown() {
    let mut s = launched(Platform::Windows, ReadinessPolicy::standard(), 6300, 8);
    assert_eq!(
        s.step(Event::Shutdown),
        Action::Teardown {
            plan: vec![TeardownStep::Kill { pid: 8 }, TeardownStep::Reap { pid: 8 }],
        }
    );
    assert_eq!(s.phase(), Phase::Terminated);
}

#[test]
fn teardown_ahead_of_spawn_sees_no_child() {
    let mut s = Supervisor::new(Platform::Posix, ReadinessPolicy::standard());
    s.step(Event::Start);
    s.step(Event::PortAllocated { port: Some(6400) });
    s.step(Event::ExecutableLocated { executable: Some(String::from("/a")) });
    s.step(Event::EnvironmentPrepared { database_path: None, schema_path: None });
    assert_eq!(s.teardown(), vec![]);
    // A spawn that completes after teardown is not taken up.
    assert_eq!(s.step(Event::SpawnSucceeded { pid: 99 }), Action::Nothing);
    assert_eq!(s.child(), None);
    assert_eq!(s.phase(), Phase::Terminated);
}

#[test]
fn probe_result_after_teardown_publishes_nothing() {
    let mut s = launched(Platform::Posix, ReadinessPolicy::standard(), 6500, 21);
    assert_eq!(s.teardown().len(), 4);
    assert_eq!(s.step(Event::ProbeConnected), Action::Nothing);
    assert_eq!(s.published_port(), 0);
}
