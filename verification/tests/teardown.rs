use bord_sidecar::platform::Platform;
use bord_sidecar::teardown::{teardown_plan, TeardownStep, GRACE_MILLIS, TERMINATE};

#[test]
fn posix_plan_signals_the_group_then_kills_and_reaps() {
    assert_eq!(
        teardown_plan(Platform::Posix, Some(31337)),
        vec![
            TeardownStep::SignalGroup { group: 31337, signal: 15 },
            TeardownStep::Grace { millis: 2000 },
            TeardownStep::Kill { pid: 31337 },
            TeardownStep::Reap { pid: 31337 },
        ]
    );
    assert_eq!(GRACE_MILLIS, 2000);
}

#[test]
fn group_signal_is_the_systems_termination_signal() {
    let plan = teardown_plan(Platform::Posix, Some(1000));
    assert_eq!(plan[0], TeardownStep::SignalGroup { group: 1000, signal: libc::SIGTERM });
    assert_eq!(TERMINATE, libc::SIGTERM);
}

#[test]
fn windows_plan_kills_and_reaps_only() {
    assert_eq!(
        teardown_plan(Platform::Windows, Some(640)),
        vec![TeardownStep::Kill { pid: 640 }, TeardownStep::Reap { pid: 640 }]
    );
}

#[test]
fn no_child_no_plan() {
    assert_eq!(teardown_plan(Platform::Posix, None), vec![]);
    assert_eq!(teardown_plan(Platform::Windows, None), vec![]);
}

#[test]
fn group_id_is_the_process_id_reinterpreted() {
    let plan = teardown_plan(Platform::Posix, Some(u32::MAX));
    assert_eq!(plan[0], TeardownStep::SignalGroup { group: -1, signal: 15 });
    assert_eq!(plan[2], TeardownStep::Kill { pid: u32::MAX });
}
