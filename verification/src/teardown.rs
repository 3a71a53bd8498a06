//! The kill sequence that ends the sidecar and everything it started.

use crate::platform::Platform;
use vstd::prelude::*;

verus! {

/// Number of the signal that asks a process to terminate of its own accord.
pub const TERMINATE: i32 = 15;

/// How long the sidecar's process group is given to exit after being asked.
pub const GRACE_MILLIS: u64 = 2000;

/// One action of the kill sequence. The caller performs the steps in order
/// and disregards any failure of a step: shutdown goes on regardless.
#[derive(Clone, Copy, Debug, PartialEq, Eq)]
pub enum TeardownStep {
    /// Send `signal` to every process of the group `group`.
    SignalGroup { group: i32, signal: i32 },
    /// Wait for the group to exit voluntarily.
    Grace { millis: u64 },
    /// Kill the child itself, whether or not it already went away.
    Kill { pid: u32 },
    /// Block until the system has reaped the child.
    Reap { pid: u32 },
}

/// `libc::SIGTERM`, the platform's number for the termination signal.
/// Trusted: the constant is 15 on every target that the `libc` crate
/// defines it for.
#[verifier::external_body]
fn termination_signal() -> (signal: i32)
    ensures
        signal == TERMINATE,
{
    libc::SIGTERM
}

/// The process group that a child with the given id leads: the group's id
/// is the leader's process id, reinterpreted as the signed type that the
/// system's group calls take.
pub open spec fn group_of(pid: u32) -> i32 {
    pid as i32
}

/// The kill sequence for a supervisor holding `child`.
///
/// Without a child there is nothing to do. With one, a platform with
/// process groups first asks the whole group to terminate and allows it the
/// grace window; every platform then kills the child and reaps it.
pub open spec fn plan_for(platform: Platform, child: Option<u32>) -> Seq<TeardownStep> {
    match child {
        None => Seq::empty(),
        Some(pid) => match platform {
            Platform::Posix => seq![
                TeardownStep::SignalGroup { group: group_of(pid), signal: TERMINATE },
                TeardownStep::Grace { millis: GRACE_MILLIS },
                TeardownStep::Kill { pid },
                TeardownStep::Reap { pid },
            ],
            Platform::Windows => seq![TeardownStep::Kill { pid }, TeardownStep::Reap { pid }],
        },
    }
}

/// Computes the kill sequence for a supervisor holding `child`.
pub fn teardown_plan(platform: Platform, child: Option<u32>) -> (plan: Vec<TeardownStep>)
    ensures
        plan@ == plan_for(platform, child),
{
    let mut plan: Vec<TeardownStep> = Vec::new();
    if let Some(pid) = child {
        match platform {
            Platform::Posix => {
                let group: i32 = #[verifier::truncate] (pid as i32);
                plan.push(TeardownStep::SignalGroup { group, signal: termination_signal() });
                plan.push(TeardownStep::Grace { millis: GRACE_MILLIS });
            },
            Platform::Windows => {},
        }
        plan.push(TeardownStep::Kill { pid });
        plan.push(TeardownStep::Reap { pid });
    }
    assert(plan@ =~= plan_for(platform, child));
    plan
}

/// The kill sequence always ends by killing and reaping the child it was
/// computed for, whatever the platform, and is empty exactly when there is
/// no child.
pub proof fn law_plan_ends_with_kill_and_reap(platform: Platform, child: Option<u32>)
    ensures
        child is None <==> plan_for(platform, child).len() == 0,
        child matches Some(pid) ==> {
            let plan = plan_for(platform, child);
            &&& plan.len() >= 2
            &&& plan[plan.len() - 2] == (TeardownStep::Kill { pid })
            &&& plan[plan.len() - 1] == (TeardownStep::Reap { pid })
        },
{
}

} // verus!
