//! Whole lives of a supervisor: the states it passes through and the
//! actions it asks for as a sequence of events arrives.

use crate::model::{initial, lemma_step_preserves_wf, step, State};
use crate::platform::Platform;
use crate::protocol::{ActionView, EventView};
use crate::readiness::ReadinessPolicy;
use vstd::prelude::*;

verus! {

/// The state reached from `s` after the events of `events`, in order.
pub open spec fn run(s: State, events: Seq<EventView>) -> State
    decreases events.len(),
{
    if events.len() == 0 {
        s
    } else {
        step(run(s, events.drop_last()), events.last()).0
    }
}

/// The actions asked for on the way from `s` through `events`, one per event.
pub open spec fn actions(s: State, events: Seq<EventView>) -> Seq<ActionView>
    decreases events.len(),
{
    if events.len() == 0 {
        Seq::empty()
    } else {
        actions(s, events.drop_last()).push(
            step(run(s, events.drop_last()), events.last()).1,
        )
    }
}

/// The state of a supervisor made for `platform` with `policy` after the
/// events of `events`.
pub open spec fn life(platform: Platform, policy: ReadinessPolicy, events: Seq<EventView>) -> State {
    run(initial(platform, policy), events)
}

/// The actions that a supervisor made for `platform` with `policy` asks for
/// as the events of `events` arrive.
pub open spec fn requests(
    platform: Platform,
    policy: ReadinessPolicy,
    events: Seq<EventView>,
) -> Seq<ActionView> {
    actions(initial(platform, policy), events)
}

/// Whether the `i`-th action publishes a port.
pub open spec fn publishes_at(acts: Seq<ActionView>, i: int) -> bool {
    0 <= i < acts.len() && acts[i] is Publish
}

/// Whether the `i`-th action starts a child.
pub open spec fn spawns_at(acts: Seq<ActionView>, i: int) -> bool {
    0 <= i < acts.len() && acts[i] is Spawn
}

/// The time that the pauses among `acts` add up to, in milliseconds.
pub open spec fn total_pause(acts: Seq<ActionView>) -> nat
    decreases acts.len(),
{
    if acts.len() == 0 {
        0
    } else {
        total_pause(acts.drop_last()) + match acts.last() {
            ActionView::Pause { millis } => millis as nat,
            _ => 0,
        }
    }
}

/// The number of connection attempts among `acts`.
pub open spec fn probe_count(acts: Seq<ActionView>) -> nat
    decreases acts.len(),
{
    if acts.len() == 0 {
        0
    } else {
        probe_count(acts.drop_last()) + match acts.last() {
            ActionView::Probe { .. } => 1nat,
            _ => 0,
        }
    }
}

/// One action is asked for per event.
pub proof fn lemma_actions_len(s: State, events: Seq<EventView>)
    ensures
        actions(s, events).len() == events.len(),
    decreases events.len(),
{
    if events.len() > 0 {
        lemma_actions_len(s, events.drop_last());
    }
}

/// A supervisor stays well-formed, and keeps its platform and its policy,
/// whatever events arrive.
pub proof fn lemma_run_preserves_wf(s: State, events: Seq<EventView>)
    requires
        s.wf(),
    ensures
        run(s, events).wf(),
        run(s, events).platform == s.platform,
        run(s, events).policy == s.policy,
    decreases events.len(),
{
    if events.len() > 0 {
        lemma_run_preserves_wf(s, events.drop_last());
        lemma_step_preserves_wf(run(s, events.drop_last()), events.last());
    }
}

/// The actions asked for during the first `n` events do not depend on what
/// comes later, and each action is the one asked for in the state reached
/// before its event.
pub proof fn lemma_actions_of_prefix(s: State, events: Seq<EventView>, n: int)
    requires
        0 <= n <= events.len(),
    ensures
        actions(s, events).len() == events.len(),
        actions(s, events.take(n)) == actions(s, events).take(n),
        n < events.len() ==> actions(s, events)[n] == step(run(s, events.take(n)), events[n]).1,
    decreases events.len(),
{
    lemma_actions_len(s, events);
    if n == events.len() {
        assert(events.take(n) =~= events);
        assert(actions(s, events).take(n) =~= actions(s, events));
    } else {
        let shorter = events.drop_last();
        lemma_actions_of_prefix(s, shorter, n);
        assert(shorter.take(n) =~= events.take(n));
        assert(actions(s, shorter).take(n) =~= actions(s, events).take(n));
        if n == shorter.len() {
            assert(shorter.take(n) =~= shorter);
        }
    }
}

} // verus!
