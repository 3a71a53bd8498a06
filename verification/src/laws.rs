//! What holds of every life of a supervisor, proved of the state machine
//! in [`crate::model`].

use crate::decimal::decimal;
use crate::model::{initial, step, State};
use crate::platform::{creation_flags_for, leads_own_group, Platform};
use crate::protocol::{ActionView, EventView, Stage, StartError};
use crate::readiness::ReadinessPolicy;
use crate::spawn_spec::PORT_VARIABLE;
use crate::teardown::{plan_for, TeardownStep};
use crate::trace::{
    actions, lemma_actions_len, lemma_actions_of_prefix, lemma_run_preserves_wf, life,
    probe_count, publishes_at, requests, run, spawns_at, total_pause,
};
use vstd::prelude::*;

verus! {

// ---------------------------------------------------------------------
// Publication
// ---------------------------------------------------------------------

/// The port that the `i`-th action publishes.
spec fn published_at(acts: Seq<ActionView>, i: int) -> u16 {
    match acts[i] {
        ActionView::Publish { port } => port,
        _ => 0,
    }
}

/// The port that the child started by the `i`-th action is told to use.
spec fn spawned_port_at(acts: Seq<ActionView>, i: int) -> u16 {
    match acts[i] {
        ActionView::Spawn { spec } => spec.port,
        _ => 0,
    }
}

/// Whether the stage lies before the request to start the child.
spec fn before_spawn(stage: Stage) -> bool {
    stage == Stage::Idle || stage == Stage::AwaitingPort || stage == Stage::AwaitingExecutable
        || stage == Stage::AwaitingEnvironment
}

/// How the actions asked for so far relate to the state reached.
spec fn coherent(s: State, acts: Seq<ActionView>) -> bool {
    &&& s.wf()
    &&& forall|i: int| #[trigger]
        publishes_at(acts, i) ==> published_at(acts, i) == s.published && s.published != 0
    &&& forall|i: int, j: int| #[trigger]
        publishes_at(acts, i) && #[trigger] publishes_at(acts, j) ==> i == j
    &&& forall|i: int| #[trigger]
        spawns_at(acts, i) ==> spawned_port_at(acts, i) == s.port && !before_spawn(s.stage)
    &&& forall|i: int, j: int| #[trigger]
        spawns_at(acts, i) && #[trigger] spawns_at(acts, j) ==> i == j
    &&& forall|i: int, j: int| #[trigger]
        spawns_at(acts, i) && #[trigger] publishes_at(acts, j) ==> i < j
    &&& s.published != 0 ==> exists|i: int| #[trigger] publishes_at(acts, i)
    &&& s.child is Some || s.stage == Stage::AwaitingChild || s.published != 0 ==> exists|i: int|
        #[trigger] spawns_at(acts, i)
}

proof fn lemma_coherent_step(s: State, acts: Seq<ActionView>, e: EventView)
    requires
        coherent(s, acts),
    ensures
        coherent(step(s, e).0, acts.push(step(s, e).1)),
{
    let t = step(s, e).0;
    let a = step(s, e).1;
    let next = acts.push(a);
    let n = acts.len() as int;
    assert(t.wf());
    assert forall|i: int| 0 <= i < n implies (publishes_at(next, i) == publishes_at(acts, i)
        && spawns_at(next, i) == spawns_at(acts, i) && published_at(next, i) == published_at(
        acts,
        i,
    ) && spawned_port_at(next, i) == spawned_port_at(acts, i)) by {}
    assert(next[n] == a);
    if s.published != 0 {
        let w = choose|i: int| publishes_at(acts, i);
        assert(publishes_at(next, w));
    }
    if s.child is Some || s.stage == Stage::AwaitingChild || s.published != 0 {
        let w = choose|i: int| spawns_at(acts, i);
        assert(spawns_at(next, w));
    }
    if a is Publish {
        assert(publishes_at(next, n));
        assert(s.published == 0 && s.child is Some);
    }
    if a is Spawn {
        assert(spawns_at(next, n));
        assert(before_spawn(s.stage));
    }
    assert forall|i: int| #[trigger] publishes_at(next, i) implies published_at(next, i)
        == t.published && t.published != 0 by {
        if i < n {
            assert(publishes_at(acts, i));
        }
    }
    assert forall|i: int, j: int| #[trigger]
        publishes_at(next, i) && #[trigger] publishes_at(next, j) implies i == j by {
        if i < n {
            assert(publishes_at(acts, i));
        }
        if j < n {
            assert(publishes_at(acts, j));
        }
    }
    assert forall|i: int| #[trigger] spawns_at(next, i) implies spawned_port_at(next, i)
        == t.port && !before_spawn(t.stage) by {
        if i < n {
            assert(spawns_at(acts, i));
        }
    }
    assert forall|i: int, j: int| #[trigger]
        spawns_at(next, i) && #[trigger] spawns_at(next, j) implies i == j by {
        if i < n {
            assert(spawns_at(acts, i));
        }
        if j < n {
            assert(spawns_at(acts, j));
        }
    }
    assert forall|i: int, j: int| #[trigger]
        spawns_at(next, i) && #[trigger] publishes_at(next, j) implies i < j by {
        if i < n {
            assert(spawns_at(acts, i));
        }
        if j < n {
            assert(publishes_at(acts, j));
        }
    }
}

proof fn lemma_coherent_life(platform: Platform, policy: ReadinessPolicy, events: Seq<EventView>)
    ensures
        coherent(life(platform, policy, events), requests(platform, policy, events)),
        requests(platform, policy, events).len() == events.len(),
        life(platform, policy, events).platform == platform,
        life(platform, policy, events).policy == policy,
    decreases events.len(),
{
    let s0 = initial(platform, policy);
    if events.len() > 0 {
        lemma_coherent_life(platform, policy, events.drop_last());
        lemma_coherent_step(
            run(s0, events.drop_last()),
            actions(s0, events.drop_last()),
            events.last(),
        );
    }
}

/// Every request to start a child is made for the supervisor's platform,
/// and injects the child's port first of all variables, in decimal.
proof fn lemma_spawn_request_shape(
    platform: Platform,
    policy: ReadinessPolicy,
    events: Seq<EventView>,
    i: int,
)
    requires
        spawns_at(requests(platform, policy, events), i),
    ensures
        requests(platform, policy, events)[i] matches ActionView::Spawn { spec } && spec.env.len()
            >= 1 && spec.env[0] == (PORT_VARIABLE@, decimal(spec.port as nat))
            && spec.new_process_group == leads_own_group(platform) && spec.creation_flags
            == creation_flags_for(platform),
{
    let s0 = initial(platform, policy);
    lemma_actions_len(s0, events);
    lemma_actions_of_prefix(s0, events, i);
    lemma_run_preserves_wf(s0, events.take(i));
}

/// In the whole life of a supervisor the port is published at most once:
/// whatever events arrive, in whatever order, no two of the actions asked
/// for are publications.
pub proof fn law_publish_at_most_once(
    platform: Platform,
    policy: ReadinessPolicy,
    events: Seq<EventView>,
    i: int,
    j: int,
)
    requires
        publishes_at(requests(platform, policy, events), i),
        publishes_at(requests(platform, policy, events), j),
    ensures
        i == j,
{
    lemma_coherent_life(platform, policy, events);
}

/// In the whole life of a supervisor at most one child is started.
pub proof fn law_spawn_at_most_once(
    platform: Platform,
    policy: ReadinessPolicy,
    events: Seq<EventView>,
    i: int,
    j: int,
)
    requires
        spawns_at(requests(platform, policy, events), i),
        spawns_at(requests(platform, policy, events), j),
    ensures
        i == j,
{
    lemma_coherent_life(platform, policy, events);
}

/// A published port is the port that the child was started with: the
/// publication comes after the request to start the child, carries the port
/// of that request, and that port is what the child's environment holds,
/// first of all variables, in decimal.
pub proof fn law_published_port_is_spawned_port(
    platform: Platform,
    policy: ReadinessPolicy,
    events: Seq<EventView>,
    i: int,
    j: int,
)
    requires
        spawns_at(requests(platform, policy, events), i),
        publishes_at(requests(platform, policy, events), j),
    ensures
        i < j,
        requests(platform, policy, events)[i] matches ActionView::Spawn { spec } && requests(
            platform,
            policy,
            events,
        )[j] matches ActionView::Publish { port } && port != 0 && spec.port == port
            && spec.env.len() >= 1 && spec.env[0] == (PORT_VARIABLE@, decimal(port as nat)),
{
    lemma_coherent_life(platform, policy, events);
    lemma_spawn_request_shape(platform, policy, events, i);
    assert(published_at(requests(platform, policy, events), j) == spawned_port_at(
        requests(platform, policy, events),
        i,
    ));
}

/// The published port shows what was asked for: it is nonzero exactly if a
/// publication was asked for, it is then the port of that publication, and
/// a child was started with that very port.
pub proof fn law_published_port_matches_requests(
    platform: Platform,
    policy: ReadinessPolicy,
    events: Seq<EventView>,
)
    ensures
        life(platform, policy, events).published != 0 <==> exists|j: int| #[trigger]
            publishes_at(requests(platform, policy, events), j),
        forall|j: int| #[trigger]
            publishes_at(requests(platform, policy, events), j) ==> requests(
                platform,
                policy,
                events,
            )[j] == (ActionView::Publish { port: life(platform, policy, events).published }),
        life(platform, policy, events).published != 0 ==> exists|i: int| #[trigger]
            spawns_at(requests(platform, policy, events), i) && (requests(
                platform,
                policy,
                events,
            )[i] matches ActionView::Spawn { spec } && spec.port == life(
                platform,
                policy,
                events,
            ).published),
{
    let t = life(platform, policy, events);
    let acts = requests(platform, policy, events);
    lemma_coherent_life(platform, policy, events);
    assert forall|j: int| #[trigger] publishes_at(acts, j) implies acts[j] == (
        ActionView::Publish { port: t.published }
    ) by {
        assert(published_at(acts, j) == t.published);
    }
    if t.published != 0 {
        let i = choose|i: int| spawns_at(acts, i);
        assert(spawned_port_at(acts, i) == t.port);
    }
}

/// No false positives: the supervisor becomes ready, the published port
/// changes, and a publication is asked for, only on the report of a
/// successful connection while it was polling; what is then published is
/// the port that was probed.
pub proof fn law_ready_only_after_connect(s: State, e: EventView)
    requires
        s.wf(),
        step(s, e).0.published != s.published || (step(s, e).0.stage == Stage::Ready && s.stage
            != Stage::Ready) || step(s, e).1 is Publish,
    ensures
        e == EventView::ProbeConnected,
        s.stage == Stage::Probing,
        s.published == 0,
        s.port != 0,
        step(s, e).0.stage == Stage::Ready,
        step(s, e).0.published == s.port,
        step(s, e).1 == (ActionView::Publish { port: s.port }),
{
}

/// Where startup has failed, nothing is published; a published port
/// belongs to a supervisor that is ready, or was when it was torn down.
pub proof fn law_unpublished_unless_ready(
    platform: Platform,
    policy: ReadinessPolicy,
    events: Seq<EventView>,
)
    ensures
        life(platform, policy, events).stage == Stage::Failed ==> life(
            platform,
            policy,
            events,
        ).published == 0,
        life(platform, policy, events).published != 0 ==> life(platform, policy, events).stage
            == Stage::Ready || life(platform, policy, events).stage == Stage::Terminated,
{
    lemma_run_preserves_wf(initial(platform, policy), events);
}

// ---------------------------------------------------------------------
// Polling
// ---------------------------------------------------------------------

/// How the pauses and attempts asked for so far relate to the state reached.
spec fn paced(s: State, acts: Seq<ActionView>) -> bool {
    &&& s.wf()
    &&& total_pause(acts) == s.failed_probes * s.policy.interval_millis
    &&& probe_count(acts) <= s.policy.attempts
    &&& s.stage == Stage::Probing ==> probe_count(acts) == s.failed_probes + 1
    &&& s.stage == Stage::Pausing ==> probe_count(acts) == s.failed_probes
    &&& before_spawn(s.stage) || s.stage == Stage::AwaitingChild ==> probe_count(acts) == 0
}

proof fn lemma_paced_step(s: State, acts: Seq<ActionView>, e: EventView)
    requires
        paced(s, acts),
    ensures
        paced(step(s, e).0, acts.push(step(s, e).1)),
        step(s, e).0.policy == s.policy,
{
    let a = step(s, e).1;
    assert(acts.push(a).drop_last() =~= acts);
    assert((s.failed_probes + 1) * s.policy.interval_millis == s.failed_probes
        * s.policy.interval_millis + s.policy.interval_millis) by (nonlinear_arith);
}

proof fn lemma_paced_life(platform: Platform, policy: ReadinessPolicy, events: Seq<EventView>)
    ensures
        paced(life(platform, policy, events), requests(platform, policy, events)),
        life(platform, policy, events).policy == policy,
    decreases events.len(),
{
    let s0 = initial(platform, policy);
    if events.len() > 0 {
        lemma_paced_life(platform, policy, events.drop_last());
        lemma_paced_step(
            run(s0, events.drop_last()),
            actions(s0, events.drop_last()),
            events.last(),
        );
    }
}

/// Polling is bounded: in the whole life of a supervisor, whatever events
/// arrive, it asks for no more connection attempts than the policy allows,
/// and the pauses it asks for add up to the policy's pause times the number
/// of failed attempts, which is never more than the policy's budget.
pub proof fn law_polling_is_bounded(
    platform: Platform,
    policy: ReadinessPolicy,
    events: Seq<EventView>,
)
    ensures
        probe_count(requests(platform, policy, events)) <= policy.attempts,
        total_pause(requests(platform, policy, events)) == life(
            platform,
            policy,
            events,
        ).failed_probes * policy.interval_millis,
        total_pause(requests(platform, policy, events)) <= policy.budget(),
{
    lemma_paced_life(platform, policy, events);
    let f = life(platform, policy, events).failed_probes;
    assert(f * policy.interval_millis <= policy.attempts * policy.interval_millis)
        by (nonlinear_arith)
        requires
            f <= policy.attempts,
    ;
}

/// The events of `k` connection attempts that all fail, each followed by
/// the end of the pause after it.
pub open spec fn refusals(k: nat) -> Seq<EventView>
    decreases k,
{
    if k == 0 {
        Seq::empty()
    } else {
        refusals((k - 1) as nat).push(EventView::ProbeRefused).push(EventView::PauseElapsed)
    }
}

/// When nothing ever listens, polling ends in failure after exactly the
/// policy's budget: from the first connection attempt on, `k` refusals
/// leave the supervisor polling as long as `k` is less than the number of
/// attempts allowed, and at that number it has failed with a timeout. Up
/// to then it has paused for `k` intervals, nothing is published, and it
/// still holds the child.
pub proof fn law_unanswered_probes_time_out(s: State, k: nat)
    requires
        s.wf(),
        s.stage == Stage::Probing,
        s.failed_probes == 0,
        k <= s.policy.attempts,
    ensures
        run(s, refusals(k)) == if k < s.policy.attempts {
            State { failed_probes: k as u32, ..s }
        } else {
            State {
                stage: Stage::Failed,
                failed_probes: k as u32,
                failure: Some(StartError::ReadinessTimeout),
                ..s
            }
        },
        run(s, refusals(k)).published == 0,
        run(s, refusals(k)).child == s.child,
        total_pause(actions(s, refusals(k))) == k * s.policy.interval_millis,
    decreases k,
{
    if k > 0 {
        let j = (k - 1) as nat;
        let before = refusals(j);
        let mid = before.push(EventView::ProbeRefused);
        let all = mid.push(EventView::PauseElapsed);
        law_unanswered_probes_time_out(s, j);
        assert(mid.drop_last() =~= before);
        assert(all.drop_last() =~= mid);
        assert(run(s, mid) == step(run(s, before), EventView::ProbeRefused).0);
        assert(run(s, all) == step(run(s, mid), EventView::PauseElapsed).0);
        assert(actions(s, mid) == actions(s, before).push(
            step(run(s, before), EventView::ProbeRefused).1,
        ));
        assert(actions(s, all) == actions(s, mid).push(
            step(run(s, mid), EventView::PauseElapsed).1,
        ));
        assert(actions(s, all).drop_last() =~= actions(s, mid));
        assert(actions(s, mid).drop_last() =~= actions(s, before));
        assert(actions(s, mid).last() == (ActionView::Pause {
            millis: s.policy.interval_millis as u64,
        }));
        assert(!(actions(s, all).last() is Pause));
        assert(total_pause(actions(s, mid)) == total_pause(actions(s, before))
            + s.policy.interval_millis);
        assert(total_pause(actions(s, all)) == total_pause(actions(s, mid)));
        assert((j + 1) * s.policy.interval_millis == j * s.policy.interval_millis
            + s.policy.interval_millis) by (nonlinear_arith);
    }
}

// ---------------------------------------------------------------------
// The child and its teardown
// ---------------------------------------------------------------------

/// The supervisor takes up a child once, when the spawn it asked for
/// succeeds, and lets go of it only in teardown.
pub proof fn law_child_held_from_spawn_to_teardown(s: State, e: EventView)
    requires
        s.wf(),
        step(s, e).0.child != s.child,
    ensures
        (e matches EventView::SpawnSucceeded { pid } && s.stage == Stage::AwaitingChild && s.child
            is None && step(s, e).0.child == Some(pid)) || (e == EventView::Shutdown && step(
            s,
            e,
        ).0.child is None),
{
}

/// Teardown on a supervisor that holds no child asks for nothing: the kill
/// sequence is empty, and all that changes is that the supervisor is done.
pub proof fn law_teardown_without_child_is_noop(s: State)
    requires
        s.child is None,
    ensures
        step(s, EventView::Shutdown).1 == (ActionView::Teardown {
            plan: Seq::<TeardownStep>::empty(),
        }),
        step(s, EventView::Shutdown).0 == (State { stage: Stage::Terminated, ..s }),
{
}

/// Teardown is idempotent: a second teardown changes nothing and asks for
/// nothing, whatever state the first one found.
pub proof fn law_teardown_twice(s: State)
    ensures
        step(step(s, EventView::Shutdown).0, EventView::Shutdown) == (
            step(s, EventView::Shutdown).0,
            ActionView::Teardown { plan: Seq::<TeardownStep>::empty() },
        ),
{
}

/// The lifecycle is single-shot: once torn down, the supervisor holds no
/// child, keeps what was published, and disregards every event.
pub proof fn law_terminated_is_final(s: State, e: EventView)
    ensures
        step(s, EventView::Shutdown).0.stage == Stage::Terminated,
        step(s, EventView::Shutdown).0.child is None,
        step(s, EventView::Shutdown).0.published == s.published,
        step(step(s, EventView::Shutdown).0, e).0 == step(s, EventView::Shutdown).0,
        !(e is Shutdown) ==> step(step(s, EventView::Shutdown).0, e).1 == ActionView::Nothing,
{
}

/// Whether, among `events`, a child with process id `pid` was reported as
/// running at position `k`, after its start had been asked for at position `i`.
pub open spec fn started_at(
    acts: Seq<ActionView>,
    events: Seq<EventView>,
    i: int,
    k: int,
    pid: u32,
) -> bool {
    &&& 0 <= i < k < events.len()
    &&& spawns_at(acts, i)
    &&& events[k] == (EventView::SpawnSucceeded { pid })
}

proof fn lemma_held_child_was_started(
    platform: Platform,
    policy: ReadinessPolicy,
    events: Seq<EventView>,
)
    ensures
        life(platform, policy, events).child matches Some(pid) ==> exists|i: int, k: int|
            #[trigger] started_at(requests(platform, policy, events), events, i, k, pid),
    decreases events.len(),
{
    if events.len() > 0 {
        let shorter = events.drop_last();
        let before = life(platform, policy, shorter);
        let acts = requests(platform, policy, shorter);
        let now = life(platform, policy, events);
        let all = requests(platform, policy, events);
        lemma_held_child_was_started(platform, policy, shorter);
        lemma_coherent_life(platform, policy, shorter);
        assert(now == step(before, events.last()).0);
        assert(all == acts.push(step(before, events.last()).1));
        if let Some(pid) = now.child {
            if before.child == now.child {
                let (i, k) = choose|i: int, k: int| started_at(acts, shorter, i, k, pid);
                assert(started_at(all, events, i, k, pid));
            } else {
                law_child_held_from_spawn_to_teardown(before, events.last());
                let i = choose|i: int| spawns_at(acts, i);
                assert(started_at(all, events, i, shorter.len() as int, pid));
            }
        }
    }
}

/// Teardown reaches the child that was started, and its whole group: when
/// the kill sequence asked for at position `j` is not empty, then earlier
/// the supervisor asked for a child to be started, at the head of a process
/// group of its own where the platform has process groups, that child was
/// reported as running, and the kill sequence is the one for that child: on
/// such a platform it begins by signalling the group that the child leads.
pub proof fn law_teardown_reaches_the_started_child(
    platform: Platform,
    policy: ReadinessPolicy,
    events: Seq<EventView>,
    j: int,
)
    requires
        0 <= j < events.len(),
        requests(platform, policy, events)[j] matches ActionView::Teardown { plan } && plan.len()
            > 0,
    ensures
        exists|i: int, k: int, pid: u32|
            {
                &&& #[trigger] started_at(requests(platform, policy, events), events, i, k, pid)
                &&& k < j
                &&& requests(platform, policy, events)[i] matches ActionView::Spawn { spec }
                    && spec.new_process_group == leads_own_group(platform)
                &&& requests(platform, policy, events)[j] == (ActionView::Teardown {
                    plan: plan_for(platform, Some(pid)),
                })
            },
{
    let s0 = initial(platform, policy);
    let acts = requests(platform, policy, events);
    let prefix = events.take(j);
    let before = life(platform, policy, prefix);
    lemma_actions_of_prefix(s0, events, j);
    lemma_held_child_was_started(platform, policy, prefix);
    lemma_run_preserves_wf(s0, prefix);
    assert(acts[j] == step(before, events[j]).1);
    assert(events[j] == EventView::Shutdown);
    assert(before.child is Some);
    let pid = before.child->0;
    let (i, k) = choose|i: int, k: int|
        started_at(requests(platform, policy, prefix), prefix, i, k, pid);
    assert(requests(platform, policy, prefix)[i] == acts[i]);
    assert(prefix[k] == events[k]);
    assert(started_at(acts, events, i, k, pid));
    lemma_spawn_request_shape(platform, policy, events, i);
}

} // verus!
