//! Several supervisor instances for one target, meeting on one rendezvous
//! channel: a model of how their state machines interleave, and what holds of
//! every interleaving.
use vstd::prelude::*;
use crate::supervisor::{
    Action, Claim, Event, Outcome, PeerProbe, Phase, RaceWinner, expects, initial_phase, preempts,
    run, transition,
};

verus! {

/// The instances alive for one channel name, keyed by an identifier, and the
/// instance that owns the channel, if any.
pub struct World {
    pub owner: Option<nat>,
    pub instances: Map<nat, Phase>,
}

/// One thing that happens among the instances.
pub enum WorldEvent {
    /// A new supervisor instance starts.
    Launch(nat),
    /// An instance takes in the outcome of its last action.
    Deliver(nat, Event),
}

/// No instance yet.
pub open spec fn empty_world() -> World {
    World { owner: None, instances: Map::empty() }
}

/// Whether an instance in this state owns the channel.
pub open spec fn holds_channel(p: Phase) -> bool {
    p is Spawning || p is Running || p is Terminating
}

/// Whether an instance in this state has a child that may be alive.
pub open spec fn has_live_child(p: Phase) -> bool {
    p is Running || p is Terminating
}

/// Whether an instance in this state has finished, releasing what it owned.
pub open spec fn finished(p: Phase) -> bool {
    p is Done || p is Failed
}

/// Whether the channel can report this outcome, given its owner: a peer
/// connects exactly when there is an owner, and a bind succeeds exactly when
/// there is none.
pub open spec fn channel_permits(owner: Option<nat>, e: Event) -> bool {
    match e {
        Event::Probed(PeerProbe::Connected) => owner is Some,
        Event::Probed(PeerProbe::NoOwner) => owner is None,
        Event::Claimed(Claim::Owned) => owner is None,
        Event::Claimed(Claim::AlreadyOwned) => owner is Some,
        _ => true,
    }
}

/// Whether the event can happen in the world.
pub open spec fn can_happen(w: World, ev: WorldEvent) -> bool {
    match ev {
        WorldEvent::Launch(i) => !w.instances.contains_key(i),
        WorldEvent::Deliver(i, e) => {
            &&& w.instances.contains_key(i)
            &&& expects(w.instances[i], e)
            &&& channel_permits(w.owner, e)
        },
    }
}

/// The world after an event; events that cannot happen change nothing.
pub open spec fn world_next(w: World, ev: WorldEvent) -> World {
    if !can_happen(w, ev) {
        w
    } else {
        match ev {
            WorldEvent::Launch(i) => World {
                owner: w.owner,
                instances: w.instances.insert(i, initial_phase()),
            },
            WorldEvent::Deliver(i, e) => {
                let q = transition(w.instances[i], e).0;
                let owner = if e == Event::Claimed(Claim::Owned) {
                    Some(i)
                } else if w.owner == Some(i) && finished(q) {
                    None
                } else {
                    w.owner
                };
                World { owner, instances: w.instances.insert(i, q) }
            },
        }
    }
}

/// The world after the events, taken in turn from `w`.
pub open spec fn world_run(w: World, evs: Seq<WorldEvent>) -> World
    decreases evs.len(),
{
    if evs.len() == 0 {
        w
    } else {
        world_run(world_next(w, evs[0]), evs.skip(1))
    }
}

/// Whether each event can happen in the world that the ones before it left.
pub open spec fn all_happen(w: World, evs: Seq<WorldEvent>) -> bool
    decreases evs.len(),
{
    evs.len() == 0 || (can_happen(w, evs[0]) && all_happen(world_next(w, evs[0]), evs.skip(1)))
}

/// The owner is a known instance, and an instance holds the channel exactly
/// when it is the owner.
pub open spec fn ownership_consistent(w: World) -> bool {
    &&& (w.owner matches Some(o) ==> w.instances.contains_key(o))
    &&& forall|i: nat|
        w.instances.contains_key(i) ==> (holds_channel(#[trigger] w.instances[i]) <==> w.owner
            == Some(i))
}

proof fn lemma_next_consistent(w: World, ev: WorldEvent)
    requires
        ownership_consistent(w),
    ensures
        ownership_consistent(world_next(w, ev)),
{
    if can_happen(w, ev) {
        match ev {
            WorldEvent::Launch(i) => {
                let w2 = world_next(w, ev);
                assert forall|k: nat| w2.instances.contains_key(k) implies (holds_channel(
                    #[trigger] w2.instances[k],
                ) <==> w2.owner == Some(k)) by {
                    if k != i {
                        assert(w.instances.contains_key(k));
                    }
                }
            },
            WorldEvent::Deliver(i, e) => {
                let w2 = world_next(w, ev);
                let p = w.instances[i];
                let q = transition(p, e).0;
                assert(holds_channel(p) ==> (holds_channel(q) || finished(q)));
                assert(!holds_channel(p) && e != Event::Claimed(Claim::Owned) ==> !holds_channel(
                    q,
                ));
                assert forall|k: nat| w2.instances.contains_key(k) implies (holds_channel(
                    #[trigger] w2.instances[k],
                ) <==> w2.owner == Some(k)) by {
                    if k != i {
                        assert(w.instances.contains_key(k));
                        assert(w2.instances[k] == w.instances[k]);
                    }
                }
            },
        }
    }
}

proof fn lemma_run_consistent(w: World, evs: Seq<WorldEvent>)
    requires
        ownership_consistent(w),
    ensures
        ownership_consistent(world_run(w, evs)),
    decreases evs.len(),
{
    if evs.len() > 0 {
        lemma_next_consistent(w, evs[0]);
        lemma_run_consistent(world_next(w, evs[0]), evs.skip(1));
    }
}

/// Mutual exclusion: however launches and outcomes interleave, no two
/// instances for the same channel name have a live child at the same time.
pub proof fn lemma_mutual_exclusion(evs: Seq<WorldEvent>, i: nat, j: nat)
    requires
        i != j,
    ensures
        ({
            let w = world_run(empty_world(), evs);
            !(w.instances.contains_key(i) && w.instances.contains_key(j) && has_live_child(
                w.instances[i],
            ) && has_live_child(w.instances[j]))
        }),
{
    lemma_run_consistent(empty_world(), evs);
}

proof fn lemma_run_unfold(w: World, evs: Seq<WorldEvent>)
    requires
        evs.len() > 0,
    ensures
        world_run(w, evs) == world_run(world_next(w, evs[0]), evs.skip(1)),
        all_happen(w, evs) == (can_happen(w, evs[0]) && all_happen(
            world_next(w, evs[0]),
            evs.skip(1),
        )),
{
}

/// Handover: when a running instance `a` loses the race to a successor or a
/// signal while instance `b` waits for it to leave, then once `a`'s child exits
/// `a` finishes and releases the channel, `b` claims it and starts its own
/// child, and that child is the only live one.
pub proof fn lemma_preemption_hands_over(
    w: World,
    a: nat,
    b: nat,
    id: Option<u32>,
    win: RaceWinner,
    delivered: bool,
    child: Option<u32>,
)
    requires
        ownership_consistent(w),
        a != b,
        w.instances.contains_key(a),
        w.instances[a] == Phase::Running(id),
        w.instances.contains_key(b),
        w.instances[b] == Phase::AwaitingPredecessor,
        preempts(win),
    ensures
        ({
            let evs = seq![
                WorldEvent::Deliver(a, Event::RaceWon(win)),
                WorldEvent::Deliver(a, Event::BreakSent(delivered)),
                WorldEvent::Deliver(a, Event::ChildReaped),
                WorldEvent::Deliver(b, Event::PredecessorGone),
                WorldEvent::Deliver(b, Event::Claimed(Claim::Owned)),
                WorldEvent::Deliver(b, Event::Spawned(child)),
            ];
            let w2 = world_run(w, evs);
            &&& all_happen(w, evs)
            &&& w2.instances[a] == Phase::Done(Outcome::Preempted)
            &&& w2.instances[b] == Phase::Running(child)
            &&& w2.owner == Some(b)
            &&& forall|k: nat|
                w2.instances.contains_key(k) && k != b ==> !has_live_child(
                    #[trigger] w2.instances[k],
                )
        }),
{
    let evs = seq![
        WorldEvent::Deliver(a, Event::RaceWon(win)),
        WorldEvent::Deliver(a, Event::BreakSent(delivered)),
        WorldEvent::Deliver(a, Event::ChildReaped),
        WorldEvent::Deliver(b, Event::PredecessorGone),
        WorldEvent::Deliver(b, Event::Claimed(Claim::Owned)),
        WorldEvent::Deliver(b, Event::Spawned(child)),
    ];
    let w1 = world_next(w, evs[0]);
    let w2 = world_next(w1, evs[1]);
    let w3 = world_next(w2, evs[2]);
    let w4 = world_next(w3, evs[3]);
    let w5 = world_next(w4, evs[4]);
    let w6 = world_next(w5, evs[5]);
    assert(w1.instances[a] == Phase::Terminating(id, false));
    assert(w2.instances[a] == Phase::Terminating(id, true));
    assert(w3.instances[a] == Phase::Done(Outcome::Preempted));
    assert(w3.owner is None);
    assert(w3.instances[b] == Phase::AwaitingPredecessor);
    assert(w4.instances[b] == Phase::ClaimingOwnership);
    assert(w5.instances[b] == Phase::Spawning);
    assert(w6.instances[b] == Phase::Running(child));
    let e1 = evs.skip(1);
    let e2 = e1.skip(1);
    let e3 = e2.skip(1);
    let e4 = e3.skip(1);
    let e5 = e4.skip(1);
    let e6 = e5.skip(1);
    assert(e1[0] == evs[1] && e2[0] == evs[2] && e3[0] == evs[3]);
    assert(e4[0] == evs[4] && e5[0] == evs[5] && e6.len() == 0);
    lemma_run_unfold(w, evs);
    lemma_run_unfold(w1, e1);
    lemma_run_unfold(w2, e2);
    lemma_run_unfold(w3, e3);
    lemma_run_unfold(w4, e4);
    lemma_run_unfold(w5, e5);
    assert(world_run(w, evs) == w6);
    lemma_run_consistent(w, evs);
}

/// A first launch, with no owner of the channel, goes from probing straight
/// to claiming and then spawning: it never waits on a predecessor.
pub proof fn lemma_first_launch_spawns(w: World, i: nat)
    requires
        ownership_consistent(w),
        w.owner is None,
        !w.instances.contains_key(i),
    ensures
        ({
            let evs = seq![
                WorldEvent::Launch(i),
                WorldEvent::Deliver(i, Event::Probed(PeerProbe::NoOwner)),
                WorldEvent::Deliver(i, Event::Claimed(Claim::Owned)),
            ];
            let w2 = world_run(w, evs);
            &&& all_happen(w, evs)
            &&& w2.instances[i] == Phase::Spawning
            &&& w2.owner == Some(i)
        }),
        run(
            initial_phase(),
            seq![Event::Probed(PeerProbe::NoOwner), Event::Claimed(Claim::Owned)],
        ).1 == seq![Action::ClaimOwnership, Action::SpawnChild],
{
    let evs = seq![
        WorldEvent::Launch(i),
        WorldEvent::Deliver(i, Event::Probed(PeerProbe::NoOwner)),
        WorldEvent::Deliver(i, Event::Claimed(Claim::Owned)),
    ];
    let w1 = world_next(w, evs[0]);
    let w2 = world_next(w1, evs[1]);
    let w3 = world_next(w2, evs[2]);
    let e1 = evs.skip(1);
    let e2 = e1.skip(1);
    let e3 = e2.skip(1);
    assert(e1[0] == evs[1] && e2[0] == evs[2] && e3.len() == 0);
    lemma_run_unfold(w, evs);
    lemma_run_unfold(w1, e1);
    lemma_run_unfold(w2, e2);
    assert(world_run(w, evs) == w3);
    let pe = seq![Event::Probed(PeerProbe::NoOwner), Event::Claimed(Claim::Owned)];
    assert(pe.skip(1) =~= seq![Event::Claimed(Claim::Owned)]);
    assert(pe.skip(1).skip(1) =~= Seq::<Event>::empty());
    reveal_with_fuel(run, 3);
    assert(run(initial_phase(), pe).1 =~= seq![Action::ClaimOwnership, Action::SpawnChild]);
}

} // verus!
