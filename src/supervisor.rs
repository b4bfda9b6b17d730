//! The decisions of one supervisor instance, as a state machine from events
//! to actions.
//!
//! The host performs each action (probe the channel, wait, claim it, spawn the
//! child, race the waits, signal the child's group) and reports what came of it
//! as the next event.
use vstd::prelude::*;

verus! {

/// Result of trying to connect to the channel as a peer.
#[derive(Clone, Copy, Debug, PartialEq, Eq, Structural)]
pub enum PeerProbe {
    /// A predecessor owns the channel; the connection stays open until it leaves.
    Connected,
    /// Nobody owns the channel.
    NoOwner,
}

/// Result of trying to bind the channel as its only owner.
#[derive(Clone, Copy, Debug, PartialEq, Eq, Structural)]
pub enum Claim {
    Owned,
    AlreadyOwned,
}

/// The external termination signals a supervisor listens for.
#[derive(Clone, Copy, Debug, PartialEq, Eq, Structural)]
pub enum TerminationSignal {
    Interrupt,
    Close,
    Break,
    Logoff,
    Shutdown,
}

/// The first of the raced waits to complete while the child runs.
#[derive(Clone, Copy, Debug, PartialEq, Eq, Structural)]
pub enum RaceWinner {
    /// The supervisor itself was asked to terminate.
    Signal(TerminationSignal),
    /// A newer supervisor connected to the owned channel to take over.
    Successor,
    /// The child exited on its own.
    ChildExited,
}

/// What the host reports after performing an action.
#[derive(Clone, Copy, Debug, PartialEq, Eq, Structural)]
pub enum Event {
    /// Outcome of the peer connection attempt.
    Probed(PeerProbe),
    /// The predecessor's end of the channel closed.
    PredecessorGone,
    /// Outcome of binding the channel as owner.
    Claimed(Claim),
    /// The child started, in a process group of its own, with this identifier
    /// if the platform still reports one.
    Spawned(Option<u32>),
    /// The child could not be started.
    SpawnFailed,
    /// The race while the child runs was decided.
    RaceWon(RaceWinner),
    /// The break signal to the child's group was attempted; `true` if delivered.
    BreakSent(bool),
    /// The child exited and was reaped.
    ChildReaped,
}

/// The fatal conditions of a supervisor.
#[derive(Clone, Copy, Debug, PartialEq, Eq, Structural)]
pub enum Fault {
    /// Another process owned the channel right after the predecessor was drained.
    OwnershipTaken,
    /// The target could not be started.
    SpawnFailed,
}

/// What the host is to do next.
#[derive(Clone, Copy, Debug, PartialEq, Eq, Structural)]
pub enum Action {
    /// Try to connect to the channel as a peer.
    ProbeForPredecessor,
    /// Block until the connected predecessor closes its end.
    AwaitPredecessorExit,
    /// Bind the channel as its first and only owner.
    ClaimOwnership,
    /// Spawn the target with the forwarded arguments in a new process group.
    SpawnChild,
    /// Race the termination signals, an incoming peer and the child's exit.
    AwaitRace,
    /// Deliver a break signal to the process group of the child with this
    /// identifier.
    SendBreak(Option<u32>),
    /// Wait, without limit, for the child to exit.
    AwaitChildExit,
    /// Exit with success status, releasing the channel.
    Exit,
    /// Stop on a fatal condition.
    Abort(Fault),
}

/// How a run with a live child ended.
#[derive(Clone, Copy, Debug, PartialEq, Eq, Structural)]
pub enum Outcome {
    NaturalExit,
    Preempted,
}

/// The states of a supervisor instance.
#[derive(Clone, Copy, Debug, PartialEq, Eq, Structural)]
pub enum Phase {
    /// Probing the channel for a predecessor.
    DrainingPredecessor,
    /// Connected to a predecessor, waiting for it to leave.
    AwaitingPredecessor,
    /// Binding the channel as owner.
    ClaimingOwnership,
    /// Owner of the channel; the child is being spawned.
    Spawning,
    /// The child runs; its identifier as reported at spawn.
    Running(Option<u32>),
    /// The child is being stopped; `true` once the break was attempted.
    Terminating(Option<u32>, bool),
    /// Finished with success status.
    Done(Outcome),
    /// Stopped on a fatal condition.
    Failed(Fault),
}

/// The state a supervisor starts in.
pub open spec fn initial_phase() -> Phase {
    Phase::DrainingPredecessor
}

/// The action a supervisor starts with.
pub open spec fn initial_action() -> Action {
    Action::ProbeForPredecessor
}

/// Whether a state awaits the event: each action leads to one kind of event.
pub open spec fn expects(p: Phase, e: Event) -> bool {
    match p {
        Phase::DrainingPredecessor => e is Probed,
        Phase::AwaitingPredecessor => e is PredecessorGone,
        Phase::ClaimingOwnership => e is Claimed,
        Phase::Spawning => e is Spawned || e is SpawnFailed,
        Phase::Running(_) => e is RaceWon,
        Phase::Terminating(_, sent) => if sent {
            e is ChildReaped
        } else {
            e is BreakSent
        },
        Phase::Done(_) => false,
        Phase::Failed(_) => false,
    }
}

/// Whether a race winner ends the run by preemption rather than natural exit.
pub open spec fn preempts(w: RaceWinner) -> bool {
    !(w is ChildExited)
}

/// The next state and the action to perform, for an awaited event.
pub open spec fn transition(p: Phase, e: Event) -> (Phase, Action) {
    match (p, e) {
        (Phase::DrainingPredecessor, Event::Probed(PeerProbe::Connected)) => (
            Phase::AwaitingPredecessor,
            Action::AwaitPredecessorExit,
        ),
        (Phase::DrainingPredecessor, Event::Probed(PeerProbe::NoOwner)) => (
            Phase::ClaimingOwnership,
            Action::ClaimOwnership,
        ),
        (Phase::AwaitingPredecessor, Event::PredecessorGone) => (
            Phase::ClaimingOwnership,
            Action::ClaimOwnership,
        ),
        (Phase::ClaimingOwnership, Event::Claimed(Claim::Owned)) => (
            Phase::Spawning,
            Action::SpawnChild,
        ),
        (Phase::ClaimingOwnership, Event::Claimed(Claim::AlreadyOwned)) => (
            Phase::Failed(Fault::OwnershipTaken),
            Action::Abort(Fault::OwnershipTaken),
        ),
        (Phase::Spawning, Event::Spawned(id)) => (Phase::Running(id), Action::AwaitRace),
        (Phase::Spawning, Event::SpawnFailed) => (
            Phase::Failed(Fault::SpawnFailed),
            Action::Abort(Fault::SpawnFailed),
        ),
        (Phase::Running(id), Event::RaceWon(w)) => if preempts(w) {
            (Phase::Terminating(id, false), Action::SendBreak(id))
        } else {
            (Phase::Done(Outcome::NaturalExit), Action::Exit)
        },
        (Phase::Terminating(id, false), Event::BreakSent(_)) => (
            Phase::Terminating(id, true),
            Action::AwaitChildExit,
        ),
        (Phase::Terminating(_, true), Event::ChildReaped) => (
            Phase::Done(Outcome::Preempted),
            Action::Exit,
        ),
        _ => (p, Action::Exit),
    }
}

/// Whether each event of a sequence is awaited by the state it reaches.
pub open spec fn admissible(p: Phase, events: Seq<Event>) -> bool
    decreases events.len(),
{
    events.len() == 0 || (expects(p, events[0]) && admissible(
        transition(p, events[0]).0,
        events.skip(1),
    ))
}

/// The state reached and the actions issued when the events are taken in turn.
pub open spec fn run(p: Phase, events: Seq<Event>) -> (Phase, Seq<Action>)
    decreases events.len(),
{
    if events.len() == 0 {
        (p, Seq::empty())
    } else {
        let (q, a) = transition(p, events[0]);
        let (r, rest) = run(q, events.skip(1));
        (r, seq![a] + rest)
    }
}

/// Whether an event reports that the child was preempted by a signal or a successor.
pub open spec fn is_preemption(e: Event) -> bool {
    e matches Event::RaceWon(w) && preempts(w)
}

/// Unless a race is won by a signal or a successor, a supervisor never sends a
/// break: a child that exits on its own is reaped and the supervisor exits
/// right after, without signalling anything.
pub proof fn lemma_natural_exit_sends_no_break(p: Phase, events: Seq<Event>)
    requires
        !(p is Terminating),
        forall|k: int| 0 <= k < events.len() ==> !is_preemption(#[trigger] events[k]),
    ensures
        !(run(p, events).0 is Terminating),
        forall|k: int|
            0 <= k < run(p, events).1.len() ==> !(#[trigger] run(p, events).1[k] is SendBreak),
    decreases events.len(),
{
    if events.len() > 0 {
        let rest = events.skip(1);
        assert forall|k: int| 0 <= k < rest.len() implies !is_preemption(#[trigger] rest[k]) by {
            assert(rest[k] == events[k + 1]);
        }
        assert(!is_preemption(events[0]));
        let (q, a) = transition(p, events[0]);
        lemma_natural_exit_sends_no_break(q, rest);
        let acts = run(p, events).1;
        assert(acts == seq![a] + run(q, rest).1);
        assert forall|k: int| 0 <= k < acts.len() implies !(#[trigger] acts[k] is SendBreak) by {
            if k > 0 {
                assert(acts[k] == run(q, rest).1[k - 1]);
            }
        }
    }
}

/// A running supervisor that loses the race to a signal or a successor sends a
/// break to its child's group whether or not the break was delivered, waits
/// for the child, and exits once the child is reaped.
pub proof fn lemma_preempted_run_stops_child(id: Option<u32>, w: RaceWinner, delivered: bool)
    requires
        preempts(w),
    ensures
        admissible(
            Phase::Running(id),
            seq![Event::RaceWon(w), Event::BreakSent(delivered), Event::ChildReaped],
        ),
        run(
            Phase::Running(id),
            seq![Event::RaceWon(w), Event::BreakSent(delivered), Event::ChildReaped],
        ) == (
            Phase::Done(Outcome::Preempted),
            seq![Action::SendBreak(id), Action::AwaitChildExit, Action::Exit],
        ),
{
    let evs = seq![Event::RaceWon(w), Event::BreakSent(delivered), Event::ChildReaped];
    assert(evs.skip(1) =~= seq![Event::BreakSent(delivered), Event::ChildReaped]);
    assert(evs.skip(1).skip(1) =~= seq![Event::ChildReaped]);
    assert(evs.skip(1).skip(1).skip(1) =~= Seq::<Event>::empty());
    reveal_with_fuel(admissible, 4);
    reveal_with_fuel(run, 4);
    assert(run(Phase::Running(id), evs).1 =~= seq![
        Action::SendBreak(id),
        Action::AwaitChildExit,
        Action::Exit,
    ]);
}

/// One supervisor instance.
pub struct Supervisor {
    pub phase: Phase,
}

impl Supervisor {
    /// A supervisor about to drain its predecessor, and its first action.
    pub fn new() -> (r: (Supervisor, Action))
        ensures
            r.0.phase == initial_phase(),
            r.1 == initial_action(),
    {
        (Supervisor { phase: Phase::DrainingPredecessor }, Action::ProbeForPredecessor)
    }

    /// Whether the supervisor awaits this event.
    pub fn accepts(&self, e: &Event) -> (r: bool)
        ensures
            r == expects(self.phase, *e),
    {
        match self.phase {
            Phase::DrainingPredecessor => matches!(e, Event::Probed(_)),
            Phase::AwaitingPredecessor => matches!(e, Event::PredecessorGone),
            Phase::ClaimingOwnership => matches!(e, Event::Claimed(_)),
            Phase::Spawning => matches!(e, Event::Spawned(_) | Event::SpawnFailed),
            Phase::Running(_) => matches!(e, Event::RaceWon(_)),
            Phase::Terminating(_, sent) => if sent {
                matches!(e, Event::ChildReaped)
            } else {
                matches!(e, Event::BreakSent(_))
            },
            Phase::Done(_) => false,
            Phase::Failed(_) => false,
        }
    }

    /// Whether the supervisor has finished, with success or on a fault.
    pub fn is_finished(&self) -> (r: bool)
        ensures
            r == (self.phase is Done || self.phase is Failed),
    {
        matches!(self.phase, Phase::Done(_) | Phase::Failed(_))
    }

    /// Takes in what came of the last action and returns the next one.
    pub fn step(&mut self, e: Event) -> (a: Action)
        requires
            expects(old(self).phase, e),
        ensures
            (final(self).phase, a) == transition(old(self).phase, e),
    {
        let (p, a) = match (self.phase, e) {
            (Phase::DrainingPredecessor, Event::Probed(PeerProbe::Connected)) => (
                Phase::AwaitingPredecessor,
                Action::AwaitPredecessorExit,
            ),
            (Phase::DrainingPredecessor, Event::Probed(PeerProbe::NoOwner)) => (
                Phase::ClaimingOwnership,
                Action::ClaimOwnership,
            ),
            (Phase::AwaitingPredecessor, Event::PredecessorGone) => (
                Phase::ClaimingOwnership,
                Action::ClaimOwnership,
            ),
            (Phase::ClaimingOwnership, Event::Claimed(Claim::Owned)) => (
                Phase::Spawning,
                Action::SpawnChild,
            ),
            (Phase::ClaimingOwnership, Event::Claimed(Claim::AlreadyOwned)) => (
                Phase::Failed(Fault::OwnershipTaken),
                Action::Abort(Fault::OwnershipTaken),
            ),
            (Phase::Spawning, Event::Spawned(id)) => (Phase::Running(id), Action::AwaitRace),
            (Phase::Spawning, Event::SpawnFailed) => (
                Phase::Failed(Fault::SpawnFailed),
                Action::Abort(Fault::SpawnFailed),
            ),
            (Phase::Running(id), Event::RaceWon(w)) => match w {
                RaceWinner::ChildExited => (Phase::Done(Outcome::NaturalExit), Action::Exit),
                _ => (Phase::Terminating(id, false), Action::SendBreak(id)),
            },
            (Phase::Terminating(id, false), Event::BreakSent(_)) => (
                Phase::Terminating(id, true),
                Action::AwaitChildExit,
            ),
            (Phase::Terminating(_, true), Event::ChildReaped) => (
                Phase::Done(Outcome::Preempted),
                Action::Exit,
            ),
            _ => (self.phase, Action::Exit),
        };
        self.phase = p;
        a
    }
}

} // verus!
