use one_instance::supervisor::{
    Action, Claim, Event, Fault, Outcome, PeerProbe, Phase, RaceWinner, Supervisor,
    TerminationSignal,
};

fn feed(s: &mut Supervisor, events: &[Event]) -> Vec<Action> {
    let mut out = Vec::new();
    for e in events {
        assert!(s.accepts(e), "{:?} not awaited in {:?}", e, s.phase);
        out.push(s.step(*e));
    }
    out
}

#[test]
fn starts_by_probing() {
    let (s, a) = Supervisor::new();
    assert_eq!(s.phase, Phase::DrainingPredecessor);
    assert_eq!(a, Action::ProbeForPredecessor);
    assert!(!s.is_finished());
}

#[test]
fn first_launch_claims_without_waiting() {
    let (mut s, _) = Supervisor::new();
    let acts = feed(
        &mut s,
        &[Event::Probed(PeerProbe::NoOwner), Event::Claimed(Claim::Owned), Event::Spawned(Some(42))],
    );
    assert_eq!(acts, vec![Action::ClaimOwnership, Action::SpawnChild, Action::AwaitRace]);
    assert_eq!(s.phase, Phase::Running(Some(42)));
}

#[test]
fn predecessor_is_drained_first() {
    let (mut s, _) = Supervisor::new();
    let acts = feed(
        &mut s,
        &[
            Event::Probed(PeerProbe::Connected),
            Event::PredecessorGone,
            Event::Claimed(Claim::Owned),
        ],
    );
    assert_eq!(
        acts,
        vec![Action::AwaitPredecessorExit, Action::ClaimOwnership, Action::SpawnChild]
    );
}

#[test]
fn natural_exit_sends_no_break() {
    let (mut s, _) = Supervisor::new();
    let acts = feed(
        &mut s,
        &[
            Event::Probed(PeerProbe::NoOwner),
            Event::Claimed(Claim::Owned),
            Event::Spawned(Some(7)),
            Event::RaceWon(RaceWinner::ChildExited),
        ],
    );
    assert!(!acts.iter().any(|a| matches!(a, Action::SendBreak(_))));
    assert_eq!(acts.last(), Some(&Action::Exit));
    assert_eq!(s.phase, Phase::Done(Outcome::NaturalExit));
    assert!(s.is_finished());
    assert!(!s.accepts(&Event::ChildReaped));
}

#[test]
fn successor_preempts_child() {
    let (mut s, _) = Supervisor::new();
    feed(
        &mut s,
        &[Event::Probed(PeerProbe::NoOwner), Event::Claimed(Claim::Owned), Event::Spawned(Some(9))],
    );
    let acts = feed(
        &mut s,
        &[Event::RaceWon(RaceWinner::Successor), Event::BreakSent(true), Event::ChildReaped],
    );
    assert_eq!(acts, vec![Action::SendBreak(Some(9)), Action::AwaitChildExit, Action::Exit]);
    assert_eq!(s.phase, Phase::Done(Outcome::Preempted));
}

#[test]
fn every_signal_preempts_child() {
    for sig in [
        TerminationSignal::Interrupt,
        TerminationSignal::Close,
        TerminationSignal::Break,
        TerminationSignal::Logoff,
        TerminationSignal::Shutdown,
    ] {
        let mut s = Supervisor { phase: Phase::Running(Some(3)) };
        assert_eq!(s.step(Event::RaceWon(RaceWinner::Signal(sig))), Action::SendBreak(Some(3)));
        assert_eq!(s.phase, Phase::Terminating(Some(3), false));
    }
}

#[test]
fn undelivered_break_still_waits_for_child() {
    let mut s = Supervisor { phase: Phase::Running(None) };
    assert_eq!(s.step(Event::RaceWon(RaceWinner::Successor)), Action::SendBreak(None));
    assert_eq!(s.step(Event::BreakSent(false)), Action::AwaitChildExit);
    assert!(!s.is_finished());
    assert!(s.accepts(&Event::ChildReaped));
    assert!(!s.accepts(&Event::BreakSent(true)));
    assert_eq!(s.step(Event::ChildReaped), Action::Exit);
}

#[test]
fn ownership_taken_is_fatal() {
    let (mut s, _) = Supervisor::new();
    let acts = feed(
        &mut s,
        &[Event::Probed(PeerProbe::Connected), Event::PredecessorGone, Event::Claimed(Claim::AlreadyOwned)],
    );
    assert_eq!(acts.last(), Some(&Action::Abort(Fault::OwnershipTaken)));
    assert_eq!(s.phase, Phase::Failed(Fault::OwnershipTaken));
    assert!(s.is_finished());
}

#[test]
fn spawn_failure_is_fatal() {
    let mut s = Supervisor { phase: Phase::Spawning };
    assert_eq!(s.step(Event::SpawnFailed), Action::Abort(Fault::SpawnFailed));
    assert_eq!(s.phase, Phase::Failed(Fault::SpawnFailed));
}

#[test]
fn unexpected_events_are_not_accepted() {
    let (s, _) = Supervisor::new();
    assert!(!s.accepts(&Event::ChildReaped));
    assert!(!s.accepts(&Event::Claimed(Claim::Owned)));
    assert!(s.accepts(&Event::Probed(PeerProbe::Connected)));
    let r = Supervisor { phase: Phase::Running(Some(1)) };
    assert!(!r.accepts(&Event::ChildReaped));
    assert!(r.accepts(&Event::RaceWon(RaceWinner::ChildExited)));
}
