use fee_bump::draft::TxId;
use fee_bump::error::TrackerError;
use fee_bump::package::Topology;
use fee_bump::tracker::DraftState::{Broadcast, Built, Confirmed, StillPending, Superseded};
use fee_bump::tracker::{
    advance, classify, contains_id, states_succeed, DraftState, PackageOutcome, PackageTracker,
    Sighting, Slot,
};

fn id(n: u8) -> TxId {
    TxId::new([n; 32])
}

const STATES: [DraftState; 5] = [
    DraftState::Built,
    DraftState::Broadcast,
    DraftState::StillPending,
    DraftState::Superseded,
    DraftState::Confirmed,
];

const TOPOLOGIES: [Topology; 3] =
    [Topology::Replacement, Topology::ParentChild, Topology::AnchorSpend];

#[test]
fn new_tracker_has_both_drafts_built() {
    let tracker = PackageTracker::new(Topology::ParentChild);
    assert_eq!(tracker.topology(), Topology::ParentChild);
    assert_eq!(tracker.state(Slot::First), DraftState::Built);
    assert_eq!(tracker.state(Slot::Second), DraftState::Built);
    assert_eq!(tracker.id(Slot::First), None);
    assert_eq!(tracker.id(Slot::Second), None);
    assert_eq!(tracker.outcome(), PackageOutcome::Unknown);
    assert!(!tracker.succeeded());
}

#[test]
fn success_never_holds_while_a_draft_is_built() {
    for topology in TOPOLOGIES {
        for other in STATES {
            assert!(!states_succeed(topology, DraftState::Built, other));
            assert!(!states_succeed(topology, other, DraftState::Built));
        }
    }
}

#[test]
fn tracker_does_not_succeed_before_both_are_broadcast() {
    for topology in TOPOLOGIES {
        let mut tracker = PackageTracker::new(topology);
        assert!(!tracker.succeeded());
        let _ = tracker.observe(&vec![id(1), id(2)], &vec![id(1), id(2)]);
        assert!(!tracker.succeeded());
        assert!(tracker.record_broadcast(Slot::First, id(1)));
        let _ = tracker.observe(&vec![id(1), id(2)], &vec![]);
        assert!(!tracker.succeeded());
        let _ = tracker.observe(&vec![], &vec![id(1), id(2)]);
        assert!(!tracker.succeeded());
        assert_eq!(tracker.state(Slot::Second), DraftState::Built);
    }
}

#[test]
fn replacement_succeeds_when_the_original_is_evicted() {
    let mut tracker = PackageTracker::new(Topology::Replacement);
    assert!(tracker.record_broadcast(Slot::First, id(1)));
    assert_eq!(tracker.observe(&vec![id(1)], &vec![]), Ok(PackageOutcome::Unknown));
    assert_eq!(tracker.state(Slot::First), DraftState::StillPending);
    assert!(tracker.record_broadcast(Slot::Second, id(2)));
    assert_eq!(tracker.observe(&vec![id(2)], &vec![]), Ok(PackageOutcome::SupersededEvicted));
    assert_eq!(tracker.state(Slot::First), DraftState::Superseded);
    assert_eq!(tracker.state(Slot::Second), DraftState::StillPending);
    assert!(tracker.succeeded());
    assert_eq!(tracker.observe(&vec![], &vec![id(2)]), Ok(PackageOutcome::SupersededEvicted));
    assert_eq!(tracker.state(Slot::First), DraftState::Superseded);
    assert_eq!(tracker.state(Slot::Second), DraftState::Confirmed);
    assert!(tracker.succeeded());
    assert_eq!(tracker.outcome(), PackageOutcome::SupersededEvicted);
}

#[test]
fn replacement_with_both_pending_has_not_succeeded() {
    let mut tracker = PackageTracker::new(Topology::Replacement);
    tracker.record_broadcast(Slot::First, id(1));
    tracker.record_broadcast(Slot::Second, id(2));
    assert_eq!(tracker.observe(&vec![id(2), id(1)], &vec![]), Ok(PackageOutcome::BothPending));
    assert!(!tracker.succeeded());
}

#[test]
fn replacement_loses_when_the_original_confirms() {
    let mut tracker = PackageTracker::new(Topology::Replacement);
    tracker.record_broadcast(Slot::First, id(1));
    tracker.record_broadcast(Slot::Second, id(2));
    assert_eq!(tracker.observe(&vec![id(2)], &vec![id(1)]), Ok(PackageOutcome::Unknown));
    assert_eq!(tracker.state(Slot::First), DraftState::Confirmed);
    assert_eq!(tracker.state(Slot::Second), DraftState::Superseded);
    assert!(!tracker.succeeded());
}

#[test]
fn dependent_pair_succeeds_pending_together_and_confirmed_together() {
    for topology in [Topology::ParentChild, Topology::AnchorSpend] {
        let mut tracker = PackageTracker::new(topology);
        tracker.record_broadcast(Slot::First, id(1));
        tracker.record_broadcast(Slot::Second, id(2));
        assert_eq!(tracker.outcome(), PackageOutcome::Unknown);
        assert!(!tracker.succeeded());
        assert_eq!(tracker.observe(&vec![id(1), id(2)], &vec![]), Ok(PackageOutcome::BothPending));
        assert!(tracker.succeeded());
        assert_eq!(
            tracker.observe(&vec![], &vec![id(9), id(2), id(1)]),
            Ok(PackageOutcome::BothConfirmed)
        );
        assert!(tracker.succeeded());
        assert_eq!(tracker.observe(&vec![], &vec![]), Ok(PackageOutcome::BothConfirmed));
        assert_eq!(tracker.state(Slot::First), DraftState::Confirmed);
        assert_eq!(tracker.state(Slot::Second), DraftState::Confirmed);
    }
}

#[test]
fn partial_confirmation_is_an_invariant_violation() {
    let mut tracker = PackageTracker::new(Topology::ParentChild);
    tracker.record_broadcast(Slot::First, id(1));
    tracker.record_broadcast(Slot::Second, id(2));
    assert_eq!(
        tracker.observe(&vec![id(1)], &vec![id(2)]),
        Err(TrackerError::InvariantViolation)
    );
    assert_eq!(tracker.state(Slot::First), DraftState::StillPending);
    assert_eq!(tracker.state(Slot::Second), DraftState::Confirmed);
    assert_eq!(tracker.outcome(), PackageOutcome::PartiallyConfirmed);
    assert!(!tracker.succeeded());

    let mut anchor = PackageTracker::new(Topology::AnchorSpend);
    anchor.record_broadcast(Slot::First, id(1));
    anchor.record_broadcast(Slot::Second, id(2));
    assert_eq!(anchor.observe(&vec![], &vec![id(1)]), Err(TrackerError::InvariantViolation));
    assert_eq!(anchor.state(Slot::Second), DraftState::Broadcast);
}

#[test]
fn dependent_pair_is_never_superseded() {
    let mut tracker = PackageTracker::new(Topology::ParentChild);
    tracker.record_broadcast(Slot::First, id(1));
    tracker.record_broadcast(Slot::Second, id(2));
    assert_eq!(tracker.observe(&vec![id(1), id(2)], &vec![]), Ok(PackageOutcome::BothPending));
    assert_eq!(tracker.observe(&vec![], &vec![]), Ok(PackageOutcome::BothPending));
    assert_eq!(tracker.state(Slot::First), DraftState::StillPending);
    assert_eq!(tracker.state(Slot::Second), DraftState::StillPending);
}

#[test]
fn record_broadcast_only_moves_a_built_draft() {
    let mut tracker = PackageTracker::new(Topology::ParentChild);
    assert!(tracker.may_broadcast(Slot::First));
    assert!(!tracker.may_broadcast(Slot::Second));
    assert!(tracker.record_broadcast(Slot::First, id(1)));
    assert_eq!(tracker.state(Slot::First), DraftState::Broadcast);
    assert_eq!(tracker.id(Slot::First), Some(id(1)));
    assert!(!tracker.may_broadcast(Slot::First));
    assert!(tracker.may_broadcast(Slot::Second));
    assert!(!tracker.record_broadcast(Slot::First, id(3)));
    assert_eq!(tracker.id(Slot::First), Some(id(1)));
    assert_eq!(tracker.state(Slot::Second), DraftState::Built);

    let replacement = PackageTracker::new(Topology::Replacement);
    assert!(replacement.may_broadcast(Slot::First));
    assert!(replacement.may_broadcast(Slot::Second));
}

#[test]
fn for_package_takes_the_shape_of_the_package() {
    let out = fee_bump::draft::SpendableOutput { txid: id(1), output_index: 0, value: 1_000 };
    let package =
        fee_bump::builder::build_parent_child(&out, &vec![0x51], &vec![0x52], 10, 20).unwrap();
    let tracker = PackageTracker::for_package(&package);
    assert_eq!(tracker.topology(), Topology::ParentChild);
    assert_eq!(tracker.state(Slot::First), DraftState::Built);
    assert_eq!(tracker.state(Slot::Second), DraftState::Built);
}

#[test]
fn advance_follows_the_state_machine() {
    let nothing = Sighting { pending: false, confirmed: false };
    let pending = Sighting { pending: true, confirmed: false };
    let confirmed = Sighting { pending: false, confirmed: true };
    let both = Sighting { pending: true, confirmed: true };
    for topology in TOPOLOGIES {
        for slot in [Slot::First, Slot::Second] {
            for seen in [nothing, pending, confirmed, both] {
                for sibling in [false, true] {
                    for settled in
                        [DraftState::Built, DraftState::Superseded, DraftState::Confirmed]
                    {
                        assert_eq!(advance(topology, slot, settled, seen, sibling), settled);
                    }
                }
            }
            for live in [DraftState::Broadcast, DraftState::StillPending] {
                assert_eq!(advance(topology, slot, live, confirmed, false), DraftState::Confirmed);
                assert_eq!(advance(topology, slot, live, both, true), DraftState::Confirmed);
                assert_eq!(advance(topology, slot, live, pending, false), DraftState::StillPending);
            }
        }
    }
    let r = Topology::Replacement;
    assert_eq!(
        advance(r, Slot::First, DraftState::Broadcast, nothing, false),
        DraftState::Superseded
    );
    assert_eq!(
        advance(r, Slot::Second, DraftState::Broadcast, nothing, false),
        DraftState::Broadcast
    );
    assert_eq!(
        advance(r, Slot::Second, DraftState::StillPending, pending, true),
        DraftState::Superseded
    );
    assert_eq!(
        advance(r, Slot::First, DraftState::StillPending, pending, true),
        DraftState::Superseded
    );
    let p = Topology::ParentChild;
    assert_eq!(
        advance(p, Slot::First, DraftState::Broadcast, nothing, true),
        DraftState::Broadcast
    );
    assert_eq!(
        advance(p, Slot::Second, DraftState::StillPending, nothing, true),
        DraftState::StillPending
    );
}

#[test]
fn classify_reads_the_outcome() {
    let r = Topology::Replacement;
    let p = Topology::ParentChild;
    let a = Topology::AnchorSpend;
    assert_eq!(classify(r, StillPending, StillPending), PackageOutcome::BothPending);
    assert_eq!(classify(p, StillPending, StillPending), PackageOutcome::BothPending);
    assert_eq!(classify(r, Superseded, StillPending), PackageOutcome::SupersededEvicted);
    assert_eq!(classify(r, Superseded, Confirmed), PackageOutcome::SupersededEvicted);
    assert_eq!(classify(r, Superseded, Broadcast), PackageOutcome::Unknown);
    assert_eq!(classify(r, Confirmed, Superseded), PackageOutcome::Unknown);
    assert_eq!(classify(r, Confirmed, Confirmed), PackageOutcome::Unknown);
    assert_eq!(classify(r, Confirmed, StillPending), PackageOutcome::Unknown);
    assert_eq!(classify(p, Confirmed, Confirmed), PackageOutcome::BothConfirmed);
    assert_eq!(classify(a, Confirmed, Confirmed), PackageOutcome::BothConfirmed);
    assert_eq!(classify(p, Confirmed, StillPending), PackageOutcome::PartiallyConfirmed);
    assert_eq!(classify(p, Confirmed, Broadcast), PackageOutcome::PartiallyConfirmed);
    assert_eq!(classify(a, Broadcast, Confirmed), PackageOutcome::PartiallyConfirmed);
    assert_eq!(classify(a, StillPending, Confirmed), PackageOutcome::PartiallyConfirmed);
    assert_eq!(classify(p, Confirmed, Built), PackageOutcome::Unknown);
    assert_eq!(classify(p, Built, Confirmed), PackageOutcome::Unknown);
    assert_eq!(classify(p, Built, Built), PackageOutcome::Unknown);
    assert_eq!(classify(p, Broadcast, Broadcast), PackageOutcome::Unknown);
    assert_eq!(classify(p, Superseded, StillPending), PackageOutcome::Unknown);
}

#[test]
fn states_succeed_matches_each_topology() {
    let r = Topology::Replacement;
    let p = Topology::ParentChild;
    assert!(states_succeed(r, Superseded, Confirmed));
    assert!(states_succeed(r, Superseded, StillPending));
    assert!(!states_succeed(r, Superseded, Broadcast));
    assert!(!states_succeed(r, StillPending, StillPending));
    assert!(!states_succeed(r, Confirmed, Confirmed));
    assert!(!states_succeed(r, Confirmed, Superseded));
    assert!(states_succeed(p, Confirmed, Confirmed));
    assert!(states_succeed(p, StillPending, StillPending));
    assert!(!states_succeed(p, Confirmed, StillPending));
    assert!(!states_succeed(p, Broadcast, Broadcast));
    assert!(!states_succeed(p, Superseded, Confirmed));
}

#[test]
fn contains_id_finds_only_listed_identifiers() {
    let ids = vec![id(1), id(2), id(3)];
    assert!(contains_id(&ids, &id(1)));
    assert!(contains_id(&ids, &id(3)));
    assert!(!contains_id(&ids, &id(4)));
    assert!(!contains_id(&vec![], &id(1)));
    let mut near = [2u8; 32];
    near[17] = 0;
    assert!(!contains_id(&ids, &TxId::new(near)));
}
