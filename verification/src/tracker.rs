//! The lifecycle of a package's drafts once they leave the builder.
//!
//! A draft starts as `Built`, becomes `Broadcast` when the caller reports the
//! identifier under which the ledger accepted it, and is then classified by
//! snapshots of the ledger's pending set and of its confirmed transactions.

use vstd::prelude::*;
use crate::draft::TxId;
use crate::error::TrackerError;
use crate::package::{Package, Topology};

verus! {

/// Where a draft stands.
#[derive(Clone, Copy, Debug, PartialEq, Eq, Structural)]
pub enum DraftState {
    /// Built, not yet handed to the ledger.
    Built,
    /// Accepted by the ledger; no snapshot has shown it since.
    Broadcast,
    /// Seen in the pending set.
    StillPending,
    /// Displaced by its conflicting sibling.
    Superseded,
    /// Seen in a block.
    Confirmed,
}

/// One of the two drafts of a package, in broadcast order.
#[derive(Clone, Copy, Debug, PartialEq, Eq, Structural)]
pub enum Slot {
    First,
    Second,
}

/// How a package as a whole stands after a snapshot.
#[derive(Clone, Copy, Debug, PartialEq, Eq, Structural)]
pub enum PackageOutcome {
    /// Both drafts wait in the pending set.
    BothPending,
    /// The original of a replacement pair is gone and the replacement is
    /// pending or confirmed.
    SupersededEvicted,
    /// One draft of a dependent pair is confirmed and the other is not.
    PartiallyConfirmed,
    /// Both drafts of a dependent pair are confirmed.
    BothConfirmed,
    /// None of the above.
    Unknown,
}

/// What one snapshot shows of one draft.
#[derive(Clone, Copy, Debug, PartialEq, Eq, Structural)]
pub struct Sighting {
    /// The draft is in the pending set.
    pub pending: bool,
    /// The draft is in a block.
    pub confirmed: bool,
}

/// Whether snapshots can still change the state: the draft was broadcast and
/// is neither confirmed nor superseded.
pub open spec fn is_live(state: DraftState) -> bool {
    state == DraftState::Broadcast || state == DraftState::StillPending
}

/// Whether a draft in `state` counts as confirmed once `seen` is taken in.
pub open spec fn confirmed_after(state: DraftState, seen: Sighting) -> bool {
    state == DraftState::Confirmed || (is_live(state) && seen.confirmed)
}

/// The state that follows `state` when a snapshot shows `seen` of the draft
/// in `slot` and `sibling_confirmed` of the other draft.
///
/// Only a live draft moves. A block confirms it. Otherwise, in a replacement
/// pair it is superseded when its sibling is confirmed, and the original
/// also when it has left the pending set. Otherwise it is pending if the
/// pending set holds it, and stays as it was if nothing shows it.
pub open spec fn next_state(
    topology: Topology,
    slot: Slot,
    state: DraftState,
    seen: Sighting,
    sibling_confirmed: bool,
) -> DraftState {
    if !is_live(state) {
        state
    } else if seen.confirmed {
        DraftState::Confirmed
    } else if topology == Topology::Replacement && (sibling_confirmed || (slot == Slot::First
        && !seen.pending)) {
        DraftState::Superseded
    } else if seen.pending {
        DraftState::StillPending
    } else {
        state
    }
}

/// The package-level reading of the two states.
pub open spec fn outcome_of(topology: Topology, first: DraftState, second: DraftState)
    -> PackageOutcome {
    if first == DraftState::StillPending && second == DraftState::StillPending {
        PackageOutcome::BothPending
    } else if topology == Topology::Replacement {
        if first == DraftState::Superseded && (second == DraftState::StillPending || second
            == DraftState::Confirmed) {
            PackageOutcome::SupersededEvicted
        } else {
            PackageOutcome::Unknown
        }
    } else if first == DraftState::Confirmed && second == DraftState::Confirmed {
        PackageOutcome::BothConfirmed
    } else if (first == DraftState::Confirmed && is_live(second)) || (second
        == DraftState::Confirmed && is_live(first)) {
        PackageOutcome::PartiallyConfirmed
    } else {
        PackageOutcome::Unknown
    }
}

/// Whether the package did what it was built for. A replacement succeeds
/// when the original is superseded and the replacement is pending or
/// confirmed. A dependent pair succeeds when both drafts are confirmed or
/// both are pending.
pub open spec fn success(topology: Topology, first: DraftState, second: DraftState) -> bool {
    if topology == Topology::Replacement {
        first == DraftState::Superseded && (second == DraftState::Confirmed || second
            == DraftState::StillPending)
    } else {
        (first == DraftState::Confirmed && second == DraftState::Confirmed) || (first
            == DraftState::StillPending && second == DraftState::StillPending)
    }
}

/// Whether `ids` holds an identifier with the bytes `id`.
pub open spec fn listed(ids: Seq<TxId>, id: Seq<u8>) -> bool {
    exists|i: int| 0 <= i < ids.len() && (#[trigger] ids[i])@ == id
}

/// What the two lists of a snapshot show of the draft known as `id`; nothing
/// of a draft without an identifier.
pub open spec fn sighting_of(id: Option<Seq<u8>>, pending: Seq<TxId>, confirmed: Seq<TxId>)
    -> Sighting {
    match id {
        Some(bytes) => Sighting {
            pending: listed(pending, bytes),
            confirmed: listed(confirmed, bytes),
        },
        None => Sighting { pending: false, confirmed: false },
    }
}

/// The mathematical content of a [`PackageTracker`].
pub struct TrackerModel {
    pub topology: Topology,
    pub first: DraftState,
    pub second: DraftState,
    pub first_id: Option<Seq<u8>>,
    pub second_id: Option<Seq<u8>>,
}

impl TrackerModel {
    /// The state of the draft in `slot`.
    pub open spec fn state(self, slot: Slot) -> DraftState {
        match slot {
            Slot::First => self.first,
            Slot::Second => self.second,
        }
    }

    /// A draft has an identifier exactly when it has been broadcast.
    pub open spec fn consistent(self) -> bool {
        &&& self.first == DraftState::Built <==> self.first_id is None
        &&& self.second == DraftState::Built <==> self.second_id is None
    }

    /// The tracker after the caller reports that the draft in `slot` was
    /// accepted under `id`: a built draft becomes broadcast, any other report
    /// changes nothing.
    pub open spec fn broadcast(self, slot: Slot, id: Seq<u8>) -> TrackerModel {
        if self.state(slot) != DraftState::Built {
            self
        } else {
            match slot {
                Slot::First => TrackerModel {
                    first: DraftState::Broadcast,
                    first_id: Some(id),
                    ..self
                },
                Slot::Second => TrackerModel {
                    second: DraftState::Broadcast,
                    second_id: Some(id),
                    ..self
                },
            }
        }
    }

    /// The tracker after a snapshot of the pending set and of the confirmed
    /// transactions.
    pub open spec fn observed(self, pending: Seq<TxId>, confirmed: Seq<TxId>) -> TrackerModel {
        let seen_first = sighting_of(self.first_id, pending, confirmed);
        let seen_second = sighting_of(self.second_id, pending, confirmed);
        TrackerModel {
            first: next_state(
                self.topology,
                Slot::First,
                self.first,
                seen_first,
                confirmed_after(self.second, seen_second),
            ),
            second: next_state(
                self.topology,
                Slot::Second,
                self.second,
                seen_second,
                confirmed_after(self.first, seen_first),
            ),
            ..self
        }
    }
}

/// Whether `ids` holds `id`.
pub fn contains_id(ids: &Vec<TxId>, id: &TxId) -> (found: bool)
    ensures
        found == listed(ids@, id@),
{
    let mut i: usize = 0;
    while i < ids.len()
        invariant
            0 <= i <= ids.len(),
            forall|j: int| 0 <= j < i ==> (#[trigger] ids@[j])@ != id@,
        decreases ids.len() - i,
    {
        if ids[i].same(id) {
            return true;
        }
        i += 1;
    }
    false
}

/// Whether a draft in `state` is still moved by snapshots.
pub fn state_is_live(state: DraftState) -> (live: bool)
    ensures
        live == is_live(state),
{
    match state {
        DraftState::Broadcast => true,
        DraftState::StillPending => true,
        _ => false,
    }
}

/// The step of one draft's state machine.
pub fn advance(
    topology: Topology,
    slot: Slot,
    state: DraftState,
    seen: Sighting,
    sibling_confirmed: bool,
) -> (next: DraftState)
    ensures
        next == next_state(topology, slot, state, seen, sibling_confirmed),
{
    if !state_is_live(state) {
        state
    } else if seen.confirmed {
        DraftState::Confirmed
    } else {
        let replaced = match topology {
            Topology::Replacement => sibling_confirmed || (match slot {
                Slot::First => !seen.pending,
                Slot::Second => false,
            }),
            _ => false,
        };
        if replaced {
            DraftState::Superseded
        } else if seen.pending {
            DraftState::StillPending
        } else {
            state
        }
    }
}

/// Reads the package-level outcome off the two states.
pub fn classify(topology: Topology, first: DraftState, second: DraftState) -> (outcome:
    PackageOutcome)
    ensures
        outcome == outcome_of(topology, first, second),
{
    let replacement = match topology {
        Topology::Replacement => true,
        _ => false,
    };
    match (first, second) {
        (DraftState::StillPending, DraftState::StillPending) => PackageOutcome::BothPending,
        (DraftState::Superseded, DraftState::StillPending) => if replacement {
            PackageOutcome::SupersededEvicted
        } else {
            PackageOutcome::Unknown
        },
        (DraftState::Superseded, DraftState::Confirmed) => if replacement {
            PackageOutcome::SupersededEvicted
        } else {
            PackageOutcome::Unknown
        },
        (DraftState::Confirmed, DraftState::Confirmed) => if replacement {
            PackageOutcome::Unknown
        } else {
            PackageOutcome::BothConfirmed
        },
        (DraftState::Confirmed, other) => if !replacement && state_is_live(other) {
            PackageOutcome::PartiallyConfirmed
        } else {
            PackageOutcome::Unknown
        },
        (other, DraftState::Confirmed) => if !replacement && state_is_live(other) {
            PackageOutcome::PartiallyConfirmed
        } else {
            PackageOutcome::Unknown
        },
        _ => PackageOutcome::Unknown,
    }
}

/// Decides success from the two states.
pub fn states_succeed(topology: Topology, first: DraftState, second: DraftState) -> (ok: bool)
    ensures
        ok == success(topology, first, second),
        ok ==> first != DraftState::Built && second != DraftState::Built,
{
    match topology {
        Topology::Replacement => match (first, second) {
            (DraftState::Superseded, DraftState::Confirmed) => true,
            (DraftState::Superseded, DraftState::StillPending) => true,
            _ => false,
        },
        _ => match (first, second) {
            (DraftState::Confirmed, DraftState::Confirmed) => true,
            (DraftState::StillPending, DraftState::StillPending) => true,
            _ => false,
        },
    }
}

/// The states and identifiers of the two drafts of one package.
#[derive(Debug)]
pub struct PackageTracker {
    topology: Topology,
    first: DraftState,
    second: DraftState,
    first_id: Option<TxId>,
    second_id: Option<TxId>,
}

/// The bytes of an identifier that may be absent.
pub open spec fn id_model(id: Option<TxId>) -> Option<Seq<u8>> {
    match id {
        Some(txid) => Some(txid@),
        None => None,
    }
}

impl View for PackageTracker {
    type V = TrackerModel;

    closed spec fn view(&self) -> TrackerModel {
        TrackerModel {
            topology: self.topology,
            first: self.first,
            second: self.second,
            first_id: id_model(self.first_id),
            second_id: id_model(self.second_id),
        }
    }
}

impl PackageTracker {
    #[verifier::type_invariant]
    spec fn well_formed(self) -> bool {
        self@.consistent()
    }

    /// A tracker for a package of the given shape, both drafts built and
    /// neither broadcast.
    pub fn new(topology: Topology) -> (tracker: PackageTracker)
        ensures
            tracker@ == (TrackerModel {
                topology,
                first: DraftState::Built,
                second: DraftState::Built,
                first_id: None,
                second_id: None,
            }),
    {
        PackageTracker {
            topology,
            first: DraftState::Built,
            second: DraftState::Built,
            first_id: None,
            second_id: None,
        }
    }

    /// A tracker for `package`, both drafts built and neither broadcast.
    pub fn for_package(package: &Package) -> (tracker: PackageTracker)
        ensures
            tracker@ == (TrackerModel {
                topology: package@.topology,
                first: DraftState::Built,
                second: DraftState::Built,
                first_id: None,
                second_id: None,
            }),
    {
        PackageTracker::new(package.topology())
    }

    /// The shape of the tracked package.
    pub fn topology(&self) -> (topology: Topology)
        ensures
            topology == self@.topology,
    {
        self.topology
    }

    /// The state of the draft in `slot`.
    pub fn state(&self, slot: Slot) -> (state: DraftState)
        ensures
            state == self@.state(slot),
            self@.consistent(),
    {
        proof {
            use_type_invariant(self);
        }
        match slot {
            Slot::First => self.first,
            Slot::Second => self.second,
        }
    }

    /// The identifier under which the draft in `slot` was broadcast, if it
    /// was.
    pub fn id(&self, slot: Slot) -> (id: Option<TxId>)
        ensures
            slot == Slot::First ==> id_model(id) == self@.first_id,
            slot == Slot::Second ==> id_model(id) == self@.second_id,
            id is None <==> self@.state(slot) == DraftState::Built,
    {
        proof {
            use_type_invariant(self);
        }
        match slot {
            Slot::First => self.first_id,
            Slot::Second => self.second_id,
        }
    }

    /// Whether the draft in `slot` may be handed to the ledger now: it is
    /// still built and, where it spends an output of the first draft, the
    /// first has been broadcast.
    pub fn may_broadcast(&self, slot: Slot) -> (allowed: bool)
        ensures
            allowed == (self@.state(slot) == DraftState::Built && (slot == Slot::First
                || self@.topology == Topology::Replacement || self@.first != DraftState::Built)),
    {
        match slot {
            Slot::First => match self.first {
                DraftState::Built => true,
                _ => false,
            },
            Slot::Second => {
                let waits = match self.topology {
                    Topology::Replacement => false,
                    _ => match self.first {
                        DraftState::Built => true,
                        _ => false,
                    },
                };
                match self.second {
                    DraftState::Built => !waits,
                    _ => false,
                }
            },
        }
    }

    /// Records that the ledger accepted the draft in `slot` under `id`.
    /// Returns whether the draft was still built; if it was not, nothing
    /// changes.
    pub fn record_broadcast(&mut self, slot: Slot, id: TxId) -> (recorded: bool)
        ensures
            recorded == (old(self)@.state(slot) == DraftState::Built),
            final(self)@ == old(self)@.broadcast(slot, id@),
            final(self)@.consistent(),
    {
        proof {
            use_type_invariant(&*self);
        }
        match slot {
            Slot::First => match self.first {
                DraftState::Built => {
                    *self = PackageTracker {
                        topology: self.topology,
                        first: DraftState::Broadcast,
                        second: self.second,
                        first_id: Some(id),
                        second_id: self.second_id,
                    };
                    true
                },
                _ => false,
            },
            Slot::Second => match self.second {
                DraftState::Built => {
                    *self = PackageTracker {
                        topology: self.topology,
                        first: self.first,
                        second: DraftState::Broadcast,
                        first_id: self.first_id,
                        second_id: Some(id),
                    };
                    true
                },
                _ => false,
            },
        }
    }

    /// Takes in a snapshot: the identifiers in the pending set and those
    /// found in blocks. Each draft moves by one step of its state machine.
    ///
    /// Returns the package's outcome after the step, as a failure when it is
    /// `PartiallyConfirmed`; the states are updated either way.
    pub fn observe(&mut self, pending: &Vec<TxId>, confirmed: &Vec<TxId>) -> (outcome: Result<
        PackageOutcome,
        TrackerError,
    >)
        ensures
            final(self)@ == old(self)@.observed(pending@, confirmed@),
            final(self)@.consistent(),
            ({
                let after = outcome_of(
                    final(self)@.topology,
                    final(self)@.first,
                    final(self)@.second,
                );
                if after == PackageOutcome::PartiallyConfirmed {
                    outcome == Err::<PackageOutcome, TrackerError>(TrackerError::InvariantViolation)
                } else {
                    outcome == Ok::<PackageOutcome, TrackerError>(after)
                }
            }),
    {
        proof {
            use_type_invariant(&*self);
        }
        let seen_first = match self.first_id {
            Some(id) => Sighting {
                pending: contains_id(pending, &id),
                confirmed: contains_id(confirmed, &id),
            },
            None => Sighting { pending: false, confirmed: false },
        };
        let seen_second = match self.second_id {
            Some(id) => Sighting {
                pending: contains_id(pending, &id),
                confirmed: contains_id(confirmed, &id),
            },
            None => Sighting { pending: false, confirmed: false },
        };
        let first_confirmed = match self.first {
            DraftState::Confirmed => true,
            other => state_is_live(other) && seen_first.confirmed,
        };
        let second_confirmed = match self.second {
            DraftState::Confirmed => true,
            other => state_is_live(other) && seen_second.confirmed,
        };
        let first = advance(self.topology, Slot::First, self.first, seen_first, second_confirmed);
        let second = advance(
            self.topology,
            Slot::Second,
            self.second,
            seen_second,
            first_confirmed,
        );
        *self = PackageTracker {
            topology: self.topology,
            first,
            second,
            first_id: self.first_id,
            second_id: self.second_id,
        };
        match classify(self.topology, first, second) {
            PackageOutcome::PartiallyConfirmed => Err(TrackerError::InvariantViolation),
            outcome => Ok(outcome),
        }
    }

    /// The package's outcome as the states stand.
    pub fn outcome(&self) -> (outcome: PackageOutcome)
        ensures
            outcome == outcome_of(self@.topology, self@.first, self@.second),
    {
        classify(self.topology, self.first, self.second)
    }

    /// Whether the package did what it was built for.
    pub fn succeeded(&self) -> (ok: bool)
        ensures
            ok == success(self@.topology, self@.first, self@.second),
            ok ==> self@.first != DraftState::Built && self@.second != DraftState::Built,
    {
        states_succeed(self.topology, self.first, self.second)
    }
}

/// A package never counts as succeeded while one of its drafts is still
/// built and not yet broadcast.
pub proof fn lemma_no_success_while_built(topology: Topology, first: DraftState, second: DraftState)
    requires
        first == DraftState::Built || second == DraftState::Built,
    ensures
        !success(topology, first, second),
{
}

/// A snapshot never moves a draft that is built, superseded or confirmed.
pub proof fn lemma_settled_states_stay(
    topology: Topology,
    slot: Slot,
    state: DraftState,
    seen: Sighting,
    sibling_confirmed: bool,
)
    requires
        !is_live(state),
    ensures
        next_state(topology, slot, state, seen, sibling_confirmed) == state,
{
}

/// Only a draft of a replacement pair can become superseded.
pub proof fn lemma_superseded_only_in_replacement(
    topology: Topology,
    slot: Slot,
    state: DraftState,
    seen: Sighting,
    sibling_confirmed: bool,
)
    requires
        state != DraftState::Superseded,
        next_state(topology, slot, state, seen, sibling_confirmed) == DraftState::Superseded,
    ensures
        topology == Topology::Replacement,
        is_live(state),
        !seen.confirmed,
{
}

/// A snapshot keeps the tracker consistent and leaves it without success as
/// long as a draft has not been broadcast.
pub proof fn lemma_observed_keeps_built(model: TrackerModel, pending: Seq<TxId>, confirmed: Seq<TxId>)
    requires
        model.consistent(),
    ensures
        model.observed(pending, confirmed).consistent(),
        model.first == DraftState::Built ==> model.observed(pending, confirmed).first
            == DraftState::Built,
        model.second == DraftState::Built ==> model.observed(pending, confirmed).second
            == DraftState::Built,
        model.first == DraftState::Built || model.second == DraftState::Built ==> !success(
            model.topology,
            model.observed(pending, confirmed).first,
            model.observed(pending, confirmed).second,
        ),
{
}

} // verus!
