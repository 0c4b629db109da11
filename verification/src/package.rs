//! A package: the two drafts of one topology and how they depend on each
//! other.

use vstd::prelude::*;
use crate::draft::{DraftInput, DraftModel, InputModel, OutputRef, TransactionDraft, TxId};

verus! {

/// The three shapes a package can take.
#[derive(Clone, Copy, Debug, PartialEq, Eq, Structural)]
pub enum Topology {
    /// Two drafts that spend the same output; the second supersedes the
    /// first.
    Replacement,
    /// A parent and a child that spends the parent's first output.
    ParentChild,
    /// A draft with an anchor output and the draft that spends the anchor.
    AnchorSpend,
}

/// The drafts of one package.
#[derive(Clone, Debug, PartialEq, Eq)]
pub enum Package {
    /// `original` and `replacement` spend the same output and conflict.
    Replacement { original: TransactionDraft, replacement: TransactionDraft },
    /// The sole input of `child` is the first output of `parent`.
    ParentChild { parent: TransactionDraft, child: TransactionDraft },
    /// The first input of `spend` is the anchor output of `main`.
    AnchorSpend { main: TransactionDraft, spend: TransactionDraft },
}

/// The mathematical content of a [`Package`]: its shape and its two drafts
/// in the order in which they are to be broadcast.
pub struct PackageModel {
    pub topology: Topology,
    pub first: DraftModel,
    pub second: DraftModel,
}

impl View for Package {
    type V = PackageModel;

    open spec fn view(&self) -> PackageModel {
        match *self {
            Package::Replacement { original, replacement } => PackageModel {
                topology: Topology::Replacement,
                first: original@,
                second: replacement@,
            },
            Package::ParentChild { parent, child } => PackageModel {
                topology: Topology::ParentChild,
                first: parent@,
                second: child@,
            },
            Package::AnchorSpend { main, spend } => PackageModel {
                topology: Topology::AnchorSpend,
                first: main@,
                second: spend@,
            },
        }
    }
}

/// Whether the second draft of a package of this shape spends an output of
/// the first, so that the ledger must know the first before it can accept
/// the second.
pub open spec fn second_spends_first(topology: Topology) -> bool {
    topology != Topology::Replacement
}

/// The second draft of a package as it must be sent once the ledger knows
/// the first under `first_id`: where the second spends an output of the
/// first, its first input names `first_id`; everything else is unchanged.
pub open spec fn second_spending(package: PackageModel, first_id: Seq<u8>) -> DraftModel {
    if second_spends_first(package.topology) && package.second.inputs.len() > 0 {
        DraftModel {
            inputs: package.second.inputs.update(
                0,
                InputModel { txid: first_id, ..package.second.inputs[0] },
            ),
            ..package.second
        }
    } else {
        package.second
    }
}

impl Package {
    /// The package's shape.
    pub fn topology(&self) -> (topology: Topology)
        ensures
            topology == self@.topology,
    {
        match self {
            Package::Replacement { .. } => Topology::Replacement,
            Package::ParentChild { .. } => Topology::ParentChild,
            Package::AnchorSpend { .. } => Topology::AnchorSpend,
        }
    }

    /// The draft to broadcast first: the original, the parent, or the draft
    /// that carries the anchor.
    pub fn first(&self) -> (draft: &TransactionDraft)
        ensures
            draft@ == self@.first,
    {
        match self {
            Package::Replacement { original, .. } => original,
            Package::ParentChild { parent, .. } => parent,
            Package::AnchorSpend { main, .. } => main,
        }
    }

    /// The draft to broadcast second: the replacement, the child, or the
    /// draft that spends the anchor.
    pub fn second(&self) -> (draft: &TransactionDraft)
        ensures
            draft@ == self@.second,
    {
        match self {
            Package::Replacement { replacement, .. } => replacement,
            Package::ParentChild { child, .. } => child,
            Package::AnchorSpend { spend, .. } => spend,
        }
    }

    /// The second draft, made to spend the first as the ledger knows it.
    ///
    /// Signing can change a draft's identifier. Once the first draft has
    /// been accepted under `first_id`, a second draft that spends one of its
    /// outputs has to name that identifier in its first input.
    pub fn second_for(&self, first_id: TxId) -> (draft: TransactionDraft)
        ensures
            draft@ == second_spending(self@, first_id@),
    {
        let mut draft = self.second().duplicate();
        if self.second_depends_on_first() && draft.inputs.len() > 0 {
            let given = draft.inputs[0];
            let ghost before = draft@;
            draft.inputs.set(
                0,
                DraftInput {
                    previous: OutputRef { txid: first_id, index: given.previous.index },
                    sequence: given.sequence,
                },
            );
            assert(draft@.inputs =~= before.inputs.update(
                0,
                InputModel { txid: first_id@, ..before.inputs[0] },
            ));
        }
        draft
    }

    /// Whether the second draft depends on the first: it then must not be
    /// broadcast before the ledger knows the first.
    pub fn second_depends_on_first(&self) -> (depends: bool)
        ensures
            depends == second_spends_first(self@.topology),
    {
        match self {
            Package::Replacement { .. } => false,
            Package::ParentChild { .. } => true,
            Package::AnchorSpend { .. } => true,
        }
    }
}

} // verus!
