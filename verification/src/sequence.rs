//! The reserved input-sequence encodings.

use vstd::prelude::*;

verus! {

/// The sequence value of an input that can never be replaced.
pub const SEQUENCE_FINAL: u32 = 0xffff_ffff;

/// The sequence value of an input that opts in to replacement.
pub const SEQUENCE_REPLACEABLE: u32 = 0xffff_fffd;

/// The sequence value of an input that is spendable at once without
/// advertising replaceability.
pub const SEQUENCE_NON_FINAL: u32 = 0xffff_fffe;

/// What the author of a draft intends for one of its inputs.
#[derive(Clone, Copy, Debug, PartialEq, Eq, Structural)]
pub enum SequenceIntent {
    /// No conflicting transaction may ever take the input's place.
    Final,
    /// The input may be replaced while it is unconfirmed.
    Replaceable,
    /// Spendable immediately; used by drafts that consume an output which is
    /// not confirmed yet.
    NonFinalSpendable,
}

/// The encoding that stands for `intent`.
pub open spec fn encoding(intent: SequenceIntent) -> u32 {
    match intent {
        SequenceIntent::Final => 0xffff_ffffu32,
        SequenceIntent::Replaceable => (0xffff_ffffu32 - 2) as u32,
        SequenceIntent::NonFinalSpendable => (0xffff_ffffu32 - 1) as u32,
    }
}

/// Maps an intent to its reserved 32-bit sequence value.
pub fn resolve(intent: SequenceIntent) -> (sequence: u32)
    ensures
        sequence == encoding(intent),
{
    match intent {
        SequenceIntent::Final => SEQUENCE_FINAL,
        SequenceIntent::Replaceable => SEQUENCE_REPLACEABLE,
        SequenceIntent::NonFinalSpendable => SEQUENCE_NON_FINAL,
    }
}

/// Distinct intents never share an encoding.
pub proof fn lemma_encoding_injective(a: SequenceIntent, b: SequenceIntent)
    ensures
        encoding(a) == encoding(b) <==> a == b,
{
}

} // verus!
