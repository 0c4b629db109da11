//! Typed failures reported by the builders and the tracker.

use vstd::prelude::*;

verus! {

/// Why a package could not be built.
#[derive(Clone, Copy, Debug, PartialEq, Eq, Structural)]
pub enum BuildError {
    /// A fee equals or exceeds the value it is drawn from.
    InsufficientFunds,
    /// The number of fees does not match the number of drafts in the package.
    InvalidTopology,
}

/// A fault surfaced by the tracker.
#[derive(Clone, Copy, Debug, PartialEq, Eq, Structural)]
pub enum TrackerError {
    /// Exactly one draft of a dependent pair was seen confirmed.
    InvariantViolation,
}

} // verus!
