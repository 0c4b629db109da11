//! Fee arithmetic on amounts counted in the ledger's smallest unit.

use vstd::prelude::*;
use crate::error::BuildError;

verus! {

/// What is left of `total` once `fee` is paid out of it: the difference when
/// the fee is strictly smaller, and a failure otherwise.
pub open spec fn remainder_after_fee(total: u64, fee: u64) -> Result<u64, BuildError> {
    if fee < total {
        Ok((total - fee) as u64)
    } else {
        Err(BuildError::InsufficientFunds)
    }
}

/// Takes `fee` out of `total`. A fee that would leave nothing is refused.
pub fn subtract_fee(total: u64, fee: u64) -> (remainder: Result<u64, BuildError>)
    ensures
        remainder == remainder_after_fee(total, fee),
        fee < total ==> remainder == Ok::<u64, BuildError>((total - fee) as u64),
        fee >= total ==> remainder == Err::<u64, BuildError>(BuildError::InsufficientFunds),
{
    if fee < total {
        Ok(total - fee)
    } else {
        Err(BuildError::InsufficientFunds)
    }
}

/// The amount to send when `fee` is set aside from `total`. Amounts are whole
/// units, so the difference needs no rounding.
pub fn split(total: u64, fee: u64) -> (send_amount: Result<u64, BuildError>)
    ensures
        send_amount == remainder_after_fee(total, fee),
{
    subtract_fee(total, fee)
}

} // verus!
