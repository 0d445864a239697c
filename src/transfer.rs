//! Moving balance between two holders without wrapping.

use vstd::prelude::*;

use crate::errors::TransferError;

verus! {

/// The balances of source and destination after moving `amount`, or why
/// the move is refused.
pub open spec fn transfer_outcome(source: u64, destination: u64, amount: u64) -> Result<(u64, u64), TransferError> {
    if source < amount {
        Err(TransferError::InsufficientBalance)
    } else if destination + amount > u64::MAX {
        Err(TransferError::Overflow)
    } else {
        Ok(((source - amount) as u64, (destination + amount) as u64))
    }
}

/// Moves `amount` from `source` to `destination`. On failure neither
/// balance changes.
pub fn transfer(source: &mut u64, destination: &mut u64, amount: u64) -> (r: Result<(), TransferError>)
    ensures
        match transfer_outcome(*old(source), *old(destination), amount) {
            Ok((s, d)) => r is Ok && *final(source) == s && *final(destination) == d,
            Err(e) => r == Err::<(), TransferError>(e) && *final(source) == *old(source)
                && *final(destination) == *old(destination),
        },
{
    if *source < amount {
        return Err(TransferError::InsufficientBalance);
    }
    match destination.checked_add(amount) {
        Some(d) => {
            *source = *source - amount;
            *destination = d;
            Ok(())
        },
        None => Err(TransferError::Overflow),
    }
}

} // verus!
