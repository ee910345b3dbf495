//! Balance checks around a funding-token transfer: the caller reads both balances before and
//! after moving the tokens, and these checks reject tokens that do not move exactly the
//! requested amount (fee-on-transfer, rebasing, hooks).
use vstd::prelude::*;
use crate::errors::EscrowError;
use crate::rules::fits_i128;

verus! {

/// The checks before a transfer: a positive amount the sender can cover.
pub fn check_transfer_before(amount: i128, from_before: i128) -> (r: Result<(), EscrowError>)
    ensures
        r == if amount <= 0 {
            Err::<(), EscrowError>(EscrowError::TransferAmountNotPositive)
        } else if from_before < amount {
            Err::<(), EscrowError>(EscrowError::InsufficientTokenBalanceBeforeTransfer)
        } else {
            Ok::<(), EscrowError>(())
        },
{
    if amount <= 0 {
        return Err(EscrowError::TransferAmountNotPositive);
    }
    if from_before < amount {
        return Err(EscrowError::InsufficientTokenBalanceBeforeTransfer);
    }
    Ok(())
}

/// The checks after a transfer: the sender's balance fell and the recipient's rose by
/// exactly `amount`.
pub fn check_transfer_after(amount: i128, from_before: i128, to_before: i128, from_after: i128, to_after: i128) -> (r: Result<(), EscrowError>)
    ensures
        r == if !fits_i128(from_before - amount) {
            Err::<(), EscrowError>(EscrowError::SenderBalanceUnderflow)
        } else if !fits_i128(to_before + amount) {
            Err::<(), EscrowError>(EscrowError::RecipientBalanceUnderflow)
        } else if from_after != from_before - amount {
            Err::<(), EscrowError>(EscrowError::SenderBalanceDeltaMismatch)
        } else if to_after != to_before + amount {
            Err::<(), EscrowError>(EscrowError::RecipientBalanceDeltaMismatch)
        } else {
            Ok::<(), EscrowError>(())
        },
        r is Ok ==> from_after == from_before - amount && to_after == to_before + amount,
{
    let expected_from = match from_before.checked_sub(amount) {
        Some(v) => v,
        None => {
            return Err(EscrowError::SenderBalanceUnderflow);
        },
    };
    let expected_to = match to_before.checked_add(amount) {
        Some(v) => v,
        None => {
            return Err(EscrowError::RecipientBalanceUnderflow);
        },
    };
    if from_after != expected_from {
        return Err(EscrowError::SenderBalanceDeltaMismatch);
    }
    if to_after != expected_to {
        return Err(EscrowError::RecipientBalanceDeltaMismatch);
    }
    Ok(())
}

} // verus!
