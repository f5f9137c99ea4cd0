use vstd::prelude::*;
use crate::error::EscrowError;

verus! {

/// First failing check before a funding-token transfer of `amount` from a
/// sender holding `sender_balance`.
pub open spec fn transfer_precheck_error(amount: i128, sender_balance: i128) -> Option<EscrowError> {
    if amount <= 0 {
        Some(EscrowError::TransferAmountNotPositive)
    } else if sender_balance < amount {
        Some(EscrowError::InsufficientTokenBalanceBeforeTransfer)
    } else {
        None
    }
}

/// First failing conservation check after a transfer of `amount`, from the
/// sender's and recipient's balances read before and after it.
pub open spec fn transfer_delta_error(
    amount: i128,
    sender_before: i128,
    sender_after: i128,
    recipient_before: i128,
    recipient_after: i128,
) -> Option<EscrowError> {
    let spent = sender_before - sender_after;
    let received = recipient_after - recipient_before;
    if spent < i128::MIN || spent > i128::MAX {
        Some(EscrowError::SenderBalanceUnderflow)
    } else if received < i128::MIN || received > i128::MAX {
        Some(EscrowError::RecipientBalanceUnderflow)
    } else if spent != amount {
        Some(EscrowError::SenderBalanceDeltaMismatch)
    } else if received != amount {
        Some(EscrowError::RecipientBalanceDeltaMismatch)
    } else {
        None
    }
}

/// Checks, before moving the funding token, that the amount is positive and
/// covered by the sender's balance.
pub fn check_transfer_precondition(amount: i128, sender_balance: i128) -> (r: Result<(), EscrowError>)
    ensures
        match r {
            Ok(()) => transfer_precheck_error(amount, sender_balance) is None,
            Err(e) => transfer_precheck_error(amount, sender_balance) == Some(e),
        },
{
    if amount <= 0 {
        return Err(EscrowError::TransferAmountNotPositive);
    }
    if sender_balance < amount {
        return Err(EscrowError::InsufficientTokenBalanceBeforeTransfer);
    }
    Ok(())
}

/// Checks, after moving the funding token, that the sender lost and the
/// recipient gained exactly `amount` (fee-on-transfer, rebasing or hooking
/// tokens fail here).
pub fn check_transfer_deltas(
    amount: i128,
    sender_before: i128,
    sender_after: i128,
    recipient_before: i128,
    recipient_after: i128,
) -> (r: Result<(), EscrowError>)
    ensures
        match r {
            Ok(()) => transfer_delta_error(
                amount,
                sender_before,
                sender_after,
                recipient_before,
                recipient_after,
            ) is None && sender_before - sender_after == amount && recipient_after
                - recipient_before == amount,
            Err(e) => transfer_delta_error(
                amount,
                sender_before,
                sender_after,
                recipient_before,
                recipient_after,
            ) == Some(e),
        },
{
    let spent = match sender_before.checked_sub(sender_after) {
        Some(v) => v,
        None => return Err(EscrowError::SenderBalanceUnderflow),
    };
    let received = match recipient_after.checked_sub(recipient_before) {
        Some(v) => v,
        None => return Err(EscrowError::RecipientBalanceUnderflow),
    };
    if spent != amount {
        return Err(EscrowError::SenderBalanceDeltaMismatch);
    }
    if received != amount {
        return Err(EscrowError::RecipientBalanceDeltaMismatch);
    }
    Ok(())
}

} // verus!
