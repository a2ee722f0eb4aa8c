//! The checks that compare what a taker declares with what the ledger holds.

use crate::error::EscrowError;
use crate::identity::Identity;
use vstd::prelude::*;

verus! {

/// The amounts of an exchange agree: what the taker expects to receive is what
/// the custody account holds, and what the taker offers is what the maker
/// asked for.
pub open spec fn amounts_agree(
    buy_amount: u64,
    custody_balance: u64,
    recorded_buy_amount: u64,
    sell_amount: u64,
) -> bool {
    buy_amount == custody_balance && recorded_buy_amount == sell_amount
}

/// Accepts an exchange whose amounts agree, and refuses any other with
/// `ExpectedAmountMismatch`.
pub fn check_exchange_amounts(
    buy_amount: u64,
    custody_balance: u64,
    recorded_buy_amount: u64,
    sell_amount: u64,
) -> (r: Result<(), EscrowError>)
    ensures
        r is Ok <==> amounts_agree(buy_amount, custody_balance, recorded_buy_amount, sell_amount),
        r is Err ==> r == Err::<(), EscrowError>(EscrowError::ExpectedAmountMismatch),
{
    if buy_amount == custody_balance && recorded_buy_amount == sell_amount {
        Ok(())
    } else {
        Err(EscrowError::ExpectedAmountMismatch)
    }
}

/// Accepts the account that the maker registered for the payment, and refuses
/// any other with `InvalidAccountData`.
pub fn check_receive_target(registered: &Identity, target: &Identity) -> (r: Result<
    (),
    EscrowError,
>)
    ensures
        r is Ok <==> *registered == *target,
        r is Err ==> r == Err::<(), EscrowError>(EscrowError::InvalidAccountData),
{
    if *registered == *target {
        Ok(())
    } else {
        Err(EscrowError::InvalidAccountData)
    }
}

/// Accepts an owner that is the maker of the record, and refuses any other
/// with `InvalidAccountData`.
pub fn check_ownership(authority: &Identity, observed_owner: &Identity) -> (r: Result<
    (),
    EscrowError,
>)
    ensures
        r is Ok <==> *authority == *observed_owner,
        r is Err ==> r == Err::<(), EscrowError>(EscrowError::InvalidAccountData),
{
    if *authority == *observed_owner {
        Ok(())
    } else {
        Err(EscrowError::InvalidAccountData)
    }
}

} // verus!
