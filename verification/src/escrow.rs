use vstd::prelude::*;

use crate::error::ErrorCode;
use crate::state::Multisig;

verus! {

/// Deposits funds into the group's escrow. Not implemented: the call
/// accepts any amount and records nothing.
#[allow(unused_variables)]
pub fn deposit_lamports(multisig: &Multisig, lamports: u64) -> (r: Result<(), ErrorCode>)
    ensures
        r is Ok,
{
    Ok(())
}

/// Withdraws the group's escrowed funds to its owners. Not implemented:
/// the call records nothing.
#[allow(unused_variables)]
pub fn withdraw_lamports(multisig: &Multisig) -> (r: Result<(), ErrorCode>)
    ensures
        r is Ok,
{
    Ok(())
}

} // verus!
