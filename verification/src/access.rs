//! Access control: who may call the gated operations.
//!
//! There are two independent roles. The owner configures the contract; the
//! relayer writes arguments. Neither role implies the other.

use vstd::prelude::*;
use crate::address::Address;
use crate::error::ContractError;

verus! {

/// Admits the owner, and nobody else, to an administrative operation.
pub fn ensure_owner(caller: &Address, owner: &Address) -> (r: Result<(), ContractError>)
    ensures
        *caller == *owner ==> r is Ok,
        *caller != *owner ==> r == Err::<(), ContractError>(ContractError::NotOwner),
{
    if *caller == *owner {
        Ok(())
    } else {
        Err(ContractError::NotOwner)
    }
}

/// Admits the relayer, and nobody else, to writing an argument.
pub fn ensure_relayer(caller: &Address, relayer: &Address) -> (r: Result<(), ContractError>)
    ensures
        *caller == *relayer ==> r is Ok,
        *caller != *relayer ==> r == Err::<(), ContractError>(ContractError::NotRelayer),
{
    if *caller == *relayer {
        Ok(())
    } else {
        Err(ContractError::NotRelayer)
    }
}

} // verus!
