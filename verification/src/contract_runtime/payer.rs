//! Who pays for a transaction that invokes a contract directly.

use crate::contract_runtime::protocol::EntryPointResult;
use crate::contract_runtime::types::Transaction;
use crate::identity::EntityAddr;
use vstd::prelude::*;

verus! {

/// Why something could not be read from global state.
#[derive(Clone, Debug, PartialEq, Eq)]
pub enum StateResultError {
    /// Global state has no such root.
    RootNotFound,
    /// There is no such value.
    ValueNotFound(String),
    /// Any other reason.
    Failure(String),
}

/// What is said where the transaction invokes no contract by hash.
pub open spec fn spec_no_direct_address() -> Seq<char> {
    "contract direct address not found"@
}

/// The reason given where the transaction invokes no contract by hash: a text that reads
/// [`spec_no_direct_address`].
pub open spec fn spec_no_direct_address_reason() -> String {
    choose|reason: String| reason@ == spec_no_direct_address()
}

/// Whether the contract that `transaction` invokes pays for the invocation, given what was
/// read of the entry point invoked: `Ok` of the contract where it pays, `Ok(None)` where the
/// initiator pays, and an error where that could not be found out. Where the transaction
/// invokes no contract by hash there is no value to find, whatever was read.
pub open spec fn spec_invoked_contract_will_pay(
    transaction: Transaction,
    entry_point: EntryPointResult,
) -> Result<Option<EntityAddr>, StateResultError> {
    match transaction.contract_by_hash {
        None => Err(StateResultError::ValueNotFound(spec_no_direct_address_reason())),
        Some(contract) => match entry_point {
            EntryPointResult::RootNotFound => Err(StateResultError::RootNotFound),
            EntryPointResult::ValueNotFound(reason) => Err(StateResultError::ValueNotFound(reason)),
            EntryPointResult::Failure(reason) => Err(StateResultError::Failure(reason)),
            EntryPointResult::Success { will_pay_direct_invocation } => {
                if will_pay_direct_invocation {
                    Ok(Some(EntityAddr::SmartContract(contract)))
                } else {
                    Ok(None)
                }
            },
        },
    }
}

/// Whether the contract that `transaction` invokes pays for the invocation, given what was
/// read of the entry point invoked.
///
/// A transaction that invokes no contract by hash has no entry point to read: the value is
/// not found, with [`spec_no_direct_address`] as the reason, whatever `entry_point` holds.
pub fn invoked_contract_will_pay(transaction: &Transaction, entry_point: EntryPointResult) -> (r:
    Result<Option<EntityAddr>, StateResultError>)
    ensures
        transaction.contract_by_hash is Some ==> r == spec_invoked_contract_will_pay(
            *transaction,
            entry_point,
        ),
        transaction.contract_by_hash is None ==> (r matches Err(
            StateResultError::ValueNotFound(reason),
        ) && reason@ == spec_no_direct_address()),
{
    match transaction.contract_by_hash {
        None => Err(
            StateResultError::ValueNotFound("contract direct address not found".to_owned()),
        ),
        Some(contract) => match entry_point {
            EntryPointResult::RootNotFound => Err(StateResultError::RootNotFound),
            EntryPointResult::ValueNotFound(reason) => Err(StateResultError::ValueNotFound(reason)),
            EntryPointResult::Failure(reason) => Err(StateResultError::Failure(reason)),
            EntryPointResult::Success { will_pay_direct_invocation } => {
                if will_pay_direct_invocation {
                    Ok(Some(EntityAddr::SmartContract(contract)))
                } else {
                    Ok(None)
                }
            },
        },
    }
}

} // verus!
