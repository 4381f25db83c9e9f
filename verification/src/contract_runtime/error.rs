//! Why a transaction was not executed, and why a block could not be.

use crate::contract_runtime::types::{EraReport, ExecutableBlock, ExecutionPreState};
use crate::primitives::{Digest, EraId, Motes};
use vstd::prelude::*;

verus! {

/// Why a transaction is invalid.
#[derive(Clone, Copy, Debug, PartialEq, Eq, Structural)]
pub enum InvalidTransaction {
    /// The pricing mode is not supported.
    PricingModeNotSupported,
    /// The entry point cannot be `Call` in the auction lane.
    EntryPointCannotBeCall,
    /// The entry point has no native cost in the auction lane.
    NoNativeCost,
    /// The chain has no lane with the transaction's lane id.
    NoLaneMatch,
    /// The cost is not representable.
    UnableToCalculateGasCost,
}

/// The operations of which a failure is recorded in an artifact.
#[derive(Clone, Copy, Debug, PartialEq, Eq, Structural)]
pub enum Operation {
    /// Setting the refund purse before payment logic runs.
    SetRefundPurse,
    /// Reading the initiator's balance.
    InitialBalance,
    /// Finding out whether the invoked contract pays.
    PayerResolution,
    /// Running the payment logic.
    Payment,
    /// Charging the penalty for failed payment logic.
    PenaltyTransfer,
    /// Placing the processing hold.
    ProcessingHold,
    /// The native transfer.
    Transfer,
    /// Reading the auction method from the transaction.
    AuctionMethod,
    /// The native auction operation.
    Bidding,
    /// Making the request to the virtual machine.
    SessionRequest,
    /// Running the session in the virtual machine.
    Execution,
    /// Clearing the holds on the payer's purse.
    ClearHolds,
    /// Handling the refund.
    Refund,
    /// Placing the gas hold.
    GasHold,
    /// Handling the fee.
    Fee,
    /// Clearing the refund purse.
    ClearRefundPurse,
}

/// The error recorded in the artifact of a transaction: the first that its processing met.
#[derive(Clone, Debug, PartialEq, Eq)]
pub enum ArtifactError {
    /// The transaction is invalid.
    InvalidTransaction(InvalidTransaction),
    /// The initiator's balance does not cover the penalty payment.
    InsufficientBalance { available: Motes, required: Motes },
    /// An operation failed, for the reason its provider gave.
    Failed { operation: Operation, reason: String },
}

/// Why a block could not be executed. Nothing of the block is to be taken as applied.
#[derive(Clone, Debug, PartialEq, Eq)]
pub enum BlockExecutionError {
    /// The block's height is not the one the pre-state expects; holds the block and the
    /// pre-state.
    WrongBlockHeight { executable_block: ExecutableBlock, execution_pre_state: ExecutionPreState },
    /// The block ends an era, and no gas price for the next era was supplied.
    FailedToGetNewEraGasPrice { era_id: EraId },
    /// The chain configuration and the state provider disagree on addressable entities; holds
    /// the provider's setting.
    InvalidAESetting(bool),
    /// Global state has no such root.
    RootNotFound(Digest),
    /// The block time could not be written.
    BlockGlobal(String),
    /// A transaction could not be read in the form the engine works on.
    TransactionConversion(String),
    /// The amount could not be handed to the payment logic.
    PaymentError(String),
    /// Effects could not be committed, or the state could not be written or flushed.
    Lmdb(String),
    /// A checksum could not be computed: the approvals or the execution results are too many
    /// to count.
    FailedToComputeApprovalsChecksum(crate::bytesrepr::Error),
    /// The fees could not be distributed.
    DistributeFees(String),
    /// The rewards could not be distributed.
    DistributeBlockRewards(String),
    /// The forced undelegations failed.
    ForcedUndelegate(String),
    /// The step at the end of the era failed.
    Step(String),
    /// The auction was not found when reading the validators.
    AuctionNotFound,
    /// The snapshot of validators was not found.
    ValidatorSnapshotNotFound(String),
    /// The validators of the coming eras could not be read.
    GetEraValidators(String),
    /// Pruning failed.
    Prune(String),
    /// The era-end data could not be put together: the report and the weights of the next era's
    /// validators, with the gas price of the next era, must both be there, or neither. Holds the
    /// report, where there is one, and whether the weights with the gas price are there.
    FailedToCreateEraEnd {
        maybe_era_report: Option<EraReport>,
        has_next_era_validator_weights: bool,
    },
    /// The checksum registry is not in global state.
    MissingChecksumRegistry,
    /// The proof of the checksum registry could not be read.
    TrackingCopy(String),
    /// A response was given that does not answer the request that was issued.
    UnexpectedResponse,
}

} // verus!
