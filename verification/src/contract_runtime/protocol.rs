//! What the engine asks of global state and of the virtual machine, and what it is answered.

use crate::contract_runtime::config::Ratio;
use crate::contract_runtime::error::{ArtifactError, Operation};
use crate::contract_runtime::types::{
    BalanceIdentifier, Effects, EraValidators, Message, TransformView,
};
use crate::identity::{InitiatorAddr, PublicKey};
use crate::primitives::{Digest, EraId, Gas, Motes};
use vstd::prelude::*;

verus! {

/// What is to be done about the refund purse or the refund.
#[derive(Clone, Copy, Debug, PartialEq, Eq)]
pub enum HandleRefundMode {
    /// The refund purse is set to `target`.
    SetRefundPurse { target: BalanceIdentifier },
    /// The refund purse is cleared.
    ClearRefundPurse,
    /// The charge is held against the refund purse.
    CustomHold { initiator: InitiatorAddr, limit: Gas, gas_price: u8, cost: Motes },
    /// The refundable part is burned.
    Burn {
        limit: Gas,
        gas_price: u8,
        cost: Motes,
        consumed: Gas,
        source: BalanceIdentifier,
        ratio: Ratio,
    },
    /// The refundable part stays with the purse that paid.
    RefundAmount {
        limit: Gas,
        gas_price: u8,
        consumed: Gas,
        cost: Motes,
        ratio: Ratio,
        source: BalanceIdentifier,
    },
    /// The refundable part is moved from `source` to `target`.
    Refund {
        initiator: InitiatorAddr,
        limit: Gas,
        gas_price: u8,
        consumed: Gas,
        cost: Motes,
        ratio: Ratio,
        source: BalanceIdentifier,
        target: BalanceIdentifier,
    },
}

/// What is to be done about the fee.
#[derive(Clone, Copy, Debug, PartialEq, Eq)]
pub enum HandleFeeMode {
    /// The amount is credited to the validator when the era's rewards are distributed.
    Credit { validator: PublicKey, amount: Motes, era_id: EraId },
    /// The amount is burned from `source`.
    Burn { source: BalanceIdentifier, amount: Option<Motes> },
    /// The amount is moved from `source` to `target`.
    Pay {
        initiator: InitiatorAddr,
        source: BalanceIdentifier,
        target: BalanceIdentifier,
        amount: Motes,
    },
}

/// What is to be done about the holds on a purse.
#[derive(Clone, Copy, Debug, PartialEq, Eq, Structural)]
pub enum HoldAction {
    /// A processing hold of `amount` is placed; where the balance is less, what there is is held.
    Processing { amount: Motes },
    /// A gas hold of `amount` is placed; where the balance is less, what there is is held.
    Gas { amount: Motes },
    /// The holds of every kind are cleared.
    ClearAll,
}

/// The next thing to be done for the engine. Each request carries the state root it is to be
/// run against; a transaction is named by its place in the block.
#[derive(Clone, Copy, Debug, PartialEq, Eq)]
pub enum Request {
    /// Write the block time into global state. Commits by itself.
    BlockGlobal { state_root: Digest, block_time: u64 },
    /// Handle the refund purse or the refund of a transaction.
    HandleRefund { state_root: Digest, transaction: usize, mode: HandleRefundMode },
    /// Read the balance of a purse.
    Balance { state_root: Digest, identifier: BalanceIdentifier },
    /// Read the entry point that a transaction invokes on the contract `contract`.
    EntryPoint { state_root: Digest, transaction: usize, contract: [u8; 32] },
    /// Run the payment logic of a transaction with the gas limit `gas_limit`, telling it the
    /// `amount` it should pay.
    CustomPayment { state_root: Digest, transaction: usize, gas_limit: Gas, amount: Motes },
    /// Move the penalty `amount` from `source` to `target` for a transaction.
    PenaltyTransfer {
        state_root: Digest,
        transaction: usize,
        source: BalanceIdentifier,
        target: BalanceIdentifier,
        amount: Motes,
    },
    /// Make the native transfer of a transaction.
    Transfer { state_root: Digest, transaction: usize },
    /// Make the native auction operation of a transaction.
    Bidding { state_root: Digest, transaction: usize },
    /// Run the session of a transaction in the virtual machine with the gas limit `gas_limit`.
    Session { state_root: Digest, transaction: usize, gas_limit: Gas },
    /// Place or clear holds on a purse.
    BalanceHold { state_root: Digest, identifier: BalanceIdentifier, action: HoldAction },
    /// Handle the fee of a transaction.
    HandleFee { state_root: Digest, transaction: usize, mode: HandleFeeMode },
    /// Commit the effects that the engine holds ready.
    Commit { state_root: Digest },
    /// Distribute the accumulated fees. Commits by itself.
    DistributeFees { state_root: Digest, block_time: u64 },
    /// Distribute the rewards of the block. Commits by itself.
    DistributeRewards { state_root: Digest, block_time: u64 },
    /// Undelegate what exceeds the delegation limits. Commits by itself.
    ForcedUndelegate { state_root: Digest, block_time: u64 },
    /// Run the auction's step, evicting the validators that the engine holds ready and slashing
    /// none. Commits by itself.
    Step { state_root: Digest, next_era_id: EraId, era_end_timestamp_millis: u64 },
    /// Read the validators of the eras to come.
    EraValidators { state_root: Digest },
    /// Prune the eras that the engine holds ready.
    Prune { state_root: Digest },
    /// Write the working state to the durable store.
    WriteScratchToDb { state_root: Digest },
    /// Flush the durable store.
    Flush,
    /// Read the checksum registry with the proof that it is in global state.
    ChecksumRegistryProof { state_root: Digest },
}

/// The answer to an operation that changes the state root by itself.
#[derive(Clone, Debug, PartialEq, Eq)]
pub enum RootUpdate {
    RootNotFound,
    Failure(String),
    Success { post_state_hash: Digest },
}

/// The answer to an operation that reports effects.
#[derive(Clone, Debug, PartialEq, Eq)]
pub enum EffectsResult {
    RootNotFound,
    Failure(String),
    Success { effects: Effects },
}

/// The answer to handling the refund purse or the refund.
#[derive(Clone, Debug, PartialEq, Eq)]
pub enum HandleRefundResult {
    RootNotFound,
    Failure(String),
    Success { effects: Effects, amount: Option<Motes> },
}

/// The answer to reading a balance.
#[derive(Clone, Debug, PartialEq, Eq)]
pub enum BalanceResult {
    RootNotFound,
    Failure(String),
    Success { total_balance: Motes, available_balance: Motes },
}

/// The answer to reading an entry point.
#[derive(Clone, Debug, PartialEq, Eq)]
pub enum EntryPointResult {
    RootNotFound,
    ValueNotFound(String),
    Failure(String),
    Success { will_pay_direct_invocation: bool },
}

/// Why a run in the virtual machine failed.
#[derive(Clone, Debug, PartialEq, Eq)]
pub enum WasmError {
    /// Global state has no such root.
    RootNotFound,
    /// Any other reason.
    Other(String),
}

/// What a run in the virtual machine reported.
#[derive(Clone, Debug, PartialEq, Eq)]
pub struct WasmResult {
    pub effects: Effects,
    pub messages: Vec<Message>,
    pub consumed: Gas,
    pub error: Option<WasmError>,
}

/// The answer to running payment logic.
#[derive(Clone, Debug, PartialEq, Eq)]
pub enum PaymentResponse {
    /// The amount could not be handed to the payment logic.
    ArgumentRejected(String),
    /// No request could be made of the transaction.
    InvalidRequest(String),
    /// The payment logic ran.
    Ran(WasmResult),
}

/// The answer to running a session.
#[derive(Clone, Debug, PartialEq, Eq)]
pub enum SessionResponse {
    /// No request could be made of the transaction.
    InvalidRequest(String),
    /// The session ran.
    Ran(WasmResult),
}

/// The answer to a native auction operation.
#[derive(Clone, Debug, PartialEq, Eq)]
pub enum BiddingResponse {
    /// The auction method could not be determined from the transaction.
    InvalidMethod(String),
    /// The operation was tried.
    Ran(EffectsResult),
}

/// The answer to the auction's step.
#[derive(Clone, Debug, PartialEq, Eq)]
pub enum StepResult {
    RootNotFound,
    Failure(String),
    Success { effects: Effects, post_state_hash: Digest },
}

/// The answer to reading the validators of the eras to come.
#[derive(Clone, Debug, PartialEq, Eq)]
pub enum EraValidatorsResult {
    RootNotFound,
    AuctionNotFound,
    ValueNotFound(String),
    Failure(String),
    Success { era_validators: EraValidators },
}

/// The answer to pruning.
#[derive(Clone, Debug, PartialEq, Eq)]
pub enum PruneResult {
    RootNotFound,
    MissingKey,
    Failure(String),
    Success { post_state_hash: Digest },
}

/// The answer to reading the checksum registry with its proof.
#[derive(Clone, Debug, PartialEq, Eq)]
pub enum ProofResult {
    RootNotFound,
    Missing,
    Failure(String),
    Found { proof: Vec<u8> },
}

/// The answer to committing, writing or flushing.
#[derive(Clone, Debug, PartialEq, Eq)]
pub enum StoreResult {
    Failure(String),
    Success { post_state_hash: Digest },
}

/// The answer to a [`Request`].
#[derive(Clone, Debug, PartialEq, Eq)]
pub enum Response {
    BlockGlobal(RootUpdate),
    HandleRefund(HandleRefundResult),
    Balance(BalanceResult),
    EntryPoint(EntryPointResult),
    CustomPayment(PaymentResponse),
    PenaltyTransfer(EffectsResult),
    Transfer(EffectsResult),
    Bidding(BiddingResponse),
    Session(SessionResponse),
    BalanceHold(EffectsResult),
    HandleFee(EffectsResult),
    Commit(StoreResult),
    DistributeFees(RootUpdate),
    DistributeRewards(RootUpdate),
    ForcedUndelegate(RootUpdate),
    Step(StepResult),
    EraValidators(EraValidatorsResult),
    Prune(PruneResult),
    WriteScratchToDb(StoreResult),
    Flush(StoreResult),
    ChecksumRegistryProof(ProofResult),
}

/// What of an operation's answer is recorded in the artifact once its effects are committed.
/// An answer that global state has no such root is never recorded: it ends the execution.
#[derive(Clone, Debug, PartialEq, Eq)]
pub struct Held {
    /// The error of the operation, where it failed.
    pub error: Option<ArtifactError>,
    /// The gas that the operation consumed.
    pub consumed: Gas,
}

impl Held {
    /// Nothing to record.
    pub open spec fn spec_nothing() -> Held {
        Held { error: None, consumed: Gas(0) }
    }

    /// Nothing to record.
    pub fn nothing() -> (held: Held)
        ensures
            held == Held::spec_nothing(),
    {
        Held { error: None, consumed: Gas(0) }
    }
}

impl EffectsResult {
    /// What is recorded of this answer to `operation`, with `consumed` as the gas it used.
    pub open spec fn spec_held(self, operation: Operation, consumed: Gas) -> Held {
        match self {
            EffectsResult::Failure(reason) => Held {
                error: Some(ArtifactError::Failed { operation, reason }),
                consumed,
            },
            _ => Held { error: None, consumed },
        }
    }

    /// The effects that this answer reports: none unless it reports success.
    pub open spec fn spec_effects(self) -> Seq<TransformView> {
        match self {
            EffectsResult::Success { effects } => effects@,
            _ => Seq::empty(),
        }
    }

    /// What is recorded of this answer to `operation`, and the effects it reports.
    pub fn into_held(self, operation: Operation, consumed: Gas) -> (r: (Held, Effects))
        ensures
            r.0 == self.spec_held(operation, consumed),
            r.1@ == self.spec_effects(),
    {
        match self {
            EffectsResult::RootNotFound => (Held { error: None, consumed }, Effects::new()),
            EffectsResult::Failure(reason) => (
                Held { error: Some(ArtifactError::Failed { operation, reason }), consumed },
                Effects::new(),
            ),
            EffectsResult::Success { effects } => (Held { error: None, consumed }, effects),
        }
    }
}

impl HandleRefundResult {
    /// What is recorded of this answer to `operation`.
    pub open spec fn spec_held(self, operation: Operation) -> Held {
        match self {
            HandleRefundResult::Failure(reason) => Held {
                error: Some(ArtifactError::Failed { operation, reason }),
                consumed: Gas(0),
            },
            _ => Held::spec_nothing(),
        }
    }

    /// The effects that this answer reports: none unless it reports success.
    pub open spec fn spec_effects(self) -> Seq<TransformView> {
        match self {
            HandleRefundResult::Success { effects, .. } => effects@,
            _ => Seq::empty(),
        }
    }

    /// The amount refunded: what a successful answer names, else nothing.
    pub open spec fn spec_refund_amount(self) -> Motes {
        match self {
            HandleRefundResult::Success { amount: Some(amount), .. } => amount,
            _ => Motes(0),
        }
    }

    /// What is recorded of this answer to `operation`, the effects it reports and the amount
    /// refunded.
    pub fn into_held(self, operation: Operation) -> (r: (Held, Effects, Motes))
        ensures
            r.0 == self.spec_held(operation),
            r.1@ == self.spec_effects(),
            r.2 == self.spec_refund_amount(),
    {
        match self {
            HandleRefundResult::RootNotFound => (Held::nothing(), Effects::new(), Motes(0)),
            HandleRefundResult::Failure(reason) => (
                Held {
                    error: Some(ArtifactError::Failed { operation, reason }),
                    consumed: Gas(0),
                },
                Effects::new(),
                Motes(0),
            ),
            HandleRefundResult::Success { effects, amount } => {
                let refunded: Motes = match amount {
                    Some(amount) => amount,
                    None => Motes(0),
                };
                (Held::nothing(), effects, refunded)
            },
        }
    }
}

impl BalanceResult {
    /// Whether the balance is known and covers `amount`.
    pub open spec fn spec_is_sufficient(self, amount: Motes) -> bool {
        match self {
            BalanceResult::Success { available_balance, .. } => available_balance.0 >= amount.0,
            _ => false,
        }
    }

    /// Whether the balance is known and covers `amount`.
    pub fn is_sufficient(&self, amount: Motes) -> (r: bool)
        ensures
            r == self.spec_is_sufficient(amount),
    {
        match self {
            BalanceResult::Success { available_balance, .. } => available_balance.0 >= amount.0,
            _ => false,
        }
    }
}

impl WasmResult {
    /// What a run reports that could not be started for `reason`.
    pub fn invalid_executable_item(reason: String) -> (r: WasmResult)
        ensures
            r.effects@ == Seq::<TransformView>::empty(),
            r.messages@ == Seq::<Message>::empty(),
            r.consumed == Gas(0),
            r.error == Some(WasmError::Other(reason)),
    {
        WasmResult {
            effects: Effects::new(),
            messages: Vec::new(),
            consumed: Gas(0),
            error: Some(WasmError::Other(reason)),
        }
    }

    /// What is recorded of a run made for `operation`.
    pub open spec fn spec_held(
        error: Option<WasmError>,
        consumed: Gas,
        operation: Operation,
    ) -> Held {
        match error {
            Some(WasmError::Other(reason)) => Held {
                error: Some(ArtifactError::Failed { operation, reason }),
                consumed,
            },
            _ => Held { error: None, consumed },
        }
    }

    /// What is recorded of this run, made for `operation`, with its effects and messages.
    pub fn into_held(self, operation: Operation) -> (r: (Held, Effects, Vec<Message>))
        ensures
            r.0 == Self::spec_held(self.error, self.consumed, operation),
            r.1 == self.effects,
            r.2 == self.messages,
    {
        let WasmResult { effects, messages, consumed, error } = self;
        let held: Held = match error {
            Some(WasmError::Other(reason)) => Held {
                error: Some(ArtifactError::Failed { operation, reason }),
                consumed,
            },
            _ => Held { error: None, consumed },
        };
        (held, effects, messages)
    }
}

} // verus!
