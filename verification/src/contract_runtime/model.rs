//! The engine as a state machine: what it holds between two requests, and what it does with
//! each answer.
//!
//! The machine is stated here over sequences; [`super::operations::BlockExecutor`] is the
//! engine that runs, and each of its steps is this machine's step.

use crate::bytesrepr::Error;
use crate::contract_runtime::artifact::{artifact_views, ArtifactView, Settlement};
use crate::contract_runtime::checksum::{
    spec_approvals_checksum, spec_checksum_registry_effects, spec_execution_results_checksum,
};
use crate::contract_runtime::config::{
    ChainConfig, FeeHandling, AUCTION_LANE_ID, MAX_PAYMENT_AMOUNT, MINT_LANE_ID,
};
use crate::contract_runtime::era_end::spec_weights_of;
use crate::contract_runtime::error::{ArtifactError, BlockExecutionError, Operation};
use crate::contract_runtime::gas::{spec_gas_cost, spec_gas_limit};
use crate::contract_runtime::payer::{spec_invoked_contract_will_pay, StateResultError};
use crate::contract_runtime::protocol::{
    BalanceResult, BiddingResponse, EffectsResult, EntryPointResult, EraValidatorsResult,
    HandleRefundMode, HandleRefundResult, Held, HoldAction, PaymentResponse, ProofResult,
    PruneResult, Request, Response, RootUpdate, SessionResponse, StepResult, StoreResult,
    WasmError, WasmResult,
};
use crate::contract_runtime::prune::spec_prune_eras;
use crate::contract_runtime::settlement::{
    spec_fee_mode, spec_fee_payer, spec_refund_mode, Charge,
};
use crate::contract_runtime::types::{
    BalanceIdentifier, BlockAndExecutionArtifacts, Effects, EraEnd, ExecutableBlock,
    ExecutionPreState, Message, StepOutcome, Transaction, TransformView,
};
use crate::identity::{spec_account_hash, PublicKey};
use crate::primitives::{BlockHash, Digest, Gas, Motes};
use vstd::prelude::*;

verus! {

/// What is done once effects are committed.
#[derive(Clone, Copy, Debug, PartialEq, Eq, Structural)]
pub enum Resume {
    /// The refund purse was set: the initiator's balance is read.
    SetRefundPurse,
    /// The payment logic ran: the payer's balance is read.
    CustomPayment,
    /// The processing hold was placed: the transaction is executed.
    ProcessingHold,
    /// The transaction was executed: the holds are cleared.
    Execution,
    /// The holds were cleared: the refund is settled.
    ClearHolds,
    /// The refund was handled: the fee is settled.
    Refund,
    /// The gas hold was placed: the fee is handled.
    GasHold,
    /// The fee was handled: the refund purse is cleared, where it was set.
    Fee,
    /// The refund purse was cleared: the transaction is done.
    ClearRefundPurse,
    /// The checksums were written: fees and rewards are distributed.
    Checksums,
}

/// Which answer the engine waits for.
#[derive(Clone, Copy, Debug, PartialEq, Eq, Structural)]
pub enum Stage {
    BlockGlobal,
    SetRefundPurse,
    InitialBalance,
    EntryPoint,
    CustomPayment,
    PenaltyTransfer,
    PostPaymentBalance,
    ProcessingHold,
    Transfer,
    Bidding,
    Session,
    ClearHolds,
    Refund,
    GasHold,
    Fee,
    ClearRefundPurse,
    Commit(Resume),
    DistributeFees,
    DistributeRewards,
    ForcedUndelegate,
    Step,
    EraValidators,
    Prune,
    WriteScratchToDb,
    Flush,
    ChecksumRegistryProof,
}

impl Stage {
    /// Whether the stage belongs to the processing of one transaction.
    pub open spec fn in_transaction(self) -> bool {
        match self {
            Stage::SetRefundPurse
            | Stage::InitialBalance
            | Stage::EntryPoint
            | Stage::CustomPayment
            | Stage::PenaltyTransfer
            | Stage::PostPaymentBalance
            | Stage::ProcessingHold
            | Stage::Transfer
            | Stage::Bidding
            | Stage::Session
            | Stage::ClearHolds
            | Stage::Refund
            | Stage::GasHold
            | Stage::Fee
            | Stage::ClearRefundPurse => true,
            Stage::Commit(resume) => resume != Resume::Checksums,
            _ => false,
        }
    }
}

/// What the engine holds between two requests.
pub struct ExecutorView {
    pub config: ChainConfig,
    pub block: ExecutableBlock,
    pub pre_state: ExecutionPreState,
    pub key_block_height_for_activation_point: u64,
    pub current_gas_price: u8,
    pub next_era_gas_price: Option<u8>,
    pub last_switch_block_hash: Option<BlockHash>,
    /// Which answer is awaited.
    pub stage: Stage,
    /// The state root that the next request runs against.
    pub state_root: Digest,
    /// The artifacts of the transactions done, in the order of the block.
    pub artifacts: Seq<ArtifactView>,
    /// The place in the block of the transaction in progress.
    pub index: usize,
    /// The artifact of the transaction in progress.
    pub current: ArtifactView,
    /// Who pays for the transaction in progress.
    pub payer: BalanceIdentifier,
    /// What is recorded of the last operation once its effects are committed.
    pub held: Held,
    /// The effects to commit next.
    pub pending: Seq<TransformView>,
    /// The messages that go with the effects to commit next.
    pub pending_messages: Seq<Message>,
    /// What the refund was reported to be.
    pub reported_refund: Motes,
    /// The effects of the step at the end of the era.
    pub step_effects: Option<Effects>,
    /// The outcome of the step at the end of the era.
    pub step_outcome: Option<StepOutcome>,
}

/// What a step of the machine comes to.
pub enum Next {
    /// The engine goes on in the given state and asks for the given request.
    Continue(ExecutorView, Request),
    /// The block cannot be executed.
    Fatal(BlockExecutionError),
    /// The block is executed: the final state, and the proof of the checksum registry.
    Done(ExecutorView, Vec<u8>),
}

/// The penalty payment: what an initiator's balance must cover before anything is run.
pub open spec fn spec_penalty_payment() -> Motes {
    Motes(MAX_PAYMENT_AMOUNT)
}

impl ExecutorView {
    /// The transaction in progress.
    pub open spec fn transaction(self) -> Transaction {
        self.block.transactions@[self.index as int]
    }

    /// The block time, in milliseconds.
    pub open spec fn block_time(self) -> u64 {
        self.block.timestamp.0
    }

    /// The state is one that the machine can be in: the artifacts are those of the transactions
    /// before the one in progress, a transaction is in progress in every stage that belongs to
    /// one, an entry point is read only of a contract that the transaction invokes by hash, and
    /// every cost that was settled was settled in balance.
    pub open spec fn wf(self) -> bool {
        &&& self.index <= self.block.transactions@.len()
        &&& self.artifacts.len() == self.index
        &&& self.stage.in_transaction() ==> self.index < self.block.transactions@.len()
        &&& !self.stage.in_transaction() && self.stage != Stage::BlockGlobal ==> self.index
            == self.block.transactions@.len()
        &&& self.stage == Stage::EntryPoint ==> self.transaction().contract_by_hash is Some
        &&& self.current.conserves()
        &&& forall|i: int| 0 <= i < self.artifacts.len() ==> (#[trigger] self.artifacts[i]).conserves()
    }

    /// The state in which the machine starts, once the guards have passed. Until the first
    /// transaction is started, the artifact in progress is an empty one that stands for no
    /// transaction.
    pub open spec fn initial(
        config: ChainConfig,
        block: ExecutableBlock,
        pre_state: ExecutionPreState,
        key_block_height_for_activation_point: u64,
        current_gas_price: u8,
        next_era_gas_price: Option<u8>,
        last_switch_block_hash: Option<BlockHash>,
    ) -> ExecutorView {
        ExecutorView {
            config,
            block,
            pre_state,
            key_block_height_for_activation_point,
            current_gas_price,
            next_era_gas_price,
            last_switch_block_hash,
            stage: Stage::BlockGlobal,
            state_root: pre_state.pre_state_root_hash,
            artifacts: Seq::empty(),
            index: 0,
            current: ArtifactView::new(
                crate::primitives::TransactionHash(pre_state.pre_state_root_hash),
                crate::identity::InitiatorAddr::PublicKey(PublicKey::System),
            ),
            payer: BalanceIdentifier::Payment,
            held: Held::spec_nothing(),
            pending: Seq::empty(),
            pending_messages: Seq::empty(),
            reported_refund: Motes(0),
            step_effects: None,
            step_outcome: None,
        }
    }

    /// The machine awaiting the answer `stage`, asking `request`.
    pub open spec fn ask(self, stage: Stage, request: Request) -> Next {
        Next::Continue(ExecutorView { stage, ..self }, request)
    }

    /// The machine with an operation's answer put by, asking for its effects to be committed.
    pub open spec fn commit(
        self,
        resume: Resume,
        held: Held,
        effects: Seq<TransformView>,
        messages: Seq<Message>,
    ) -> Next {
        Next::Continue(
            ExecutorView {
                stage: Stage::Commit(resume),
                held,
                pending: effects,
                pending_messages: messages,
                ..self
            },
            Request::Commit { state_root: self.state_root },
        )
    }

    /// The block time was written.
    pub open spec fn on_block_global(self, result: RootUpdate) -> Next {
        match result {
            RootUpdate::RootNotFound => Next::Fatal(
                BlockExecutionError::RootNotFound(self.state_root),
            ),
            RootUpdate::Failure(reason) => Next::Fatal(BlockExecutionError::BlockGlobal(reason)),
            RootUpdate::Success { post_state_hash } => (ExecutorView {
                state_root: post_state_hash,
                ..self
            }).start_transaction(),
        }
    }

    /// The transaction in progress is done with `artifact`; the next one is started.
    pub open spec fn finish_transaction(self, artifact: ArtifactView) -> Next
        decreases self.block.transactions@.len() - self.index, 0nat,
    {
        if self.index < self.block.transactions@.len() && self.index < usize::MAX {
            (ExecutorView {
                artifacts: self.artifacts.push(artifact),
                index: (self.index + 1) as usize,
                current: ArtifactView::new(artifact.transaction_hash, artifact.initiator),
                ..self
            }).start_transaction()
        } else {
            Next::Fatal(BlockExecutionError::UnexpectedResponse)
        }
    }

    /// Starts the transaction at `index`, or goes on to what follows the transactions where
    /// there is none left. A transaction without a gas limit or a cost is invalid: its artifact
    /// says so and the next one is started, with nothing asked of global state.
    pub open spec fn start_transaction(self) -> Next
        decreases self.block.transactions@.len() - self.index, 1nat,
    {
        if self.index >= self.block.transactions@.len() {
            self.finish_transactions()
        } else {
            let transaction = self.transaction();
            let fresh = ArtifactView::new(transaction.hash, transaction.initiator);
            match transaction.conversion_error {
                Some(reason) => Next::Fatal(BlockExecutionError::TransactionConversion(reason)),
                None => match spec_gas_limit(transaction, self.config) {
                    Err(invalid) => self.finish_transaction(
                        fresh.with_error(ArtifactError::InvalidTransaction(invalid)),
                    ),
                    Ok(limit) => match spec_gas_cost(limit, self.current_gas_price) {
                        Err(invalid) => self.finish_transaction(
                            fresh.with_gas_limit(limit).with_error(
                                ArtifactError::InvalidTransaction(invalid),
                            ),
                        ),
                        Ok(cost) => {
                            let started = ExecutorView {
                                current: fresh.with_gas_limit(limit).with_added_cost(cost),
                                payer: BalanceIdentifier::spec_from_initiator(
                                    transaction.initiator,
                                ),
                                reported_refund: Motes(0),
                                ..self
                            };
                            if !transaction.standard_payment {
                                started.ask(
                                    Stage::SetRefundPurse,
                                    Request::HandleRefund {
                                        state_root: self.state_root,
                                        transaction: self.index,
                                        mode: HandleRefundMode::SetRefundPurse {
                                            target: BalanceIdentifier::spec_from_initiator(
                                                transaction.initiator,
                                            ),
                                        },
                                    },
                                )
                            } else {
                                started.request_initial_balance()
                            }
                        },
                    },
                },
            }
        }
    }

    /// The refund purse was set, or not.
    pub open spec fn on_set_refund_purse(self, result: HandleRefundResult) -> Next {
        match result {
            HandleRefundResult::RootNotFound => Next::Fatal(
                BlockExecutionError::RootNotFound(self.state_root),
            ),
            HandleRefundResult::Failure(reason) => self.finish_transaction(
                self.current.with_error(
                    ArtifactError::Failed { operation: Operation::SetRefundPurse, reason },
                ),
            ),
            HandleRefundResult::Success { effects, .. } => self.commit(
                Resume::SetRefundPurse,
                Held::spec_nothing(),
                effects@,
                Seq::empty(),
            ),
        }
    }

    /// Asks for the balance of the initiator.
    pub open spec fn request_initial_balance(self) -> Next {
        self.ask(
            Stage::InitialBalance,
            Request::Balance {
                state_root: self.state_root,
                identifier: BalanceIdentifier::spec_from_initiator(self.transaction().initiator),
            },
        )
    }

    /// The balance of the initiator was read. Where it does not cover the penalty payment, the
    /// transaction is done, with that as its error.
    pub open spec fn on_initial_balance(self, result: BalanceResult) -> Next {
        match result {
            BalanceResult::RootNotFound => Next::Fatal(
                BlockExecutionError::RootNotFound(self.state_root),
            ),
            BalanceResult::Failure(reason) => self.finish_transaction(
                self.current.with_error(
                    ArtifactError::Failed { operation: Operation::InitialBalance, reason },
                ),
            ),
            BalanceResult::Success { available_balance, .. } => {
                if available_balance.0 < spec_penalty_payment().0 {
                    self.finish_transaction(
                        self.current.with_error(
                            ArtifactError::InsufficientBalance {
                                available: available_balance,
                                required: spec_penalty_payment(),
                            },
                        ),
                    )
                } else {
                    self.resolve_payer()
                }
            },
        }
    }

    /// The gas limit of payment logic.
    pub open spec fn custom_payment_gas_limit(self) -> Gas {
        Gas((self.config.native_transfer_minimum_motes * 5) as u128)
    }

    /// Finds out who pays. With standard payment it is the initiator, unless the transaction
    /// invokes a contract by hash while entities are addressable: then the contract's entry
    /// point is read. With custom payment the payment logic is run.
    pub open spec fn resolve_payer(self) -> Next {
        let transaction = self.transaction();
        if transaction.standard_payment {
            match transaction.contract_by_hash {
                Some(contract) if self.config.enable_addressable_entity => self.ask(
                    Stage::EntryPoint,
                    Request::EntryPoint {
                        state_root: self.state_root,
                        transaction: self.index,
                        contract,
                    },
                ),
                _ => (ExecutorView {
                    payer: BalanceIdentifier::spec_from_initiator(transaction.initiator),
                    ..self
                }).request_post_payment_balance(),
            }
        } else {
            self.ask(
                Stage::CustomPayment,
                Request::CustomPayment {
                    state_root: self.state_root,
                    transaction: self.index,
                    gas_limit: self.custom_payment_gas_limit(),
                    amount: self.current.cost,
                },
            )
        }
    }

    /// The entry point was read. A contract that pays for itself is the payer; one that does
    /// not leaves the initiator to pay; where the entry point could not be read, the initiator
    /// is penalized.
    pub open spec fn on_entry_point(self, result: EntryPointResult) -> Next {
        let transaction = self.transaction();
        match spec_invoked_contract_will_pay(transaction, result) {
            Err(StateResultError::RootNotFound) => Next::Fatal(
                BlockExecutionError::RootNotFound(self.state_root),
            ),
            Err(StateResultError::ValueNotFound(reason)) => self.penalize_account(reason),
            Err(StateResultError::Failure(reason)) => self.penalize_account(reason),
            Ok(Some(entity)) => (ExecutorView {
                payer: BalanceIdentifier::Entity(entity),
                ..self
            }).request_post_payment_balance(),
            Ok(None) => (ExecutorView {
                payer: BalanceIdentifier::spec_from_initiator(transaction.initiator),
                ..self
            }).request_post_payment_balance(),
        }
    }

    /// The payer could not be resolved for `reason`: the initiator's account is penalized.
    pub open spec fn penalize_account(self, reason: String) -> Next {
        (ExecutorView {
            current: self.current.with_error(
                ArtifactError::Failed { operation: Operation::PayerResolution, reason },
            ),
            payer: BalanceIdentifier::PenalizedAccount(
                spec_account_hash(self.transaction().initiator),
            ),
            ..self
        }).request_post_payment_balance()
    }

    /// The payment logic ran, or could not be run.
    pub open spec fn on_custom_payment(self, response: PaymentResponse) -> Next {
        match response {
            PaymentResponse::ArgumentRejected(reason) => Next::Fatal(
                BlockExecutionError::PaymentError(reason),
            ),
            PaymentResponse::InvalidRequest(reason) => self.after_payment(
                Some(WasmError::Other(reason)),
                Gas(0),
                Seq::empty(),
                Seq::empty(),
            ),
            PaymentResponse::Ran(result) => self.after_payment(
                result.error,
                result.consumed,
                result.effects@,
                result.messages@,
            ),
        }
    }

    /// What follows a run of the payment logic. After a failure the penalty payment is moved
    /// from the initiator to the payment purse, before the effects of the run are committed.
    pub open spec fn after_payment(
        self,
        error: Option<WasmError>,
        consumed: Gas,
        effects: Seq<TransformView>,
        messages: Seq<Message>,
    ) -> Next {
        let held = WasmResult::spec_held(error, consumed, Operation::Payment);
        if error == Some(WasmError::RootNotFound) {
            Next::Fatal(BlockExecutionError::RootNotFound(self.state_root))
        } else if error is Some {
            Next::Continue(
                ExecutorView {
                    stage: Stage::PenaltyTransfer,
                    held,
                    pending: effects,
                    pending_messages: messages,
                    ..self
                },
                Request::PenaltyTransfer {
                    state_root: self.state_root,
                    transaction: self.index,
                    source: BalanceIdentifier::Account(
                        spec_account_hash(self.transaction().initiator),
                    ),
                    target: BalanceIdentifier::Payment,
                    amount: spec_penalty_payment(),
                },
            )
        } else {
            (ExecutorView { payer: BalanceIdentifier::Payment, ..self }).commit(
                Resume::CustomPayment,
                held,
                effects,
                messages,
            )
        }
    }

    /// The penalty was moved, or not. Its effects are recorded, and not committed.
    pub open spec fn on_penalty_transfer(self, result: EffectsResult) -> Next {
        match result {
            EffectsResult::RootNotFound => Next::Fatal(
                BlockExecutionError::RootNotFound(self.state_root),
            ),
            _ => Next::Continue(
                ExecutorView {
                    stage: Stage::Commit(Resume::CustomPayment),
                    current: self.current.with_error_if_any(
                        result.spec_held(Operation::PenaltyTransfer, Gas(0)).error,
                    ).with_effects(result.spec_effects()),
                    payer: BalanceIdentifier::PenalizedPayment,
                    ..self
                },
                Request::Commit { state_root: self.state_root },
            ),
        }
    }

    /// Asks for the balance of the payer.
    pub open spec fn request_post_payment_balance(self) -> Next {
        self.ask(
            Stage::PostPaymentBalance,
            Request::Balance { state_root: self.state_root, identifier: self.payer },
        )
    }

    /// Whether the transaction in progress is executed: the payer is not penalized, its balance
    /// covers the cost, and the lane is supported.
    pub open spec fn allows_execution(self, balance: BalanceResult) -> bool {
        &&& !self.payer.spec_is_penalty()
        &&& balance.spec_is_sufficient(self.current.cost)
        &&& self.config.spec_is_supported(self.transaction().lane_id)
    }

    /// The balance of the payer was read. A transaction that is executed and pays in the
    /// standard way has the cost held on the payer's purse first. One that is not executed goes
    /// on to the clearing of holds.
    pub open spec fn on_post_payment_balance(self, balance: BalanceResult) -> Next {
        if balance is RootNotFound {
            Next::Fatal(BlockExecutionError::RootNotFound(self.state_root))
        } else if self.allows_execution(balance) {
            if self.transaction().standard_payment {
                self.ask(
                    Stage::ProcessingHold,
                    Request::BalanceHold {
                        state_root: self.state_root,
                        identifier: self.payer,
                        action: HoldAction::Processing { amount: self.current.cost },
                    },
                )
            } else {
                self.dispatch()
            }
        } else {
            self.request_clear_holds()
        }
    }

    /// The processing hold was placed, or not.
    pub open spec fn on_processing_hold(self, result: EffectsResult) -> Next {
        match result {
            EffectsResult::RootNotFound => Next::Fatal(
                BlockExecutionError::RootNotFound(self.state_root),
            ),
            _ => self.commit(
                Resume::ProcessingHold,
                result.spec_held(Operation::ProcessingHold, Gas(0)),
                result.spec_effects(),
                Seq::empty(),
            ),
        }
    }

    /// Hands the transaction to its lane.
    pub open spec fn dispatch(self) -> Next {
        let lane = self.transaction().lane_id;
        if lane == MINT_LANE_ID {
            self.ask(
                Stage::Transfer,
                Request::Transfer { state_root: self.state_root, transaction: self.index },
            )
        } else if lane == AUCTION_LANE_ID {
            self.ask(
                Stage::Bidding,
                Request::Bidding { state_root: self.state_root, transaction: self.index },
            )
        } else {
            self.ask(
                Stage::Session,
                Request::Session {
                    state_root: self.state_root,
                    transaction: self.index,
                    gas_limit: self.current.gas_limit,
                },
            )
        }
    }

    /// The native transfer was made, or not. It consumes the whole gas limit.
    pub open spec fn on_transfer(self, result: EffectsResult) -> Next {
        match result {
            EffectsResult::RootNotFound => Next::Fatal(
                BlockExecutionError::RootNotFound(self.state_root),
            ),
            _ => self.commit(
                Resume::Execution,
                result.spec_held(Operation::Transfer, self.current.gas_limit),
                result.spec_effects(),
                Seq::empty(),
            ),
        }
    }

    /// The auction operation was made, or not. It consumes the whole gas limit, unless the
    /// auction method could not be read from the transaction: then nothing was run.
    pub open spec fn on_bidding(self, response: BiddingResponse) -> Next {
        match response {
            BiddingResponse::InvalidMethod(reason) => (ExecutorView {
                current: self.current.with_error(
                    ArtifactError::Failed { operation: Operation::AuctionMethod, reason },
                ),
                ..self
            }).request_clear_holds(),
            BiddingResponse::Ran(EffectsResult::RootNotFound) => Next::Fatal(
                BlockExecutionError::RootNotFound(self.state_root),
            ),
            BiddingResponse::Ran(result) => self.commit(
                Resume::Execution,
                result.spec_held(Operation::Bidding, self.current.gas_limit),
                result.spec_effects(),
                Seq::empty(),
            ),
        }
    }

    /// The session ran, or could not be run. It consumes what the virtual machine reports.
    pub open spec fn on_session(self, response: SessionResponse) -> Next {
        match response {
            SessionResponse::InvalidRequest(reason) => (ExecutorView {
                current: self.current.with_error(
                    ArtifactError::Failed { operation: Operation::SessionRequest, reason },
                ),
                ..self
            }).request_clear_holds(),
            SessionResponse::Ran(result) => {
                if result.error == Some(WasmError::RootNotFound) {
                    Next::Fatal(BlockExecutionError::RootNotFound(self.state_root))
                } else {
                    self.commit(
                        Resume::Execution,
                        WasmResult::spec_held(result.error, result.consumed, Operation::Execution),
                        result.effects@,
                        result.messages@,
                    )
                }
            },
        }
    }

    /// Asks for the holds of every kind on the payer's purse to be cleared.
    pub open spec fn request_clear_holds(self) -> Next {
        self.ask(
            Stage::ClearHolds,
            Request::BalanceHold {
                state_root: self.state_root,
                identifier: self.payer,
                action: HoldAction::ClearAll,
            },
        )
    }

    /// The holds were cleared, or not.
    pub open spec fn on_clear_holds(self, result: EffectsResult) -> Next {
        match result {
            EffectsResult::RootNotFound => Next::Fatal(
                BlockExecutionError::RootNotFound(self.state_root),
            ),
            _ => self.commit(
                Resume::ClearHolds,
                result.spec_held(Operation::ClearHolds, Gas(0)),
                result.spec_effects(),
                Seq::empty(),
            ),
        }
    }

    /// What the transaction in progress hands to the settlement of its cost.
    pub open spec fn charge(self) -> Charge {
        Charge {
            initiator: self.transaction().initiator,
            standard_payment: self.transaction().standard_payment,
            gas_limit: self.current.gas_limit,
            gas_price: self.current_gas_price,
            cost: self.current.cost,
            consumed: self.current.consumed,
        }
    }

    /// Settles the refund: asks for it to be handled, where the configuration has it handled.
    pub open spec fn settle_refund(self) -> Next {
        let mode = spec_refund_mode(
            self.config.refund_handling,
            self.config.fee_handling,
            self.charge(),
            self.payer,
        );
        let settled = ExecutorView {
            payer: spec_fee_payer(
                self.config.refund_handling,
                self.config.fee_handling,
                self.transaction().standard_payment,
                self.payer,
            ),
            reported_refund: Motes(0),
            ..self
        };
        match mode {
            Some(mode) => settled.ask(
                Stage::Refund,
                Request::HandleRefund {
                    state_root: self.state_root,
                    transaction: self.index,
                    mode,
                },
            ),
            None => settled.settle_fee(),
        }
    }

    /// The refund was handled, or not.
    pub open spec fn on_refund(self, result: HandleRefundResult) -> Next {
        match result {
            HandleRefundResult::RootNotFound => Next::Fatal(
                BlockExecutionError::RootNotFound(self.state_root),
            ),
            _ => (ExecutorView { reported_refund: result.spec_refund_amount(), ..self }).commit(
                Resume::Refund,
                result.spec_held(Operation::Refund),
                result.spec_effects(),
                Seq::empty(),
            ),
        }
    }

    /// The fee of the transaction in progress: the cost less the refund.
    pub open spec fn fee(self) -> Motes {
        Settlement::spec_of(self.current.cost, self.reported_refund).fee
    }

    /// Settles the fee. Where no fee is taken, it is held on the payer's purse first.
    pub open spec fn settle_fee(self) -> Next {
        let settled = ExecutorView {
            current: self.current.with_settlement(
                Settlement::spec_of(self.current.cost, self.reported_refund),
            ),
            ..self
        };
        if self.config.fee_handling == FeeHandling::NoFee {
            settled.ask(
                Stage::GasHold,
                Request::BalanceHold {
                    state_root: self.state_root,
                    identifier: self.payer,
                    action: HoldAction::Gas { amount: self.fee() },
                },
            )
        } else {
            settled.request_fee()
        }
    }

    /// The gas hold was placed, or not.
    pub open spec fn on_gas_hold(self, result: EffectsResult) -> Next {
        match result {
            EffectsResult::RootNotFound => Next::Fatal(
                BlockExecutionError::RootNotFound(self.state_root),
            ),
            _ => self.commit(
                Resume::GasHold,
                result.spec_held(Operation::GasHold, Gas(0)),
                result.spec_effects(),
                Seq::empty(),
            ),
        }
    }

    /// Asks for the fee to be handled.
    pub open spec fn request_fee(self) -> Next {
        self.ask(
            Stage::Fee,
            Request::HandleFee {
                state_root: self.state_root,
                transaction: self.index,
                mode: spec_fee_mode(
                    self.config.fee_handling,
                    self.transaction().initiator,
                    self.payer,
                    self.block.proposer,
                    self.block.era_id,
                    self.fee(),
                ),
            },
        )
    }

    /// The fee was handled, or not.
    pub open spec fn on_fee(self, result: EffectsResult) -> Next {
        match result {
            EffectsResult::RootNotFound => Next::Fatal(
                BlockExecutionError::RootNotFound(self.state_root),
            ),
            _ => self.commit(
                Resume::Fee,
                result.spec_held(Operation::Fee, Gas(0)),
                result.spec_effects(),
                Seq::empty(),
            ),
        }
    }

    /// What follows the fee: the refund purse is cleared where payment was custom; else the
    /// transaction is done.
    pub open spec fn after_fee(self) -> Next {
        if !self.transaction().standard_payment {
            self.ask(
                Stage::ClearRefundPurse,
                Request::HandleRefund {
                    state_root: self.state_root,
                    transaction: self.index,
                    mode: HandleRefundMode::ClearRefundPurse,
                },
            )
        } else {
            self.finish_transaction(self.current)
        }
    }

    /// The refund purse was cleared, or not; a failure is recorded and the transaction goes on.
    pub open spec fn on_clear_refund_purse(self, result: HandleRefundResult) -> Next {
        match result {
            HandleRefundResult::RootNotFound => Next::Fatal(
                BlockExecutionError::RootNotFound(self.state_root),
            ),
            _ => self.commit(
                Resume::ClearRefundPurse,
                result.spec_held(Operation::ClearRefundPurse),
                result.spec_effects(),
                Seq::empty(),
            ),
        }
    }

    /// Effects were committed, or not. The root moves on, except after the checksums; what was
    /// put by of the operation is recorded in the artifact, and the machine goes on where it
    /// left off.
    pub open spec fn on_commit(self, resume: Resume, result: StoreResult) -> Next {
        match result {
            StoreResult::Failure(reason) => Next::Fatal(BlockExecutionError::Lmdb(reason)),
            StoreResult::Success { post_state_hash } => {
                if resume == Resume::Checksums {
                    (ExecutorView { pending: Seq::empty(), ..self }).distribute()
                } else {
                    (ExecutorView {
                        state_root: post_state_hash,
                        current: self.current.record(
                            self.held,
                            self.pending,
                            self.pending_messages,
                        ),
                        held: Held::spec_nothing(),
                        pending: Seq::empty(),
                        pending_messages: Seq::empty(),
                        ..self
                    }).resume(resume)
                }
            },
        }
    }

    /// Goes on where the machine left off to commit.
    pub open spec fn resume(self, resume: Resume) -> Next {
        match resume {
            Resume::SetRefundPurse => self.request_initial_balance(),
            Resume::CustomPayment => self.request_post_payment_balance(),
            Resume::ProcessingHold => self.dispatch(),
            Resume::Execution => self.request_clear_holds(),
            Resume::ClearHolds => self.settle_refund(),
            Resume::Refund => self.settle_fee(),
            Resume::GasHold => self.request_fee(),
            Resume::Fee => self.after_fee(),
            Resume::ClearRefundPurse => self.finish_transaction(self.current),
            Resume::Checksums => self.distribute(),
        }
    }

    /// What follows the transactions: the checksums over the approvals and over the execution
    /// results are computed and written into the checksum registry. Transactions or results too
    /// many to count are fatal.
    pub open spec fn finish_transactions(self) -> Next {
        if self.block.transactions@.len() > u32::MAX || self.artifacts.len() > u32::MAX {
            Next::Fatal(
                BlockExecutionError::FailedToComputeApprovalsChecksum(Error::NotRepresentable),
            )
        } else {
            Next::Continue(
                ExecutorView {
                    stage: Stage::Commit(Resume::Checksums),
                    held: Held::spec_nothing(),
                    pending: spec_checksum_registry_effects(
                        spec_approvals_checksum(self.block.transactions@),
                        spec_execution_results_checksum(self.artifacts),
                    ),
                    pending_messages: Seq::empty(),
                    ..self
                },
                Request::Commit { state_root: self.state_root },
            )
        }
    }

    /// Distributes fees and rewards, where the block has rewards.
    pub open spec fn distribute(self) -> Next {
        if self.block.rewards is Some {
            self.ask(
                Stage::DistributeFees,
                Request::DistributeFees {
                    state_root: self.state_root,
                    block_time: self.block_time(),
                },
            )
        } else {
            self.end_era()
        }
    }

    /// The fees were distributed, or not.
    pub open spec fn on_distribute_fees(self, result: RootUpdate) -> Next {
        match result {
            RootUpdate::RootNotFound => Next::Fatal(
                BlockExecutionError::RootNotFound(self.state_root),
            ),
            RootUpdate::Failure(reason) => Next::Fatal(BlockExecutionError::DistributeFees(reason)),
            RootUpdate::Success { post_state_hash } => (ExecutorView {
                state_root: post_state_hash,
                ..self
            }).ask(
                Stage::DistributeRewards,
                Request::DistributeRewards {
                    state_root: post_state_hash,
                    block_time: self.block_time(),
                },
            ),
        }
    }

    /// The rewards were distributed, or not.
    pub open spec fn on_distribute_rewards(self, result: RootUpdate) -> Next {
        match result {
            RootUpdate::RootNotFound => Next::Fatal(
                BlockExecutionError::RootNotFound(self.state_root),
            ),
            RootUpdate::Failure(reason) => Next::Fatal(
                BlockExecutionError::DistributeBlockRewards(reason),
            ),
            RootUpdate::Success { post_state_hash } => (ExecutorView {
                state_root: post_state_hash,
                ..self
            }).end_era(),
        }
    }

    /// Ends the era, where the block carries an era report: first what exceeds the delegation
    /// limits is undelegated.
    pub open spec fn end_era(self) -> Next {
        if self.block.era_report is Some {
            self.ask(
                Stage::ForcedUndelegate,
                Request::ForcedUndelegate {
                    state_root: self.state_root,
                    block_time: self.block_time(),
                },
            )
        } else {
            self.prune()
        }
    }

    /// The forced undelegations were made, or not; then the auction's step is run.
    pub open spec fn on_forced_undelegate(self, result: RootUpdate) -> Next {
        match result {
            RootUpdate::RootNotFound => Next::Fatal(
                BlockExecutionError::RootNotFound(self.state_root),
            ),
            RootUpdate::Failure(reason) => Next::Fatal(
                BlockExecutionError::ForcedUndelegate(reason),
            ),
            RootUpdate::Success { post_state_hash } => (ExecutorView {
                state_root: post_state_hash,
                ..self
            }).ask(
                Stage::Step,
                Request::Step {
                    state_root: post_state_hash,
                    next_era_id: self.block.era_id.spec_successor(),
                    era_end_timestamp_millis: self.block_time(),
                },
            ),
        }
    }

    /// The step was run, or not; then the validators of the eras to come are read.
    pub open spec fn on_step(self, result: StepResult) -> Next {
        match result {
            StepResult::RootNotFound => Next::Fatal(
                BlockExecutionError::RootNotFound(self.state_root),
            ),
            StepResult::Failure(reason) => Next::Fatal(BlockExecutionError::Step(reason)),
            StepResult::Success { effects, post_state_hash } => (ExecutorView {
                state_root: post_state_hash,
                step_effects: Some(effects),
                ..self
            }).ask(Stage::EraValidators, Request::EraValidators { state_root: post_state_hash }),
        }
    }

    /// The validators of the eras to come were read, or not.
    pub open spec fn on_era_validators(self, result: EraValidatorsResult) -> Next {
        match result {
            EraValidatorsResult::RootNotFound => Next::Fatal(
                BlockExecutionError::RootNotFound(self.state_root),
            ),
            EraValidatorsResult::AuctionNotFound => Next::Fatal(
                BlockExecutionError::AuctionNotFound,
            ),
            EraValidatorsResult::ValueNotFound(reason) => Next::Fatal(
                BlockExecutionError::ValidatorSnapshotNotFound(reason),
            ),
            EraValidatorsResult::Failure(reason) => Next::Fatal(
                BlockExecutionError::GetEraValidators(reason),
            ),
            EraValidatorsResult::Success { era_validators } => match self.step_effects {
                Some(step_effects) => (ExecutorView {
                    step_effects: None,
                    step_outcome: Some(
                        StepOutcome { upcoming_era_validators: era_validators, step_effects },
                    ),
                    ..self
                }).prune(),
                None => Next::Fatal(BlockExecutionError::UnexpectedResponse),
            },
        }
    }

    /// The eras to prune after this block, where there are any: none after the first two
    /// blocks of the chain.
    pub open spec fn prune_eras(self) -> Option<Seq<u64>> {
        if self.block.height == 0 {
            None
        } else {
            spec_prune_eras(
                self.config.activation_point_era_id,
                self.key_block_height_for_activation_point,
                (self.block.height - 1) as u64,
                self.config.prune_batch_size,
            )
        }
    }

    /// The validators to evict at the end of the era: the inactive ones, then the equivocators.
    pub open spec fn evict_items(self) -> Seq<PublicKey> {
        match self.block.era_report {
            Some(report) => crate::contract_runtime::era_end::spec_evict_items(report),
            None => Seq::empty(),
        }
    }

    /// Prunes, where there is anything to prune; else the state is written.
    pub open spec fn prune(self) -> Next {
        if self.prune_eras() is Some {
            self.ask(Stage::Prune, Request::Prune { state_root: self.state_root })
        } else {
            self.write()
        }
    }

    /// The eras were pruned, or not. A missing key is no failure.
    pub open spec fn on_prune(self, result: PruneResult) -> Next {
        match result {
            PruneResult::RootNotFound => Next::Fatal(
                BlockExecutionError::RootNotFound(self.state_root),
            ),
            PruneResult::MissingKey => self.write(),
            PruneResult::Failure(reason) => Next::Fatal(BlockExecutionError::Prune(reason)),
            PruneResult::Success { post_state_hash } => (ExecutorView {
                state_root: post_state_hash,
                ..self
            }).write(),
        }
    }

    /// Asks for the working state to be written to the durable store.
    pub open spec fn write(self) -> Next {
        self.ask(
            Stage::WriteScratchToDb,
            Request::WriteScratchToDb { state_root: self.state_root },
        )
    }

    /// The state was written, or not; then the store is flushed.
    pub open spec fn on_write(self, result: StoreResult) -> Next {
        match result {
            StoreResult::Failure(reason) => Next::Fatal(BlockExecutionError::Lmdb(reason)),
            StoreResult::Success { post_state_hash } => (ExecutorView {
                state_root: post_state_hash,
                ..self
            }).ask(Stage::Flush, Request::Flush),
        }
    }

    /// The weights of the validators of the next era, where the step gave them.
    pub open spec fn next_era_validator_weights(self) -> Option<Seq<(PublicKey, Motes)>> {
        match self.step_outcome {
            Some(outcome) => spec_weights_of(
                outcome.upcoming_era_validators.eras@,
                self.block.era_id.spec_successor(),
            ),
            None => None,
        }
    }

    /// Whether the data at the end of the era can be put together, or is not called for.
    pub open spec fn era_end_is_whole(self) -> bool {
        let has_weights = self.next_era_validator_weights() is Some && self.next_era_gas_price
            is Some;
        (self.block.era_report is Some) == has_weights
    }

    /// The store was flushed, or not. The data at the end of the era must be whole; then the
    /// checksum registry is read with its proof.
    pub open spec fn on_flush(self, result: StoreResult) -> Next {
        match result {
            StoreResult::Failure(reason) => Next::Fatal(BlockExecutionError::Lmdb(reason)),
            StoreResult::Success { .. } => {
                if self.era_end_is_whole() {
                    self.ask(
                        Stage::ChecksumRegistryProof,
                        Request::ChecksumRegistryProof { state_root: self.state_root },
                    )
                } else {
                    Next::Fatal(
                        BlockExecutionError::FailedToCreateEraEnd {
                            maybe_era_report: self.block.era_report,
                            has_next_era_validator_weights: self.next_era_validator_weights()
                                is Some && self.next_era_gas_price is Some,
                        },
                    )
                }
            },
        }
    }

    /// The checksum registry was read with its proof, or not.
    pub open spec fn on_proof(self, result: ProofResult) -> Next {
        match result {
            ProofResult::RootNotFound => Next::Fatal(
                BlockExecutionError::RootNotFound(self.state_root),
            ),
            ProofResult::Missing => Next::Fatal(BlockExecutionError::MissingChecksumRegistry),
            ProofResult::Failure(reason) => Next::Fatal(BlockExecutionError::TrackingCopy(reason)),
            ProofResult::Found { proof } => Next::Done(self, proof),
        }
    }

    /// The rewards of the block, or none.
    pub open spec fn rewards_entries(self) -> Seq<(PublicKey, Vec<Motes>)> {
        match self.block.rewards {
            Some(rewards) => rewards.entries@,
            None => Seq::empty(),
        }
    }

    /// Whether `era_end` is the data at the end of the era that this state calls for: the
    /// report of the block, the weights of the next era's validators, the rewards of the block
    /// and the gas price of the next era, where all of them are there; else nothing.
    pub open spec fn era_end_is(self, era_end: Option<EraEnd>) -> bool {
        match (self.block.era_report, self.next_era_validator_weights(), self.next_era_gas_price) {
            (Some(report), Some(weights), Some(price)) => {
                &&& era_end matches Some(data)
                &&& data.equivocators == report.equivocators
                &&& data.inactive_validators == report.inactive_validators
                &&& data.next_era_validator_weights.entries@ == weights
                &&& data.rewards.entries@ == self.rewards_entries()
                &&& data.next_era_gas_price == price
            },
            _ => era_end is None,
        }
    }

    /// Whether `output` is what the engine hands back from this final state, with `proof` as
    /// the proof of the checksum registry.
    pub open spec fn assembles(self, output: BlockAndExecutionArtifacts, proof: Vec<u8>) -> bool {
        &&& output.block.sealed()
        &&& output.block.parent_hash == self.pre_state.parent_hash
        &&& output.block.parent_seed == self.pre_state.parent_seed
        &&& output.block.state_root_hash == self.state_root
        &&& output.block.random_bit == self.block.random_bit
        &&& self.era_end_is(output.block.era_end)
        &&& output.block.timestamp == self.block.timestamp
        &&& output.block.era_id == self.block.era_id
        &&& output.block.height == self.block.height
        &&& output.block.protocol_version == self.config.protocol_version
        &&& output.block.proposer == self.block.proposer
        &&& output.block.transaction_map == self.block.transaction_map
        &&& output.block.rewarded_signatures == self.block.rewarded_signatures
        &&& output.block.current_gas_price == self.current_gas_price
        &&& output.block.last_switch_block_hash == self.last_switch_block_hash
        &&& output.approvals_hashes.block_hash == output.block.hash
        &&& output.approvals_hashes.approvals_hashes@ == self.block.transactions@.map_values(
            |t: Transaction| t.approvals_hash,
        )
        &&& output.approvals_hashes.proof_of_checksum_registry == proof
        &&& artifact_views(output.execution_artifacts@) == self.artifacts
        &&& output.step_outcome == self.step_outcome
    }

    /// The step of the machine: what it does with `response`, which must answer the request
    /// that was issued last.
    pub open spec fn step(self, response: Response) -> Next {
        match (self.stage, response) {
            (Stage::BlockGlobal, Response::BlockGlobal(r)) => self.on_block_global(r),
            (Stage::SetRefundPurse, Response::HandleRefund(r)) => self.on_set_refund_purse(r),
            (Stage::InitialBalance, Response::Balance(r)) => self.on_initial_balance(r),
            (Stage::EntryPoint, Response::EntryPoint(r)) => self.on_entry_point(r),
            (Stage::CustomPayment, Response::CustomPayment(r)) => self.on_custom_payment(r),
            (Stage::PenaltyTransfer, Response::PenaltyTransfer(r)) => self.on_penalty_transfer(r),
            (Stage::PostPaymentBalance, Response::Balance(r)) => self.on_post_payment_balance(r),
            (Stage::ProcessingHold, Response::BalanceHold(r)) => self.on_processing_hold(r),
            (Stage::Transfer, Response::Transfer(r)) => self.on_transfer(r),
            (Stage::Bidding, Response::Bidding(r)) => self.on_bidding(r),
            (Stage::Session, Response::Session(r)) => self.on_session(r),
            (Stage::ClearHolds, Response::BalanceHold(r)) => self.on_clear_holds(r),
            (Stage::Refund, Response::HandleRefund(r)) => self.on_refund(r),
            (Stage::GasHold, Response::BalanceHold(r)) => self.on_gas_hold(r),
            (Stage::Fee, Response::HandleFee(r)) => self.on_fee(r),
            (Stage::ClearRefundPurse, Response::HandleRefund(r)) => self.on_clear_refund_purse(r),
            (Stage::Commit(resume), Response::Commit(r)) => self.on_commit(resume, r),
            (Stage::DistributeFees, Response::DistributeFees(r)) => self.on_distribute_fees(r),
            (Stage::DistributeRewards, Response::DistributeRewards(r)) => self.on_distribute_rewards(
                r,
            ),
            (Stage::ForcedUndelegate, Response::ForcedUndelegate(r)) => self.on_forced_undelegate(
                r,
            ),
            (Stage::Step, Response::Step(r)) => self.on_step(r),
            (Stage::EraValidators, Response::EraValidators(r)) => self.on_era_validators(r),
            (Stage::Prune, Response::Prune(r)) => self.on_prune(r),
            (Stage::WriteScratchToDb, Response::WriteScratchToDb(r)) => self.on_write(r),
            (Stage::Flush, Response::Flush(r)) => self.on_flush(r),
            (Stage::ChecksumRegistryProof, Response::ChecksumRegistryProof(r)) => self.on_proof(r),
            _ => Next::Fatal(BlockExecutionError::UnexpectedResponse),
        }
    }
}

} // verus!
