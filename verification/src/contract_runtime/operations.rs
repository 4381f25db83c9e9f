//! Executing a finalized block.
//!
//! [`execute_finalized_block`] checks the block against the state it is applied to and hands
//! back the engine with its first request. Each answer is given to
//! [`BlockExecutor::step`], which hands back the engine with its next request, until the block
//! is executed or cannot be.

use crate::contract_runtime::artifact::{artifact_views, ExecutionArtifact, Settlement};
use crate::contract_runtime::block::spec_block_hash;
use crate::contract_runtime::checksum::{
    approvals_hashes, checksum_registry_effects, compute_approvals_checksum,
    compute_execution_results_checksum,
};
use crate::contract_runtime::config::{
    ChainConfig, AUCTION_LANE_ID, MAX_PAYMENT_AMOUNT, MINT_LANE_ID,
};
use crate::contract_runtime::era_end::{commit_step, weights_of, StepRequest};
use crate::contract_runtime::laws::{lemma_step_is_sound, spec_request_root};
use crate::contract_runtime::error::{ArtifactError, BlockExecutionError, Operation};
use crate::contract_runtime::gas::{gas_cost, gas_limit};
use crate::contract_runtime::model::{ExecutorView, Next, Resume, Stage};
use crate::contract_runtime::payer::{invoked_contract_will_pay, StateResultError};
use crate::contract_runtime::protocol::{
    BalanceResult, BiddingResponse, EffectsResult, EntryPointResult, EraValidatorsResult,
    HandleRefundMode, HandleRefundResult, Held, HoldAction, PaymentResponse, ProofResult,
    PruneResult, Request, Response, RootUpdate, SessionResponse, StepResult, StoreResult,
    WasmError, WasmResult,
};
use crate::contract_runtime::prune::calculate_prune_eras;
use crate::contract_runtime::settlement::{fee_mode, refund_mode, Charge};
use crate::contract_runtime::types::{
    ApprovalsHashes, BalanceIdentifier, Block, BlockAndExecutionArtifacts, Effects, EraEnd,
    ExecutableBlock, ExecutionPreState, Message, Rewards, StepOutcome, Transaction,
    ValidatorWeights,
};
use crate::identity::{InitiatorAddr, PublicKey};
use crate::primitives::{BlockHash, Digest, EraId, Gas, Motes, TransactionHash};
use vstd::prelude::*;

verus! {

/// The engine that executes one block.
pub struct BlockExecutor {
    config: ChainConfig,
    block: ExecutableBlock,
    pre_state: ExecutionPreState,
    key_block_height_for_activation_point: u64,
    current_gas_price: u8,
    next_era_gas_price: Option<u8>,
    last_switch_block_hash: Option<BlockHash>,
    stage: Stage,
    state_root: Digest,
    artifacts: Vec<ExecutionArtifact>,
    index: usize,
    current: ExecutionArtifact,
    payer: BalanceIdentifier,
    held: Held,
    pending: Effects,
    pending_messages: Vec<Message>,
    reported_refund: Motes,
    step_effects: Option<Effects>,
    step_outcome: Option<StepOutcome>,
}

impl View for BlockExecutor {
    type V = ExecutorView;

    closed spec fn view(&self) -> ExecutorView {
        ExecutorView {
            config: self.config,
            block: self.block,
            pre_state: self.pre_state,
            key_block_height_for_activation_point: self.key_block_height_for_activation_point,
            current_gas_price: self.current_gas_price,
            next_era_gas_price: self.next_era_gas_price,
            last_switch_block_hash: self.last_switch_block_hash,
            stage: self.stage,
            state_root: self.state_root,
            artifacts: artifact_views(self.artifacts@),
            index: self.index,
            current: self.current@,
            payer: self.payer,
            held: self.held,
            pending: self.pending@,
            pending_messages: self.pending_messages@,
            reported_refund: self.reported_refund,
            step_effects: self.step_effects,
            step_outcome: self.step_outcome,
        }
    }
}

/// What a step of the engine comes to.
pub enum Transition {
    /// The engine goes on: the request is to be performed and its answer given to
    /// [`BlockExecutor::step`].
    Continue(BlockExecutor, Request),
    /// The block cannot be executed.
    Fatal(BlockExecutionError),
    /// The block is executed.
    Done(BlockAndExecutionArtifacts),
}

impl Transition {
    /// Whether this is what `next` says of the machine.
    pub open spec fn refines(self, next: Next) -> bool {
        match next {
            Next::Continue(view, request) => {
                &&& self matches Transition::Continue(engine, asked)
                &&& engine@ == view
                &&& asked == request
            },
            Next::Fatal(error) => self == Transition::Fatal(error),
            Next::Done(view, proof) => {
                &&& self matches Transition::Done(output)
                &&& view.assembles(output, proof)
            },
        }
    }
}

/// What [`execute_finalized_block`] comes to for the given block and state: the error of the
/// first guard that fails, else the machine in its first state with the request to write the
/// block time.
pub open spec fn spec_execute_finalized_block(
    config: ChainConfig,
    provider_addressable_entity: bool,
    pre_state: ExecutionPreState,
    block: ExecutableBlock,
    key_block_height_for_activation_point: u64,
    current_gas_price: u8,
    next_era_gas_price: Option<u8>,
    last_switch_block_hash: Option<BlockHash>,
) -> Next {
    if block.height != pre_state.next_block_height {
        Next::Fatal(
            BlockExecutionError::WrongBlockHeight {
                executable_block: block,
                execution_pre_state: pre_state,
            },
        )
    } else if block.era_report is Some && next_era_gas_price is None {
        Next::Fatal(
            BlockExecutionError::FailedToGetNewEraGasPrice {
                era_id: block.era_id.spec_successor(),
            },
        )
    } else if config.enable_addressable_entity != provider_addressable_entity {
        Next::Fatal(BlockExecutionError::InvalidAESetting(provider_addressable_entity))
    } else {
        Next::Continue(
            ExecutorView::initial(
                config,
                block,
                pre_state,
                key_block_height_for_activation_point,
                current_gas_price,
                next_era_gas_price,
                last_switch_block_hash,
            ),
            Request::BlockGlobal {
                state_root: pre_state.pre_state_root_hash,
                block_time: block.timestamp.0,
            },
        )
    }
}

/// Executes a finalized block: checks it against the state it is applied to, and starts the
/// engine.
///
/// The block is refused before anything is asked of global state where its height is not the
/// one that `pre_state` expects, where it ends an era and no gas price for the next era is
/// given, and where the chain configuration and the state provider disagree on addressable
/// entities, which `provider_addressable_entity` tells of the provider.
pub fn execute_finalized_block(
    config: ChainConfig,
    provider_addressable_entity: bool,
    pre_state: ExecutionPreState,
    block: ExecutableBlock,
    key_block_height_for_activation_point: u64,
    current_gas_price: u8,
    next_era_gas_price: Option<u8>,
    last_switch_block_hash: Option<BlockHash>,
) -> (t: Transition)
    ensures
        t.refines(
            spec_execute_finalized_block(
                config,
                provider_addressable_entity,
                pre_state,
                block,
                key_block_height_for_activation_point,
                current_gas_price,
                next_era_gas_price,
                last_switch_block_hash,
            ),
        ),
        t matches Transition::Continue(engine, _) ==> engine@.wf(),
{
    if block.height != pre_state.next_block_height {
        return Transition::Fatal(
            BlockExecutionError::WrongBlockHeight {
                executable_block: block,
                execution_pre_state: pre_state,
            },
        );
    }
    if block.era_report.is_some() && next_era_gas_price.is_none() {
        return Transition::Fatal(
            BlockExecutionError::FailedToGetNewEraGasPrice { era_id: block.era_id.successor() },
        );
    }
    if config.enable_addressable_entity != provider_addressable_entity {
        return Transition::Fatal(
            BlockExecutionError::InvalidAESetting(provider_addressable_entity),
        );
    }
    let request = Request::BlockGlobal {
        state_root: pre_state.pre_state_root_hash,
        block_time: block.timestamp.0,
    };
    let engine = BlockExecutor {
        config,
        block,
        pre_state,
        key_block_height_for_activation_point,
        current_gas_price,
        next_era_gas_price,
        last_switch_block_hash,
        stage: Stage::BlockGlobal,
        state_root: pre_state.pre_state_root_hash,
        artifacts: Vec::new(),
        index: 0,
        current: ExecutionArtifact::new(
            TransactionHash(pre_state.pre_state_root_hash),
            InitiatorAddr::PublicKey(PublicKey::System),
        ),
        payer: BalanceIdentifier::Payment,
        held: Held::nothing(),
        pending: Effects::new(),
        pending_messages: Vec::new(),
        reported_refund: Motes(0),
        step_effects: None,
        step_outcome: None,
    };
    assert(engine@.artifacts =~= Seq::empty());
    Transition::Continue(engine, request)
}

impl BlockExecutor {
    /// Which answer the engine waits for.
    pub fn stage(&self) -> (stage: Stage)
        ensures
            stage == self@.stage,
    {
        self.stage
    }

    /// The state root that the next request runs against.
    pub fn state_root(&self) -> (root: Digest)
        ensures
            root == self@.state_root,
    {
        self.state_root
    }

    /// The block that is executed.
    pub fn block(&self) -> (block: &ExecutableBlock)
        ensures
            *block == self@.block,
    {
        &self.block
    }

    /// The chain configuration that the block is executed under.
    pub fn config(&self) -> (config: &ChainConfig)
        ensures
            *config == self@.config,
    {
        &self.config
    }

    /// The state that the block is applied to.
    pub fn pre_state(&self) -> (pre_state: &ExecutionPreState)
        ensures
            *pre_state == self@.pre_state,
    {
        &self.pre_state
    }

    /// The artifacts of the transactions done so far, in the order of the block.
    pub fn artifacts(&self) -> (artifacts: &Vec<ExecutionArtifact>)
        ensures
            artifact_views(artifacts@) == self@.artifacts,
    {
        &self.artifacts
    }

    /// The effects that a [`Request::Commit`] is to commit.
    pub fn pending_effects(&self) -> (effects: &Effects)
        ensures
            effects@ == self@.pending,
    {
        &self.pending
    }

    /// What a [`Request::Step`] asks of the auction, where the block ends an era: the
    /// validators that the era report names are evicted, and none is slashed.
    pub fn step_request(&self) -> (request: Option<StepRequest>)
        ensures
            match request {
                Some(request) => {
                    &&& self@.block.era_report is Some
                    &&& request.state_hash == self@.state_root
                    &&& request.protocol_version == self@.config.protocol_version
                    &&& request.slash_items@ == Seq::<PublicKey>::empty()
                    &&& request.evict_items@ == self@.evict_items()
                    &&& request.next_era_id == self@.block.era_id.spec_successor()
                    &&& request.era_end_timestamp_millis == self@.block_time()
                },
                None => self@.block.era_report is None,
            },
    {
        match &self.block.era_report {
            Some(report) => Some(
                commit_step(
                    self.config.protocol_version,
                    self.state_root,
                    report,
                    self.block.timestamp.0,
                    self.block.era_id.successor(),
                ),
            ),
            None => None,
        }
    }

    /// The eras that a [`Request::Prune`] is to prune, where any are.
    pub fn prune_eras(&self) -> (eras: Option<Vec<u64>>)
        ensures
            match eras {
                Some(list) => self@.prune_eras() == Some(list@),
                None => self@.prune_eras() is None,
            },
    {
        if self.block.height == 0 {
            None
        } else {
            calculate_prune_eras(
                self.config.activation_point_era_id,
                self.key_block_height_for_activation_point,
                self.block.height - 1,
                self.config.prune_batch_size,
            )
        }
    }

    fn transaction(&self) -> (transaction: &Transaction)
        requires
            self@.index < self@.block.transactions@.len(),
        ensures
            *transaction == self@.transaction(),
    {
        &self.block.transactions[self.index]
    }

    fn ask(self, stage: Stage, request: Request) -> (t: Transition)
        ensures
            t.refines(self@.ask(stage, request)),
    {
        let mut next = self;
        next.stage = stage;
        Transition::Continue(next, request)
    }

    fn commit(self, resume: Resume, held: Held, effects: Effects, messages: Vec<Message>) -> (t:
        Transition)
        ensures
            t.refines(self@.commit(resume, held, effects@, messages@)),
    {
        let request = Request::Commit { state_root: self.state_root };
        let mut next = self;
        next.stage = Stage::Commit(resume);
        next.held = held;
        next.pending = effects;
        next.pending_messages = messages;
        Transition::Continue(next, request)
    }

    fn on_block_global(self, result: RootUpdate) -> (t: Transition)
        ensures
            t.refines(self@.on_block_global(result)),
    {
        match result {
            RootUpdate::RootNotFound => Transition::Fatal(
                BlockExecutionError::RootNotFound(self.state_root),
            ),
            RootUpdate::Failure(reason) => Transition::Fatal(
                BlockExecutionError::BlockGlobal(reason),
            ),
            RootUpdate::Success { post_state_hash } => {
                let mut next = self;
                next.state_root = post_state_hash;
                next.start_transaction()
            },
        }
    }

    fn finish_transaction(self, artifact: ExecutionArtifact) -> (t: Transition)
        ensures
            t.refines(self@.finish_transaction(artifact@)),
        decreases self@.block.transactions@.len() - self@.index, 0nat,
    {
        if self.index < self.block.transactions.len() {
            let mut next = self;
            next.current = ExecutionArtifact::new(artifact.transaction_hash, artifact.initiator);
            next.artifacts.push(artifact);
            next.index = next.index + 1;
            assert(next@.artifacts =~= self@.artifacts.push(artifact@));
            next.start_transaction()
        } else {
            Transition::Fatal(BlockExecutionError::UnexpectedResponse)
        }
    }

    fn start_transaction(self) -> (t: Transition)
        ensures
            t.refines(self@.start_transaction()),
        decreases self@.block.transactions@.len() - self@.index, 1nat,
    {
        if self.index >= self.block.transactions.len() {
            return self.finish_transactions();
        }
        let transaction: &Transaction = self.transaction();
        let initiator: InitiatorAddr = transaction.initiator;
        let standard_payment: bool = transaction.standard_payment;
        let fresh = ExecutionArtifact::new(transaction.hash, initiator);
        match &transaction.conversion_error {
            Some(reason) => {
                return Transition::Fatal(
                    BlockExecutionError::TransactionConversion(reason.clone()),
                );
            },
            None => {},
        }
        let limit: Gas = match gas_limit(transaction, &self.config) {
            Err(invalid) => {
                return self.finish_transaction(
                    fresh.with_error(ArtifactError::InvalidTransaction(invalid)),
                );
            },
            Ok(limit) => limit,
        };
        let cost: Motes = match gas_cost(limit, self.current_gas_price) {
            Err(invalid) => {
                return self.finish_transaction(
                    fresh.with_gas_limit(limit).with_error(
                        ArtifactError::InvalidTransaction(invalid),
                    ),
                );
            },
            Ok(cost) => cost,
        };
        let state_root: Digest = self.state_root;
        let index: usize = self.index;
        let mut started = self;
        started.current = fresh.with_gas_limit(limit).with_added_cost(cost);
        started.payer = BalanceIdentifier::from_initiator(initiator);
        started.reported_refund = Motes(0);
        if !standard_payment {
            started.ask(
                Stage::SetRefundPurse,
                Request::HandleRefund {
                    state_root,
                    transaction: index,
                    mode: HandleRefundMode::SetRefundPurse {
                        target: BalanceIdentifier::from_initiator(initiator),
                    },
                },
            )
        } else {
            started.request_initial_balance()
        }
    }

    fn on_set_refund_purse(self, result: HandleRefundResult) -> (t: Transition)
        ensures
            t.refines(self@.on_set_refund_purse(result)),
    {
        match result {
            HandleRefundResult::RootNotFound => Transition::Fatal(
                BlockExecutionError::RootNotFound(self.state_root),
            ),
            HandleRefundResult::Failure(reason) => {
                let mut next = self;
                let current = next.current;
                next.current = ExecutionArtifact::new(current.transaction_hash, current.initiator);
                let artifact = current.with_error(
                    ArtifactError::Failed { operation: Operation::SetRefundPurse, reason },
                );
                next.finish_transaction(artifact)
            },
            HandleRefundResult::Success { effects, .. } => self.commit(
                Resume::SetRefundPurse,
                Held::nothing(),
                effects,
                Vec::new(),
            ),
        }
    }

    fn request_initial_balance(self) -> (t: Transition)
        requires
            self@.index < self@.block.transactions@.len(),
        ensures
            t.refines(self@.request_initial_balance()),
    {
        let request = Request::Balance {
            state_root: self.state_root,
            identifier: BalanceIdentifier::from_initiator(self.transaction().initiator),
        };
        self.ask(Stage::InitialBalance, request)
    }

    fn on_initial_balance(self, result: BalanceResult) -> (t: Transition)
        requires
            self@.index < self@.block.transactions@.len(),
        ensures
            t.refines(self@.on_initial_balance(result)),
    {
        match result {
            BalanceResult::RootNotFound => Transition::Fatal(
                BlockExecutionError::RootNotFound(self.state_root),
            ),
            BalanceResult::Failure(reason) => {
                let mut next = self;
                let current = next.current;
                next.current = ExecutionArtifact::new(current.transaction_hash, current.initiator);
                let artifact = current.with_error(
                    ArtifactError::Failed { operation: Operation::InitialBalance, reason },
                );
                next.finish_transaction(artifact)
            },
            BalanceResult::Success { available_balance, .. } => {
                if available_balance.0 < MAX_PAYMENT_AMOUNT {
                    let mut next = self;
                    let current = next.current;
                    next.current = ExecutionArtifact::new(
                        current.transaction_hash,
                        current.initiator,
                    );
                    let artifact = current.with_error(
                        ArtifactError::InsufficientBalance {
                            available: available_balance,
                            required: Motes(MAX_PAYMENT_AMOUNT),
                        },
                    );
                    next.finish_transaction(artifact)
                } else {
                    self.resolve_payer()
                }
            },
        }
    }

    fn resolve_payer(self) -> (t: Transition)
        requires
            self@.index < self@.block.transactions@.len(),
        ensures
            t.refines(self@.resolve_payer()),
    {
        let transaction: &Transaction = self.transaction();
        let initiator: InitiatorAddr = transaction.initiator;
        if transaction.standard_payment {
            match transaction.contract_by_hash {
                Some(contract) if self.config.enable_addressable_entity => {
                    let request = Request::EntryPoint {
                        state_root: self.state_root,
                        transaction: self.index,
                        contract,
                    };
                    self.ask(Stage::EntryPoint, request)
                },
                _ => {
                    let mut next = self;
                    next.payer = BalanceIdentifier::from_initiator(initiator);
                    next.request_post_payment_balance()
                },
            }
        } else {
            let request = Request::CustomPayment {
                state_root: self.state_root,
                transaction: self.index,
                gas_limit: Gas((self.config.native_transfer_minimum_motes as u128) * 5),
                amount: self.current.cost,
            };
            self.ask(Stage::CustomPayment, request)
        }
    }

    fn on_entry_point(self, result: EntryPointResult) -> (t: Transition)
        requires
            self@.index < self@.block.transactions@.len(),
            self@.transaction().contract_by_hash is Some,
        ensures
            t.refines(self@.on_entry_point(result)),
    {
        let initiator: InitiatorAddr = self.transaction().initiator;
        match invoked_contract_will_pay(self.transaction(), result) {
            Err(StateResultError::RootNotFound) => Transition::Fatal(
                BlockExecutionError::RootNotFound(self.state_root),
            ),
            Err(StateResultError::ValueNotFound(reason)) => self.penalize_account(reason),
            Err(StateResultError::Failure(reason)) => self.penalize_account(reason),
            Ok(Some(entity)) => {
                let mut next = self;
                next.payer = BalanceIdentifier::Entity(entity);
                next.request_post_payment_balance()
            },
            Ok(None) => {
                let mut next = self;
                next.payer = BalanceIdentifier::from_initiator(initiator);
                next.request_post_payment_balance()
            },
        }
    }

    fn penalize_account(self, reason: String) -> (t: Transition)
        requires
            self@.index < self@.block.transactions@.len(),
        ensures
            t.refines(self@.penalize_account(reason)),
    {
        let hash = self.transaction().initiator.account_hash();
        let mut next = self;
        let current = next.current;
        next.current = current.with_error(
            ArtifactError::Failed { operation: Operation::PayerResolution, reason },
        );
        next.payer = BalanceIdentifier::PenalizedAccount(hash);
        next.request_post_payment_balance()
    }

    fn on_custom_payment(self, response: PaymentResponse) -> (t: Transition)
        requires
            self@.index < self@.block.transactions@.len(),
        ensures
            t.refines(self@.on_custom_payment(response)),
    {
        match response {
            PaymentResponse::ArgumentRejected(reason) => Transition::Fatal(
                BlockExecutionError::PaymentError(reason),
            ),
            PaymentResponse::InvalidRequest(reason) => self.after_payment(
                WasmResult::invalid_executable_item(reason),
            ),
            PaymentResponse::Ran(result) => self.after_payment(result),
        }
    }

    fn after_payment(self, result: WasmResult) -> (t: Transition)
        requires
            self@.index < self@.block.transactions@.len(),
        ensures
            t.refines(
                self@.after_payment(
                    result.error,
                    result.consumed,
                    result.effects@,
                    result.messages@,
                ),
            ),
    {
        let failed: bool = result.error.is_some();
        match &result.error {
            Some(WasmError::RootNotFound) => {
                return Transition::Fatal(BlockExecutionError::RootNotFound(self.state_root));
            },
            _ => {},
        }
        let (held, effects, messages) = result.into_held(Operation::Payment);
        if failed {
            let request = Request::PenaltyTransfer {
                state_root: self.state_root,
                transaction: self.index,
                source: BalanceIdentifier::Account(self.transaction().initiator.account_hash()),
                target: BalanceIdentifier::Payment,
                amount: Motes(MAX_PAYMENT_AMOUNT),
            };
            let mut next = self;
            next.stage = Stage::PenaltyTransfer;
            next.held = held;
            next.pending = effects;
            next.pending_messages = messages;
            Transition::Continue(next, request)
        } else {
            let mut next = self;
            next.payer = BalanceIdentifier::Payment;
            next.commit(Resume::CustomPayment, held, effects, messages)
        }
    }

    fn on_penalty_transfer(self, result: EffectsResult) -> (t: Transition)
        ensures
            t.refines(self@.on_penalty_transfer(result)),
    {
        match result {
            EffectsResult::RootNotFound => Transition::Fatal(
                BlockExecutionError::RootNotFound(self.state_root),
            ),
            _ => {
                let request = Request::Commit { state_root: self.state_root };
                let (held, effects) = result.into_held(Operation::PenaltyTransfer, Gas(0));
                let mut next = self;
                let current = next.current;
                next.current = current.with_error_if_any(held.error).with_effects(effects);
                next.payer = BalanceIdentifier::PenalizedPayment;
                next.stage = Stage::Commit(Resume::CustomPayment);
                Transition::Continue(next, request)
            },
        }
    }

    fn request_post_payment_balance(self) -> (t: Transition)
        ensures
            t.refines(self@.request_post_payment_balance()),
    {
        let request = Request::Balance { state_root: self.state_root, identifier: self.payer };
        self.ask(Stage::PostPaymentBalance, request)
    }

    fn on_post_payment_balance(self, balance: BalanceResult) -> (t: Transition)
        requires
            self@.index < self@.block.transactions@.len(),
        ensures
            t.refines(self@.on_post_payment_balance(balance)),
    {
        match &balance {
            BalanceResult::RootNotFound => {
                return Transition::Fatal(BlockExecutionError::RootNotFound(self.state_root));
            },
            _ => {},
        }
        let transaction: &Transaction = self.transaction();
        let allowed: bool = !self.payer.is_penalty() && balance.is_sufficient(self.current.cost)
            && self.config.is_supported(transaction.lane_id);
        if allowed {
            if transaction.standard_payment {
                let request = Request::BalanceHold {
                    state_root: self.state_root,
                    identifier: self.payer,
                    action: HoldAction::Processing { amount: self.current.cost },
                };
                self.ask(Stage::ProcessingHold, request)
            } else {
                self.dispatch()
            }
        } else {
            self.request_clear_holds()
        }
    }

    fn on_processing_hold(self, result: EffectsResult) -> (t: Transition)
        ensures
            t.refines(self@.on_processing_hold(result)),
    {
        match &result {
            EffectsResult::RootNotFound => {
                return Transition::Fatal(BlockExecutionError::RootNotFound(self.state_root));
            },
            _ => {},
        }
        let (held, effects) = result.into_held(Operation::ProcessingHold, Gas(0));
        self.commit(Resume::ProcessingHold, held, effects, Vec::new())
    }

    fn dispatch(self) -> (t: Transition)
        requires
            self@.index < self@.block.transactions@.len(),
        ensures
            t.refines(self@.dispatch()),
    {
        let lane: u8 = self.transaction().lane_id;
        let state_root: Digest = self.state_root;
        let transaction: usize = self.index;
        if lane == MINT_LANE_ID {
            self.ask(Stage::Transfer, Request::Transfer { state_root, transaction })
        } else if lane == AUCTION_LANE_ID {
            self.ask(Stage::Bidding, Request::Bidding { state_root, transaction })
        } else {
            let gas_limit: Gas = self.current.gas_limit;
            self.ask(Stage::Session, Request::Session { state_root, transaction, gas_limit })
        }
    }

    fn on_transfer(self, result: EffectsResult) -> (t: Transition)
        ensures
            t.refines(self@.on_transfer(result)),
    {
        match &result {
            EffectsResult::RootNotFound => {
                return Transition::Fatal(BlockExecutionError::RootNotFound(self.state_root));
            },
            _ => {},
        }
        let (held, effects) = result.into_held(Operation::Transfer, self.current.gas_limit);
        self.commit(Resume::Execution, held, effects, Vec::new())
    }

    fn on_bidding(self, response: BiddingResponse) -> (t: Transition)
        ensures
            t.refines(self@.on_bidding(response)),
    {
        match response {
            BiddingResponse::InvalidMethod(reason) => {
                let mut next = self;
                let current = next.current;
                next.current = current.with_error(
                    ArtifactError::Failed { operation: Operation::AuctionMethod, reason },
                );
                next.request_clear_holds()
            },
            BiddingResponse::Ran(result) => {
                match &result {
                    EffectsResult::RootNotFound => {
                        return Transition::Fatal(
                            BlockExecutionError::RootNotFound(self.state_root),
                        );
                    },
                    _ => {},
                }
                let (held, effects) = result.into_held(Operation::Bidding, self.current.gas_limit);
                self.commit(Resume::Execution, held, effects, Vec::new())
            },
        }
    }

    fn on_session(self, response: SessionResponse) -> (t: Transition)
        ensures
            t.refines(self@.on_session(response)),
    {
        match response {
            SessionResponse::InvalidRequest(reason) => {
                let mut next = self;
                let current = next.current;
                next.current = current.with_error(
                    ArtifactError::Failed { operation: Operation::SessionRequest, reason },
                );
                next.request_clear_holds()
            },
            SessionResponse::Ran(result) => {
                match &result.error {
                    Some(WasmError::RootNotFound) => {
                        return Transition::Fatal(
                            BlockExecutionError::RootNotFound(self.state_root),
                        );
                    },
                    _ => {},
                }
                let (held, effects, messages) = result.into_held(Operation::Execution);
                self.commit(Resume::Execution, held, effects, messages)
            },
        }
    }

    fn request_clear_holds(self) -> (t: Transition)
        ensures
            t.refines(self@.request_clear_holds()),
    {
        let request = Request::BalanceHold {
            state_root: self.state_root,
            identifier: self.payer,
            action: HoldAction::ClearAll,
        };
        self.ask(Stage::ClearHolds, request)
    }

    fn on_clear_holds(self, result: EffectsResult) -> (t: Transition)
        ensures
            t.refines(self@.on_clear_holds(result)),
    {
        match &result {
            EffectsResult::RootNotFound => {
                return Transition::Fatal(BlockExecutionError::RootNotFound(self.state_root));
            },
            _ => {},
        }
        let (held, effects) = result.into_held(Operation::ClearHolds, Gas(0));
        self.commit(Resume::ClearHolds, held, effects, Vec::new())
    }

    fn charge(&self) -> (charge: Charge)
        requires
            self@.index < self@.block.transactions@.len(),
        ensures
            charge == self@.charge(),
    {
        let transaction: &Transaction = self.transaction();
        Charge {
            initiator: transaction.initiator,
            standard_payment: transaction.standard_payment,
            gas_limit: self.current.gas_limit,
            gas_price: self.current_gas_price,
            cost: self.current.cost,
            consumed: self.current.consumed,
        }
    }

    fn settle_refund(self) -> (t: Transition)
        requires
            self@.index < self@.block.transactions@.len(),
        ensures
            t.refines(self@.settle_refund()),
    {
        let (mode, fee_payer) = refund_mode(
            self.config.refund_handling,
            self.config.fee_handling,
            self.charge(),
            self.payer,
        );
        let state_root: Digest = self.state_root;
        let transaction: usize = self.index;
        let mut settled = self;
        settled.payer = fee_payer;
        settled.reported_refund = Motes(0);
        match mode {
            Some(mode) => settled.ask(
                Stage::Refund,
                Request::HandleRefund { state_root, transaction, mode },
            ),
            None => settled.settle_fee(),
        }
    }

    fn on_refund(self, result: HandleRefundResult) -> (t: Transition)
        ensures
            t.refines(self@.on_refund(result)),
    {
        match &result {
            HandleRefundResult::RootNotFound => {
                return Transition::Fatal(BlockExecutionError::RootNotFound(self.state_root));
            },
            _ => {},
        }
        let (held, effects, refunded) = result.into_held(Operation::Refund);
        let mut next = self;
        next.reported_refund = refunded;
        next.commit(Resume::Refund, held, effects, Vec::new())
    }

    fn settle_fee(self) -> (t: Transition)
        requires
            self@.index < self@.block.transactions@.len(),
        ensures
            t.refines(self@.settle_fee()),
    {
        let settlement: Settlement = Settlement::of(self.current.cost, self.reported_refund);
        let request = Request::BalanceHold {
            state_root: self.state_root,
            identifier: self.payer,
            action: HoldAction::Gas { amount: settlement.fee },
        };
        let no_fee: bool = self.config.fee_handling.is_no_fee();
        let mut settled = self;
        let current = settled.current;
        settled.current = current.with_settlement(settlement);
        if no_fee {
            settled.ask(Stage::GasHold, request)
        } else {
            settled.request_fee()
        }
    }

    fn on_gas_hold(self, result: EffectsResult) -> (t: Transition)
        ensures
            t.refines(self@.on_gas_hold(result)),
    {
        match &result {
            EffectsResult::RootNotFound => {
                return Transition::Fatal(BlockExecutionError::RootNotFound(self.state_root));
            },
            _ => {},
        }
        let (held, effects) = result.into_held(Operation::GasHold, Gas(0));
        self.commit(Resume::GasHold, held, effects, Vec::new())
    }

    fn request_fee(self) -> (t: Transition)
        requires
            self@.index < self@.block.transactions@.len(),
        ensures
            t.refines(self@.request_fee()),
    {
        let settlement: Settlement = Settlement::of(self.current.cost, self.reported_refund);
        let request = Request::HandleFee {
            state_root: self.state_root,
            transaction: self.index,
            mode: fee_mode(
                self.config.fee_handling,
                self.transaction().initiator,
                self.payer,
                self.block.proposer,
                self.block.era_id,
                settlement.fee,
            ),
        };
        self.ask(Stage::Fee, request)
    }

    fn on_fee(self, result: EffectsResult) -> (t: Transition)
        ensures
            t.refines(self@.on_fee(result)),
    {
        match &result {
            EffectsResult::RootNotFound => {
                return Transition::Fatal(BlockExecutionError::RootNotFound(self.state_root));
            },
            _ => {},
        }
        let (held, effects) = result.into_held(Operation::Fee, Gas(0));
        self.commit(Resume::Fee, held, effects, Vec::new())
    }

    fn after_fee(self) -> (t: Transition)
        requires
            self@.index < self@.block.transactions@.len(),
        ensures
            t.refines(self@.after_fee()),
    {
        if !self.transaction().standard_payment {
            let request = Request::HandleRefund {
                state_root: self.state_root,
                transaction: self.index,
                mode: HandleRefundMode::ClearRefundPurse,
            };
            self.ask(Stage::ClearRefundPurse, request)
        } else {
            self.finish_current()
        }
    }

    fn finish_current(self) -> (t: Transition)
        ensures
            t.refines(self@.finish_transaction(self@.current)),
    {
        let mut next = self;
        let current = next.current;
        next.current = ExecutionArtifact::new(current.transaction_hash, current.initiator);
        next.finish_transaction(current)
    }

    fn on_clear_refund_purse(self, result: HandleRefundResult) -> (t: Transition)
        ensures
            t.refines(self@.on_clear_refund_purse(result)),
    {
        match result {
            HandleRefundResult::RootNotFound => Transition::Fatal(
                BlockExecutionError::RootNotFound(self.state_root),
            ),
            _ => {
                let (held, effects, _) = result.into_held(Operation::ClearRefundPurse);
                self.commit(Resume::ClearRefundPurse, held, effects, Vec::new())
            },
        }
    }

    fn on_commit(self, resume: Resume, result: StoreResult) -> (t: Transition)
        requires
            resume != Resume::Checksums ==> self@.index < self@.block.transactions@.len(),
        ensures
            t.refines(self@.on_commit(resume, result)),
    {
        match result {
            StoreResult::Failure(reason) => Transition::Fatal(BlockExecutionError::Lmdb(reason)),
            StoreResult::Success { post_state_hash } => {
                match resume {
                    Resume::Checksums => {
                        let mut next = self;
                        next.pending = Effects::new();
                        next.distribute()
                    },
                    _ => {
                        let mut next = self;
                        let current = next.current;
                        let held = next.held;
                        let pending = next.pending;
                        let messages = next.pending_messages;
                        next.state_root = post_state_hash;
                        next.current = current.record(held, pending, messages);
                        next.held = Held::nothing();
                        next.pending = Effects::new();
                        next.pending_messages = Vec::new();
                        next.resume(resume)
                    },
                }
            },
        }
    }

    fn resume(self, resume: Resume) -> (t: Transition)
        requires
            resume != Resume::Checksums ==> self@.index < self@.block.transactions@.len(),
        ensures
            t.refines(self@.resume(resume)),
    {
        match resume {
            Resume::SetRefundPurse => self.request_initial_balance(),
            Resume::CustomPayment => self.request_post_payment_balance(),
            Resume::ProcessingHold => self.dispatch(),
            Resume::Execution => self.request_clear_holds(),
            Resume::ClearHolds => self.settle_refund(),
            Resume::Refund => self.settle_fee(),
            Resume::GasHold => self.request_fee(),
            Resume::Fee => self.after_fee(),
            Resume::ClearRefundPurse => self.finish_current(),
            Resume::Checksums => self.distribute(),
        }
    }

    fn finish_transactions(self) -> (t: Transition)
        ensures
            t.refines(self@.finish_transactions()),
    {
        let approvals: Digest = match compute_approvals_checksum(&self.block.transactions) {
            Ok(checksum) => checksum,
            Err(error) => {
                return Transition::Fatal(
                    BlockExecutionError::FailedToComputeApprovalsChecksum(error),
                );
            },
        };
        let results: Digest = match compute_execution_results_checksum(&self.artifacts) {
            Ok(checksum) => checksum,
            Err(error) => {
                return Transition::Fatal(error);
            },
        };
        let request = Request::Commit { state_root: self.state_root };
        let mut next = self;
        next.stage = Stage::Commit(Resume::Checksums);
        next.held = Held::nothing();
        next.pending = checksum_registry_effects(&approvals, &results);
        next.pending_messages = Vec::new();
        Transition::Continue(next, request)
    }

    fn distribute(self) -> (t: Transition)
        ensures
            t.refines(self@.distribute()),
    {
        if self.block.rewards.is_some() {
            let request = Request::DistributeFees {
                state_root: self.state_root,
                block_time: self.block.timestamp.0,
            };
            self.ask(Stage::DistributeFees, request)
        } else {
            self.end_era()
        }
    }

    fn on_distribute_fees(self, result: RootUpdate) -> (t: Transition)
        ensures
            t.refines(self@.on_distribute_fees(result)),
    {
        match result {
            RootUpdate::RootNotFound => Transition::Fatal(
                BlockExecutionError::RootNotFound(self.state_root),
            ),
            RootUpdate::Failure(reason) => Transition::Fatal(
                BlockExecutionError::DistributeFees(reason),
            ),
            RootUpdate::Success { post_state_hash } => {
                let request = Request::DistributeRewards {
                    state_root: post_state_hash,
                    block_time: self.block.timestamp.0,
                };
                let mut next = self;
                next.state_root = post_state_hash;
                next.ask(Stage::DistributeRewards, request)
            },
        }
    }

    fn on_distribute_rewards(self, result: RootUpdate) -> (t: Transition)
        ensures
            t.refines(self@.on_distribute_rewards(result)),
    {
        match result {
            RootUpdate::RootNotFound => Transition::Fatal(
                BlockExecutionError::RootNotFound(self.state_root),
            ),
            RootUpdate::Failure(reason) => Transition::Fatal(
                BlockExecutionError::DistributeBlockRewards(reason),
            ),
            RootUpdate::Success { post_state_hash } => {
                let mut next = self;
                next.state_root = post_state_hash;
                next.end_era()
            },
        }
    }

    fn end_era(self) -> (t: Transition)
        ensures
            t.refines(self@.end_era()),
    {
        if self.block.era_report.is_some() {
            let request = Request::ForcedUndelegate {
                state_root: self.state_root,
                block_time: self.block.timestamp.0,
            };
            self.ask(Stage::ForcedUndelegate, request)
        } else {
            self.prune()
        }
    }

    fn on_forced_undelegate(self, result: RootUpdate) -> (t: Transition)
        ensures
            t.refines(self@.on_forced_undelegate(result)),
    {
        match result {
            RootUpdate::RootNotFound => Transition::Fatal(
                BlockExecutionError::RootNotFound(self.state_root),
            ),
            RootUpdate::Failure(reason) => Transition::Fatal(
                BlockExecutionError::ForcedUndelegate(reason),
            ),
            RootUpdate::Success { post_state_hash } => {
                let request = Request::Step {
                    state_root: post_state_hash,
                    next_era_id: self.block.era_id.successor(),
                    era_end_timestamp_millis: self.block.timestamp.0,
                };
                let mut next = self;
                next.state_root = post_state_hash;
                next.ask(Stage::Step, request)
            },
        }
    }

    fn on_step(self, result: StepResult) -> (t: Transition)
        ensures
            t.refines(self@.on_step(result)),
    {
        match result {
            StepResult::RootNotFound => Transition::Fatal(
                BlockExecutionError::RootNotFound(self.state_root),
            ),
            StepResult::Failure(reason) => Transition::Fatal(BlockExecutionError::Step(reason)),
            StepResult::Success { effects, post_state_hash } => {
                let mut next = self;
                next.state_root = post_state_hash;
                next.step_effects = Some(effects);
                next.ask(
                    Stage::EraValidators,
                    Request::EraValidators { state_root: post_state_hash },
                )
            },
        }
    }

    fn on_era_validators(self, result: EraValidatorsResult) -> (t: Transition)
        ensures
            t.refines(self@.on_era_validators(result)),
    {
        match result {
            EraValidatorsResult::RootNotFound => Transition::Fatal(
                BlockExecutionError::RootNotFound(self.state_root),
            ),
            EraValidatorsResult::AuctionNotFound => Transition::Fatal(
                BlockExecutionError::AuctionNotFound,
            ),
            EraValidatorsResult::ValueNotFound(reason) => Transition::Fatal(
                BlockExecutionError::ValidatorSnapshotNotFound(reason),
            ),
            EraValidatorsResult::Failure(reason) => Transition::Fatal(
                BlockExecutionError::GetEraValidators(reason),
            ),
            EraValidatorsResult::Success { era_validators } => {
                let mut next = self;
                let step_effects = next.step_effects;
                match step_effects {
                    Some(step_effects) => {
                        next.step_effects = None;
                        next.step_outcome = Some(
                            StepOutcome { upcoming_era_validators: era_validators, step_effects },
                        );
                        next.prune()
                    },
                    None => Transition::Fatal(BlockExecutionError::UnexpectedResponse),
                }
            },
        }
    }

    fn prune(self) -> (t: Transition)
        ensures
            t.refines(self@.prune()),
    {
        if self.prune_eras().is_some() {
            let request = Request::Prune { state_root: self.state_root };
            self.ask(Stage::Prune, request)
        } else {
            self.write()
        }
    }

    fn on_prune(self, result: PruneResult) -> (t: Transition)
        ensures
            t.refines(self@.on_prune(result)),
    {
        match result {
            PruneResult::RootNotFound => Transition::Fatal(
                BlockExecutionError::RootNotFound(self.state_root),
            ),
            PruneResult::MissingKey => self.write(),
            PruneResult::Failure(reason) => Transition::Fatal(BlockExecutionError::Prune(reason)),
            PruneResult::Success { post_state_hash } => {
                let mut next = self;
                next.state_root = post_state_hash;
                next.write()
            },
        }
    }

    fn write(self) -> (t: Transition)
        ensures
            t.refines(self@.write()),
    {
        let request = Request::WriteScratchToDb { state_root: self.state_root };
        self.ask(Stage::WriteScratchToDb, request)
    }

    fn on_write(self, result: StoreResult) -> (t: Transition)
        ensures
            t.refines(self@.on_write(result)),
    {
        match result {
            StoreResult::Failure(reason) => Transition::Fatal(BlockExecutionError::Lmdb(reason)),
            StoreResult::Success { post_state_hash } => {
                let mut next = self;
                next.state_root = post_state_hash;
                next.ask(Stage::Flush, Request::Flush)
            },
        }
    }

    fn next_era_validator_weights(&self) -> (weights: Option<ValidatorWeights>)
        ensures
            match weights {
                Some(found) => self@.next_era_validator_weights() == Some(found.entries@),
                None => self@.next_era_validator_weights() is None,
            },
    {
        match &self.step_outcome {
            Some(outcome) => weights_of(
                &outcome.upcoming_era_validators,
                self.block.era_id.successor(),
            ),
            None => None,
        }
    }

    fn on_flush(self, result: StoreResult) -> (t: Transition)
        ensures
            t.refines(self@.on_flush(result)),
    {
        match result {
            StoreResult::Failure(reason) => Transition::Fatal(BlockExecutionError::Lmdb(reason)),
            StoreResult::Success { .. } => {
                let has_era_report: bool = self.block.era_report.is_some();
                let has_weights: bool = self.next_era_validator_weights().is_some()
                    && self.next_era_gas_price.is_some();
                if has_era_report == has_weights {
                    let request = Request::ChecksumRegistryProof { state_root: self.state_root };
                    self.ask(Stage::ChecksumRegistryProof, request)
                } else {
                    Transition::Fatal(
                        BlockExecutionError::FailedToCreateEraEnd {
                            maybe_era_report: self.block.era_report,
                            has_next_era_validator_weights: has_weights,
                        },
                    )
                }
            },
        }
    }

    fn on_proof(self, result: ProofResult) -> (t: Transition)
        ensures
            t.refines(self@.on_proof(result)),
    {
        match result {
            ProofResult::RootNotFound => Transition::Fatal(
                BlockExecutionError::RootNotFound(self.state_root),
            ),
            ProofResult::Missing => Transition::Fatal(BlockExecutionError::MissingChecksumRegistry),
            ProofResult::Failure(reason) => Transition::Fatal(
                BlockExecutionError::TrackingCopy(reason),
            ),
            ProofResult::Found { proof } => Transition::Done(self.assemble(proof)),
        }
    }

    fn assemble(self, proof: Vec<u8>) -> (output: BlockAndExecutionArtifacts)
        ensures
            self@.assembles(output, proof),
    {
        let weights: Option<ValidatorWeights> = self.next_era_validator_weights();
        let hashes: Vec<Digest> = approvals_hashes(&self.block.transactions);
        let ghost view = self@;
        let BlockExecutor {
            config,
            block,
            pre_state,
            current_gas_price,
            next_era_gas_price,
            last_switch_block_hash,
            state_root,
            artifacts,
            step_outcome,
            ..
        } = self;
        let ExecutableBlock {
            rewarded_signatures,
            timestamp,
            random_bit,
            era_report,
            era_id,
            height,
            proposer,
            transaction_map,
            rewards,
            ..
        } = block;
        let era_end: Option<EraEnd> = match (era_report, weights, next_era_gas_price) {
            (Some(report), Some(weights), Some(price)) => Some(
                EraEnd {
                    equivocators: report.equivocators,
                    inactive_validators: report.inactive_validators,
                    next_era_validator_weights: weights,
                    rewards: match rewards {
                        Some(rewards) => rewards,
                        None => Rewards { entries: Vec::new() },
                    },
                    next_era_gas_price: price,
                },
            ),
            _ => None,
        };
        let assembled = Block::new(
            pre_state.parent_hash,
            pre_state.parent_seed,
            state_root,
            random_bit,
            era_end,
            timestamp,
            era_id,
            height,
            config.protocol_version,
            proposer,
            transaction_map,
            rewarded_signatures,
            current_gas_price,
            last_switch_block_hash,
        );
        let approvals_hashes = ApprovalsHashes {
            block_hash: assembled.hash,
            approvals_hashes: hashes,
            proof_of_checksum_registry: proof,
        };
        assert(approvals_hashes.approvals_hashes@ =~= view.block.transactions@.map_values(
            |t: Transaction| t.approvals_hash,
        ));
        BlockAndExecutionArtifacts {
            block: assembled,
            approvals_hashes,
            execution_artifacts: artifacts,
            step_outcome,
        }
    }

    /// Takes the answer to the request that was issued last and decides what comes next.
    ///
    /// The answer must be of the kind that the request calls for; any other is refused with
    /// [`BlockExecutionError::UnexpectedResponse`].
    pub fn step(self, response: Response) -> (t: Transition)
        requires
            self@.wf(),
        ensures
            t.refines(self@.step(response)),
            t matches Transition::Continue(engine, request) ==> engine@.wf() && (
            spec_request_root(request) matches Some(root) ==> root == engine@.state_root),
    {
        proof {
            lemma_step_is_sound(self@, response);
        }
        match (self.stage, response) {
            (Stage::BlockGlobal, Response::BlockGlobal(r)) => self.on_block_global(r),
            (Stage::SetRefundPurse, Response::HandleRefund(r)) => self.on_set_refund_purse(r),
            (Stage::InitialBalance, Response::Balance(r)) => self.on_initial_balance(r),
            (Stage::EntryPoint, Response::EntryPoint(r)) => self.on_entry_point(r),
            (Stage::CustomPayment, Response::CustomPayment(r)) => self.on_custom_payment(r),
            (Stage::PenaltyTransfer, Response::PenaltyTransfer(r)) => self.on_penalty_transfer(r),
            (Stage::PostPaymentBalance, Response::Balance(r)) => self.on_post_payment_balance(r),
            (Stage::ProcessingHold, Response::BalanceHold(r)) => self.on_processing_hold(r),
            (Stage::Transfer, Response::Transfer(r)) => self.on_transfer(r),
            (Stage::Bidding, Response::Bidding(r)) => self.on_bidding(r),
            (Stage::Session, Response::Session(r)) => self.on_session(r),
            (Stage::ClearHolds, Response::BalanceHold(r)) => self.on_clear_holds(r),
            (Stage::Refund, Response::HandleRefund(r)) => self.on_refund(r),
            (Stage::GasHold, Response::BalanceHold(r)) => self.on_gas_hold(r),
            (Stage::Fee, Response::HandleFee(r)) => self.on_fee(r),
            (Stage::ClearRefundPurse, Response::HandleRefund(r)) => self.on_clear_refund_purse(r),
            (Stage::Commit(resume), Response::Commit(r)) => self.on_commit(resume, r),
            (Stage::DistributeFees, Response::DistributeFees(r)) => self.on_distribute_fees(r),
            (Stage::DistributeRewards, Response::DistributeRewards(r)) => self.on_distribute_rewards(
                r,
            ),
            (Stage::ForcedUndelegate, Response::ForcedUndelegate(r)) => self.on_forced_undelegate(
                r,
            ),
            (Stage::Step, Response::Step(r)) => self.on_step(r),
            (Stage::EraValidators, Response::EraValidators(r)) => self.on_era_validators(r),
            (Stage::Prune, Response::Prune(r)) => self.on_prune(r),
            (Stage::WriteScratchToDb, Response::WriteScratchToDb(r)) => self.on_write(r),
            (Stage::Flush, Response::Flush(r)) => self.on_flush(r),
            (Stage::ChecksumRegistryProof, Response::ChecksumRegistryProof(r)) => self.on_proof(r),
            _ => Transition::Fatal(BlockExecutionError::UnexpectedResponse),
        }
    }
}

} // verus!
