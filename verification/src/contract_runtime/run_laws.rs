//! What holds of the artifacts and of the outcome of the step along every run of the engine.

use crate::contract_runtime::artifact::ArtifactView;
use crate::contract_runtime::error::{ArtifactError, Operation};
use crate::contract_runtime::gas::{spec_gas_cost, spec_gas_limit};
use crate::contract_runtime::config::{ChainConfig, MINT_LANE_ID};
use crate::contract_runtime::laws::{lemma_step_is_sound, spec_run, spec_sound};
use crate::contract_runtime::model::{spec_penalty_payment, ExecutorView, Next, Resume, Stage};
use crate::contract_runtime::operations::spec_execute_finalized_block;
use crate::contract_runtime::payer::spec_invoked_contract_will_pay;
use crate::contract_runtime::protocol::{
    BalanceResult, EffectsResult, EraValidatorsResult, HandleRefundResult, Held, ProofResult,
    PruneResult, Response, RootUpdate, StoreResult,
};
use crate::contract_runtime::types::{
    BalanceIdentifier, BlockAndExecutionArtifacts, ExecutableBlock, ExecutionPreState,
    StepOutcome, Transaction,
};
use crate::primitives::BlockHash;
use crate::primitives::Gas;
use vstd::prelude::*;

verus! {

/// Whether `artifact` is that of `transaction`: it carries its hash and its initiator.
pub open spec fn spec_names(artifact: ArtifactView, transaction: Transaction) -> bool {
    &&& artifact.transaction_hash == transaction.hash
    &&& artifact.initiator == transaction.initiator
}

/// Whether nothing has been recorded in `artifact`: no error, no gas consumed, no effects, no
/// messages and no settlement.
pub open spec fn spec_untouched(artifact: ArtifactView) -> bool {
    &&& artifact.error is None
    &&& artifact.consumed == Gas(0)
    &&& artifact.effects.len() == 0
    &&& artifact.messages.len() == 0
    &&& artifact.settlement is None
}

/// Whether the stage is one of the end of an era: the forced undelegations, the step, or the
/// reading of the validators.
pub open spec fn spec_ends_era(stage: Stage) -> bool {
    stage == Stage::ForcedUndelegate || stage == Stage::Step || stage == Stage::EraValidators
}

/// Whether the stage comes after the end of the era: pruning, writing, flushing, or the
/// reading of the proof.
pub open spec fn spec_after_era(stage: Stage) -> bool {
    stage == Stage::Prune || stage == Stage::WriteScratchToDb || stage == Stage::Flush || stage
        == Stage::ChecksumRegistryProof
}

/// Whether every artifact of `state` is that of the transaction at its place in the block.
pub open spec fn spec_in_order(state: ExecutorView) -> bool {
    forall|i: int|
        0 <= i < state.artifacts.len() && i < state.block.transactions@.len() ==> spec_names(
            #[trigger] state.artifacts[i],
            state.block.transactions@[i],
        )
}

/// Whether what the machine holds follows its block:
/// - the artifact at each place is that of the transaction at that place, and the artifact in
///   progress is that of the transaction in progress;
/// - a refund purse is set only for a transaction with payment logic of its own;
/// - nothing has been recorded in the artifact when the balance of an initiator who pays in
///   the standard way is read;
/// - there is an outcome of the step only in a block that ends an era, the stages of the end
///   of an era are entered only in such a block, and after them the outcome is there.
pub open spec fn spec_follows(state: ExecutorView) -> bool {
    &&& spec_in_order(state)
    &&& state.stage.in_transaction() ==> spec_names(state.current, state.transaction())
    &&& (state.stage == Stage::SetRefundPurse || state.stage == Stage::Commit(
        Resume::SetRefundPurse,
    )) ==> !state.transaction().standard_payment
    &&& (state.stage == Stage::InitialBalance && state.transaction().standard_payment)
        ==> spec_untouched(state.current)
    &&& state.step_outcome is Some ==> state.block.era_report is Some
    &&& spec_ends_era(state.stage) ==> state.block.era_report is Some
    &&& (spec_after_era(state.stage) && state.block.era_report is Some) ==> state.step_outcome
        is Some
}

/// What the laws of this module ask of what a step comes to: where the machine goes on or is
/// done, its state follows its block; and where it is done, it is so from the stage in which
/// the proof of the checksum registry is read, and there is an outcome of the step if and
/// only if the block ends an era.
pub open spec fn spec_next_follows(next: Next) -> bool {
    match next {
        Next::Continue(state, _) => spec_follows(state),
        Next::Fatal(_) => true,
        Next::Done(state, _) => {
            &&& spec_follows(state)
            &&& state.stage == Stage::ChecksumRegistryProof
            &&& state.step_outcome is Some <==> state.block.era_report is Some
        },
    }
}

/// What holds between two handlers: the counts of well-formedness, the order of the
/// artifacts, and that an outcome of the step is there only in a block that ends an era.
pub open spec fn spec_between(state: ExecutorView) -> bool {
    &&& state.index <= state.block.transactions@.len()
    &&& state.artifacts.len() == state.index
    &&& spec_in_order(state)
    &&& state.step_outcome is Some ==> state.block.era_report is Some
}

proof fn lemma_after_transactions_follow(state: ExecutorView)
    requires
        spec_between(state),
    ensures
        spec_next_follows(state.finish_transactions()),
        spec_next_follows(state.distribute()),
        spec_next_follows(state.end_era()),
        (state.block.era_report is Some ==> state.step_outcome is Some) ==> spec_next_follows(
            state.prune(),
        ) && spec_next_follows(state.write()),
{
}

proof fn lemma_transactions_follow(state: ExecutorView, artifact: ArtifactView, finishing: bool)
    requires
        spec_between(state),
        finishing && state.index < state.block.transactions@.len() ==> spec_names(
            artifact,
            state.transaction(),
        ),
    ensures
        finishing ==> spec_next_follows(state.finish_transaction(artifact)),
        !finishing ==> spec_next_follows(state.start_transaction()),
    decreases state.block.transactions@.len() - state.index, (if finishing { 0nat } else { 1nat }),
{
    if finishing {
        if state.index < state.block.transactions@.len() && state.index < usize::MAX {
            let next = ExecutorView {
                artifacts: state.artifacts.push(artifact),
                index: (state.index + 1) as usize,
                current: ArtifactView::new(artifact.transaction_hash, artifact.initiator),
                ..state
            };
            assert forall|i: int|
                0 <= i < next.artifacts.len() && i < next.block.transactions@.len() implies spec_names(
                #[trigger] next.artifacts[i],
                next.block.transactions@[i],
            ) by {
                if i < state.artifacts.len() {
                    assert(next.artifacts[i] == state.artifacts[i]);
                }
            }
            lemma_transactions_follow(next, artifact, false);
        }
    } else {
        if state.index >= state.block.transactions@.len() {
            lemma_after_transactions_follow(state);
        } else {
            let transaction = state.transaction();
            let fresh = ArtifactView::new(transaction.hash, transaction.initiator);
            match spec_gas_limit(transaction, state.config) {
                Err(invalid) => {
                    lemma_transactions_follow(
                        state,
                        fresh.with_error(ArtifactError::InvalidTransaction(invalid)),
                        true,
                    );
                },
                Ok(limit) => {
                    match spec_gas_cost(limit, state.current_gas_price) {
                        Err(invalid) => {
                            lemma_transactions_follow(
                                state,
                                fresh.with_gas_limit(limit).with_error(
                                    ArtifactError::InvalidTransaction(invalid),
                                ),
                                true,
                            );
                        },
                        Ok(cost) => {},
                    }
                },
            }
        }
    }
}

proof fn lemma_in_transaction_follows(state: ExecutorView)
    requires
        spec_between(state),
        state.index < state.block.transactions@.len(),
        spec_names(state.current, state.transaction()),
    ensures
        (!state.transaction().standard_payment || spec_untouched(state.current))
            ==> spec_next_follows(state.request_initial_balance()),
        spec_next_follows(state.resolve_payer()),
        spec_next_follows(state.request_post_payment_balance()),
        spec_next_follows(state.dispatch()),
        spec_next_follows(state.request_clear_holds()),
        spec_next_follows(state.settle_refund()),
        spec_next_follows(state.settle_fee()),
        spec_next_follows(state.request_fee()),
        spec_next_follows(state.after_fee()),
        spec_next_follows(state.finish_transaction(state.current)),
{
    lemma_transactions_follow(state, state.current, true);
}

/// A step from a state that follows its block leads to one that does. So, along every run,
/// the artifact at each place is that of the transaction at that place, and the block that is
/// handed back has an outcome of the step if and only if it ends an era.
#[verifier::rlimit(40)]
pub proof fn lemma_step_follows(state: ExecutorView, response: Response)
    requires
        state.wf(),
        spec_follows(state),
    ensures
        spec_next_follows(state.step(response)),
{
    match (state.stage, response) {
        (Stage::BlockGlobal, Response::BlockGlobal(r)) => {
            match r {
                RootUpdate::Success { post_state_hash } => {
                    lemma_transactions_follow(
                        ExecutorView { state_root: post_state_hash, ..state },
                        state.current,
                        false,
                    );
                },
                _ => {},
            }
        },
        (Stage::SetRefundPurse, Response::HandleRefund(r)) => {
            match r {
                HandleRefundResult::Failure(reason) => {
                    lemma_transactions_follow(
                        state,
                        state.current.with_error(
                            ArtifactError::Failed { operation: Operation::SetRefundPurse, reason },
                        ),
                        true,
                    );
                },
                _ => {},
            }
        },
        (Stage::InitialBalance, Response::Balance(r)) => {
            lemma_in_transaction_follows(state);
            match r {
                BalanceResult::Failure(reason) => {
                    lemma_transactions_follow(
                        state,
                        state.current.with_error(
                            ArtifactError::Failed { operation: Operation::InitialBalance, reason },
                        ),
                        true,
                    );
                },
                BalanceResult::Success { available_balance, .. } => {
                    lemma_transactions_follow(
                        state,
                        state.current.with_error(
                            ArtifactError::InsufficientBalance {
                                available: available_balance,
                                required: spec_penalty_payment(),
                            },
                        ),
                        true,
                    );
                },
                _ => {},
            }
        },
        (Stage::EntryPoint, Response::EntryPoint(r)) => {
            let transaction = state.transaction();
            match spec_invoked_contract_will_pay(transaction, r) {
                Ok(Some(entity)) => {
                    lemma_in_transaction_follows(
                        ExecutorView { payer: BalanceIdentifier::Entity(entity), ..state },
                    );
                },
                _ => {},
            }
        },
        (Stage::CustomPayment, Response::CustomPayment(r)) => {},
        (Stage::PenaltyTransfer, Response::PenaltyTransfer(r)) => {},
        (Stage::PostPaymentBalance, Response::Balance(r)) => {
            lemma_in_transaction_follows(state);
        },
        (Stage::ProcessingHold, Response::BalanceHold(r)) => {},
        (Stage::Transfer, Response::Transfer(r)) => {},
        (Stage::Bidding, Response::Bidding(r)) => {},
        (Stage::Session, Response::Session(r)) => {},
        (Stage::ClearHolds, Response::BalanceHold(r)) => {},
        (Stage::Refund, Response::HandleRefund(r)) => {},
        (Stage::GasHold, Response::BalanceHold(r)) => {},
        (Stage::Fee, Response::HandleFee(r)) => {},
        (Stage::ClearRefundPurse, Response::HandleRefund(r)) => {},
        (Stage::Commit(resume), Response::Commit(r)) => {
            match r {
                StoreResult::Success { post_state_hash } => {
                    if resume == Resume::Checksums {
                        lemma_after_transactions_follow(
                            ExecutorView { pending: Seq::empty(), ..state },
                        );
                    } else {
                        lemma_in_transaction_follows(
                            ExecutorView {
                                state_root: post_state_hash,
                                current: state.current.record(
                                    state.held,
                                    state.pending,
                                    state.pending_messages,
                                ),
                                held: Held::spec_nothing(),
                                pending: Seq::empty(),
                                pending_messages: Seq::empty(),
                                ..state
                            },
                        );
                    }
                },
                _ => {},
            }
        },
        (Stage::DistributeFees, Response::DistributeFees(r)) => {},
        (Stage::DistributeRewards, Response::DistributeRewards(r)) => {
            match r {
                RootUpdate::Success { post_state_hash } => {
                    lemma_after_transactions_follow(
                        ExecutorView { state_root: post_state_hash, ..state },
                    );
                },
                _ => {},
            }
        },
        (Stage::ForcedUndelegate, Response::ForcedUndelegate(r)) => {},
        (Stage::Step, Response::Step(r)) => {},
        (Stage::EraValidators, Response::EraValidators(r)) => {
            match r {
                EraValidatorsResult::Success { era_validators } => {
                    match state.step_effects {
                        Some(step_effects) => {
                            lemma_after_transactions_follow(
                                ExecutorView {
                                    step_effects: None,
                                    step_outcome: Some(
                                        StepOutcome {
                                            upcoming_era_validators: era_validators,
                                            step_effects,
                                        },
                                    ),
                                    ..state
                                },
                            );
                        },
                        None => {},
                    }
                },
                _ => {},
            }
        },
        (Stage::Prune, Response::Prune(r)) => {
            lemma_after_transactions_follow(state);
            match r {
                PruneResult::Success { post_state_hash } => {
                    lemma_after_transactions_follow(
                        ExecutorView { state_root: post_state_hash, ..state },
                    );
                },
                _ => {},
            }
        },
        (Stage::WriteScratchToDb, Response::WriteScratchToDb(r)) => {},
        (Stage::Flush, Response::Flush(r)) => {},
        (Stage::ChecksumRegistryProof, Response::ChecksumRegistryProof(r)) => {},
        _ => {},
    }
}

/// Every state reached by running the machine from one that follows its block follows it.
pub proof fn lemma_run_follows(start: Next, answers: Seq<Response>)
    requires
        spec_sound(start),
        spec_next_follows(start),
    ensures
        spec_sound(spec_run(start, answers)),
        spec_next_follows(spec_run(start, answers)),
    decreases answers.len(),
{
    if answers.len() > 0 {
        lemma_run_follows(start, answers.drop_last());
        match spec_run(start, answers.drop_last()) {
            Next::Continue(state, _) => {
                lemma_step_is_sound(state, answers.last());
                lemma_step_follows(state, answers.last());
            },
            _ => {},
        }
    }
}

/// Whether `transaction` is a plain native transfer under `config` at the gas price `price`:
/// it runs in the lane of native transfers and pays in the standard way, it can be read, no
/// contract is asked whether it pays, and its gas limit and its cost can be calculated.
pub open spec fn spec_plain_transfer(transaction: Transaction, config: ChainConfig, price: u8) -> bool {
    &&& transaction.lane_id == MINT_LANE_ID
    &&& transaction.standard_payment
    &&& transaction.conversion_error is None
    &&& transaction.contract_by_hash is None || !config.enable_addressable_entity
    &&& spec_gas_limit(transaction, config) matches Ok(limit) && spec_gas_cost(limit, price)
        is Ok
}

/// Whether the block of `state` ends no era and holds plain native transfers only, no more
/// than can be counted.
pub open spec fn spec_plain(state: ExecutorView) -> bool {
    &&& state.block.era_report is None
    &&& state.block.transactions@.len() <= u32::MAX
    &&& forall|i: int|
        0 <= i < state.block.transactions@.len() ==> spec_plain_transfer(
            #[trigger] state.block.transactions@[i],
            state.config,
            state.current_gas_price,
        )
}

/// Whether `response` answers what `state` awaits, and says that all went well: every
/// operation succeeded, the initiator's balance covers the penalty payment, and the payer's
/// balance covers the cost. A key that is missing on pruning counts as well.
pub open spec fn spec_succeeds(state: ExecutorView, response: Response) -> bool {
    match (state.stage, response) {
        (Stage::BlockGlobal, Response::BlockGlobal(r)) => r is Success,
        (Stage::InitialBalance, Response::Balance(r)) => r.spec_is_sufficient(
            spec_penalty_payment(),
        ),
        (Stage::PostPaymentBalance, Response::Balance(r)) => r.spec_is_sufficient(
            state.current.cost,
        ),
        (Stage::ProcessingHold, Response::BalanceHold(r)) => r is Success,
        (Stage::Transfer, Response::Transfer(r)) => r is Success,
        (Stage::ClearHolds, Response::BalanceHold(r)) => r is Success,
        (Stage::Refund, Response::HandleRefund(r)) => r is Success,
        (Stage::GasHold, Response::BalanceHold(r)) => r is Success,
        (Stage::Fee, Response::HandleFee(r)) => r is Success,
        (Stage::Commit(_), Response::Commit(r)) => r is Success,
        (Stage::DistributeFees, Response::DistributeFees(r)) => r is Success,
        (Stage::DistributeRewards, Response::DistributeRewards(r)) => r is Success,
        (Stage::Prune, Response::Prune(r)) => r is Success || r is MissingKey,
        (Stage::WriteScratchToDb, Response::WriteScratchToDb(r)) => r is Success,
        (Stage::Flush, Response::Flush(r)) => r is Success,
        (Stage::ChecksumRegistryProof, Response::ChecksumRegistryProof(r)) => r is Found,
        _ => false,
    }
}

/// Whether `artifact` is that of a transfer that went well: it consumed its whole gas limit,
/// and no error is recorded.
pub open spec fn spec_spent(artifact: ArtifactView) -> bool {
    &&& artifact.error is None
    &&& artifact.consumed == artifact.gas_limit
}

/// How far a plain native transfer has come at `stage`: not yet executed (0), executed with
/// the execution not yet on record (1), or executed and on record (2). The other stages are
/// none that a plain native transfer comes to.
pub open spec fn spec_phase(stage: Stage) -> Option<nat> {
    match stage {
        Stage::InitialBalance => Some(0),
        Stage::PostPaymentBalance => Some(0),
        Stage::ProcessingHold => Some(0),
        Stage::Commit(Resume::ProcessingHold) => Some(0),
        Stage::Transfer => Some(0),
        Stage::Commit(Resume::Execution) => Some(1),
        Stage::ClearHolds => Some(2),
        Stage::Commit(Resume::ClearHolds) => Some(2),
        Stage::Refund => Some(2),
        Stage::Commit(Resume::Refund) => Some(2),
        Stage::GasHold => Some(2),
        Stage::Commit(Resume::GasHold) => Some(2),
        Stage::Fee => Some(2),
        Stage::Commit(Resume::Fee) => Some(2),
        _ => None,
    }
}

/// Whether all has gone well in `state` so far: every artifact is that of a transfer that
/// went well, and the transfer in progress has no error on record and has consumed nothing
/// before it is executed and its whole gas limit after.
pub open spec fn spec_smooth(state: ExecutorView) -> bool {
    &&& forall|i: int| 0 <= i < state.artifacts.len() ==> spec_spent(#[trigger] state.artifacts[i])
    &&& !spec_ends_era(state.stage)
    &&& state.held.error is None
    &&& state.stage.in_transaction() ==> {
        &&& spec_phase(state.stage) is Some
        &&& state.current.error is None
        &&& state.current.consumed == (if spec_phase(state.stage) == Some(2nat) {
            state.current.gas_limit
        } else {
            Gas(0)
        })
        &&& state.held.consumed == (if spec_phase(state.stage) == Some(1nat) {
            state.current.gas_limit
        } else {
            Gas(0)
        })
        &&& state.stage == Stage::PostPaymentBalance ==> !state.payer.spec_is_penalty()
    }
    &&& !state.stage.in_transaction() ==> state.held.consumed == Gas(0)
}

/// What the law of plain transfers asks of what a step comes to: the machine has not failed,
/// and all has gone well in the state it is in.
pub open spec fn spec_next_smooth(next: Next) -> bool {
    match next {
        Next::Continue(state, _) => spec_plain(state) && spec_smooth(state),
        Next::Fatal(_) => false,
        Next::Done(state, _) => spec_plain(state) && spec_smooth(state),
    }
}

proof fn lemma_next_transfer(state: ExecutorView, artifact: ArtifactView, finishing: bool)
    requires
        state.index <= state.block.transactions@.len(),
        state.artifacts.len() == state.index,
        spec_plain(state),
        forall|i: int| 0 <= i < state.artifacts.len() ==> spec_spent(#[trigger] state.artifacts[i]),
        state.held == Held::spec_nothing(),
        !spec_ends_era(state.stage),
        finishing ==> spec_spent(artifact) && state.index < state.block.transactions@.len(),
    ensures
        finishing ==> spec_next_smooth(state.finish_transaction(artifact)),
        !finishing ==> spec_next_smooth(state.start_transaction()),
    decreases state.block.transactions@.len() - state.index, (if finishing { 0nat } else { 1nat }),
{
    if finishing {
        let next = ExecutorView {
            artifacts: state.artifacts.push(artifact),
            index: (state.index + 1) as usize,
            current: ArtifactView::new(artifact.transaction_hash, artifact.initiator),
            ..state
        };
        assert forall|i: int| 0 <= i < next.artifacts.len() implies spec_spent(
            #[trigger] next.artifacts[i],
        ) by {
            if i < state.artifacts.len() {
                assert(next.artifacts[i] == state.artifacts[i]);
            }
        }
        lemma_next_transfer(next, artifact, false);
    } else {
        if state.index < state.block.transactions@.len() {
            assert(spec_plain_transfer(
                state.block.transactions@[state.index as int],
                state.config,
                state.current_gas_price,
            ));
        }
    }
}

/// Plain native transfers go through where all goes well: in a block that ends no era and
/// holds plain native transfers only, a step on an answer that says that all went well does
/// not fail, and it leaves every artifact with its whole gas limit consumed and no error.
#[verifier::rlimit(40)]
pub proof fn lemma_transfers_go_through(state: ExecutorView, response: Response)
    requires
        state.wf(),
        spec_follows(state),
        spec_plain(state),
        spec_smooth(state),
        spec_succeeds(state, response),
    ensures
        spec_next_smooth(state.step(response)),
{
    match (state.stage, response) {
        (Stage::BlockGlobal, Response::BlockGlobal(RootUpdate::Success { post_state_hash })) => {
            lemma_next_transfer(
                ExecutorView { state_root: post_state_hash, ..state },
                state.current,
                false,
            );
        },
        (Stage::InitialBalance, Response::Balance(r)) => {
            assert(spec_plain_transfer(state.transaction(), state.config, state.current_gas_price));
        },
        (Stage::PostPaymentBalance, Response::Balance(r)) => {
            assert(spec_plain_transfer(state.transaction(), state.config, state.current_gas_price));
        },
        (Stage::Commit(resume), Response::Commit(StoreResult::Success { post_state_hash })) => {
            if resume != Resume::Checksums {
                assert(spec_plain_transfer(
                    state.transaction(),
                    state.config,
                    state.current_gas_price,
                ));
                let recorded = ExecutorView {
                    state_root: post_state_hash,
                    current: state.current.record(
                        state.held,
                        state.pending,
                        state.pending_messages,
                    ),
                    held: Held::spec_nothing(),
                    pending: Seq::empty(),
                    pending_messages: Seq::empty(),
                    ..state
                };
                if resume == Resume::Fee {
                    lemma_next_transfer(recorded, recorded.current, true);
                }
            }
        },
        _ => {},
    }
}

/// Whether every answer of `answers` says that all went well at the state that it comes to,
/// when the machine is run on them from `start`.
pub open spec fn spec_all_succeed(start: Next, answers: Seq<Response>) -> bool
    decreases answers.len(),
{
    if answers.len() == 0 {
        true
    } else {
        &&& spec_all_succeed(start, answers.drop_last())
        &&& spec_run(start, answers.drop_last()) matches Next::Continue(state, _)
            ==> spec_succeeds(state, answers.last())
    }
}

/// A block that ends no era and holds plain native transfers only is executed without
/// failure where all goes well. Where the run is done, there is one artifact for each
/// transaction, at its place; each has its whole gas limit consumed and no error; and there
/// is no outcome of a step.
pub proof fn lemma_transfers_run_through(start: Next, answers: Seq<Response>)
    requires
        spec_sound(start),
        spec_next_follows(start),
        spec_next_smooth(start),
        spec_all_succeed(start, answers),
    ensures
        spec_sound(spec_run(start, answers)),
        spec_next_follows(spec_run(start, answers)),
        spec_next_smooth(spec_run(start, answers)),
        spec_run(start, answers) matches Next::Done(state, _) ==> {
            &&& state.artifacts.len() == state.block.transactions@.len()
            &&& forall|i: int|
                0 <= i < state.artifacts.len() ==> spec_spent(#[trigger] state.artifacts[i])
                    && spec_names(state.artifacts[i], state.block.transactions@[i])
            &&& state.step_outcome is None
        },
    decreases answers.len(),
{
    if answers.len() > 0 {
        lemma_transfers_run_through(start, answers.drop_last());
        match spec_run(start, answers.drop_last()) {
            Next::Continue(state, _) => {
                lemma_step_is_sound(state, answers.last());
                lemma_step_follows(state, answers.last());
                lemma_transfers_go_through(state, answers.last());
            },
            _ => {},
        }
    }
}

/// The machine starts in a state that follows its block.
pub proof fn lemma_start_follows(
    config: ChainConfig,
    provider_addressable_entity: bool,
    pre_state: ExecutionPreState,
    block: ExecutableBlock,
    key_block_height_for_activation_point: u64,
    current_gas_price: u8,
    next_era_gas_price: Option<u8>,
    last_switch_block_hash: Option<BlockHash>,
)
    ensures
        spec_next_follows(
            spec_execute_finalized_block(
                config,
                provider_addressable_entity,
                pre_state,
                block,
                key_block_height_for_activation_point,
                current_gas_price,
                next_era_gas_price,
                last_switch_block_hash,
            ),
        ),
{
}

/// A block of the expected height that ends no era and holds plain native transfers only is
/// executed without failure where all goes well, however many transfers it holds. Where the
/// run is done, there is one artifact for each transaction, at its place, with its whole gas
/// limit consumed and no error; there is no outcome of a step, and the block that is handed
/// back carries no data of the end of an era.
pub proof fn lemma_plain_block_runs_through(
    config: ChainConfig,
    pre_state: ExecutionPreState,
    block: ExecutableBlock,
    key_block_height_for_activation_point: u64,
    current_gas_price: u8,
    next_era_gas_price: Option<u8>,
    last_switch_block_hash: Option<BlockHash>,
    answers: Seq<Response>,
)
    requires
        block.height == pre_state.next_block_height,
        block.era_report is None,
        block.transactions@.len() <= u32::MAX,
        forall|i: int|
            0 <= i < block.transactions@.len() ==> spec_plain_transfer(
                #[trigger] block.transactions@[i],
                config,
                current_gas_price,
            ),
        spec_all_succeed(
            spec_execute_finalized_block(
                config,
                config.enable_addressable_entity,
                pre_state,
                block,
                key_block_height_for_activation_point,
                current_gas_price,
                next_era_gas_price,
                last_switch_block_hash,
            ),
            answers,
        ),
    ensures
        ({
            let end = spec_run(
                spec_execute_finalized_block(
                    config,
                    config.enable_addressable_entity,
                    pre_state,
                    block,
                    key_block_height_for_activation_point,
                    current_gas_price,
                    next_era_gas_price,
                    last_switch_block_hash,
                ),
                answers,
            );
            &&& !(end is Fatal)
            &&& end matches Next::Done(state, proof) ==> {
                &&& state.block == block
                &&& state.artifacts.len() == block.transactions@.len()
                &&& forall|i: int|
                    0 <= i < state.artifacts.len() ==> spec_spent(#[trigger] state.artifacts[i])
                        && spec_names(state.artifacts[i], block.transactions@[i])
                &&& state.step_outcome is None
                &&& forall|output: BlockAndExecutionArtifacts|
                    state.assembles(output, proof) ==> output.block.era_end is None
                        && output.step_outcome is None
            }
        }),
{
    let start = spec_execute_finalized_block(
        config,
        config.enable_addressable_entity,
        pre_state,
        block,
        key_block_height_for_activation_point,
        current_gas_price,
        next_era_gas_price,
        last_switch_block_hash,
    );
    crate::contract_runtime::laws::lemma_start_is_sound(
        config,
        config.enable_addressable_entity,
        pre_state,
        block,
        key_block_height_for_activation_point,
        current_gas_price,
        next_era_gas_price,
        last_switch_block_hash,
    );
    lemma_transfers_run_through(start, answers);
    lemma_run_keeps_the_block(start, answers);
}

/// The block that the machine executes stays the one it was started with.
pub proof fn lemma_run_keeps_the_block(start: Next, answers: Seq<Response>)
    requires
        spec_sound(start),
    ensures
        match (start, spec_run(start, answers)) {
            (Next::Continue(first, _), Next::Continue(state, _)) => state.block == first.block
                && state.config == first.config,
            (Next::Continue(first, _), Next::Done(state, _)) => state.block == first.block
                && state.config == first.config,
            _ => true,
        },
    decreases answers.len(),
{
    if answers.len() > 0 {
        lemma_run_keeps_the_block(start, answers.drop_last());
        crate::contract_runtime::laws::lemma_run_is_sound(start, answers.drop_last());
        match spec_run(start, answers.drop_last()) {
            Next::Continue(state, _) => {
                lemma_step_keeps_the_block(state, answers.last());
            },
            _ => {},
        }
    }
}

/// A step changes neither the block nor the configuration.
pub proof fn lemma_step_keeps_the_block(state: ExecutorView, response: Response)
    requires
        state.wf(),
    ensures
        match state.step(response) {
            Next::Continue(next, _) => next.block == state.block && next.config == state.config,
            Next::Done(next, _) => next.block == state.block && next.config == state.config,
            Next::Fatal(_) => true,
        },
{
    lemma_step_is_sound(state, response);
    lemma_finishing_keeps_the_block(state, state.current, true);
    match (state.stage, response) {
        (Stage::BlockGlobal, Response::BlockGlobal(RootUpdate::Success { post_state_hash })) => {
            lemma_finishing_keeps_the_block(
                ExecutorView { state_root: post_state_hash, ..state },
                state.current,
                false,
            );
        },
        (Stage::SetRefundPurse, Response::HandleRefund(HandleRefundResult::Failure(reason))) => {
            lemma_finishing_keeps_the_block(
                state,
                state.current.with_error(
                    ArtifactError::Failed { operation: Operation::SetRefundPurse, reason },
                ),
                true,
            );
        },
        (Stage::InitialBalance, Response::Balance(BalanceResult::Failure(reason))) => {
            lemma_finishing_keeps_the_block(
                state,
                state.current.with_error(
                    ArtifactError::Failed { operation: Operation::InitialBalance, reason },
                ),
                true,
            );
        },
        (
            Stage::InitialBalance,
            Response::Balance(BalanceResult::Success { available_balance, .. }),
        ) => {
            lemma_finishing_keeps_the_block(
                state,
                state.current.with_error(
                    ArtifactError::InsufficientBalance {
                        available: available_balance,
                        required: spec_penalty_payment(),
                    },
                ),
                true,
            );
        },
        (Stage::Commit(resume), Response::Commit(StoreResult::Success { post_state_hash })) => {
            let recorded = ExecutorView {
                state_root: post_state_hash,
                current: state.current.record(state.held, state.pending, state.pending_messages),
                held: Held::spec_nothing(),
                pending: Seq::empty(),
                pending_messages: Seq::empty(),
                ..state
            };
            lemma_finishing_keeps_the_block(recorded, recorded.current, true);
        },
        _ => {},
    }
}

proof fn lemma_finishing_keeps_the_block(
    state: ExecutorView,
    artifact: ArtifactView,
    finishing: bool,
)
    ensures
        finishing ==> match state.finish_transaction(artifact) {
            Next::Continue(next, _) => next.block == state.block && next.config == state.config,
            Next::Done(next, _) => next.block == state.block && next.config == state.config,
            Next::Fatal(_) => true,
        },
        !finishing ==> match state.start_transaction() {
            Next::Continue(next, _) => next.block == state.block && next.config == state.config,
            Next::Done(next, _) => next.block == state.block && next.config == state.config,
            Next::Fatal(_) => true,
        },
    decreases state.block.transactions@.len() - state.index, (if finishing { 0nat } else { 1nat }),
{
    if finishing {
        if state.index < state.block.transactions@.len() && state.index < usize::MAX {
            let next = ExecutorView {
                artifacts: state.artifacts.push(artifact),
                index: (state.index + 1) as usize,
                current: ArtifactView::new(artifact.transaction_hash, artifact.initiator),
                ..state
            };
            lemma_finishing_keeps_the_block(next, artifact, false);
        }
    } else {
        if state.index < state.block.transactions@.len() {
            let transaction = state.transaction();
            let fresh = ArtifactView::new(transaction.hash, transaction.initiator);
            match spec_gas_limit(transaction, state.config) {
                Err(invalid) => {
                    lemma_finishing_keeps_the_block(
                        state,
                        fresh.with_error(ArtifactError::InvalidTransaction(invalid)),
                        true,
                    );
                },
                Ok(limit) => {
                    match spec_gas_cost(limit, state.current_gas_price) {
                        Err(invalid) => {
                            lemma_finishing_keeps_the_block(
                                state,
                                fresh.with_gas_limit(limit).with_error(
                                    ArtifactError::InvalidTransaction(invalid),
                                ),
                                true,
                            );
                        },
                        Ok(cost) => {},
                    }
                },
            }
        }
    }
}

/// An initiator who pays in the standard way and whose balance does not cover the penalty
/// payment has the transaction ended at once, whatever its place in the block: its artifact
/// stands at its place with that error on record, with nothing consumed, no effects and no
/// settlement; the state root is left as the transaction before left it; and the machine goes
/// on with what follows, failing only where that fails.
pub proof fn lemma_insufficient_balance_is_recorded(
    state: ExecutorView,
    total_balance: crate::primitives::Motes,
    available_balance: crate::primitives::Motes,
)
    requires
        state.wf(),
        spec_follows(state),
        state.stage == Stage::InitialBalance,
        state.transaction().standard_payment,
        available_balance.0 < spec_penalty_payment().0,
    ensures
        ({
            let next = state.step(
                Response::Balance(BalanceResult::Success { total_balance, available_balance }),
            );
            let recorded = state.current.with_error(
                ArtifactError::InsufficientBalance {
                    available: available_balance,
                    required: spec_penalty_payment(),
                },
            );
            &&& next == state.finish_transaction(recorded)
            &&& spec_names(recorded, state.transaction())
            &&& recorded.error == Some(
                ArtifactError::InsufficientBalance {
                    available: available_balance,
                    required: spec_penalty_payment(),
                },
            )
            &&& recorded.consumed == Gas(0)
            &&& recorded.effects.len() == 0
            &&& recorded.settlement is None
            &&& next matches Next::Continue(after, _) ==> {
                &&& after.state_root == state.state_root
                &&& after.artifacts.len() > state.index
                &&& after.artifacts[state.index as int] == recorded
                &&& after.artifacts.subrange(0, state.index as int) == state.artifacts
            }
            &&& next matches Next::Fatal(error) ==> error is TransactionConversion || error
                is FailedToComputeApprovalsChecksum
        }),
{
    let recorded = state.current.with_error(
        ArtifactError::InsufficientBalance {
            available: available_balance,
            required: spec_penalty_payment(),
        },
    );
    crate::contract_runtime::laws::lemma_finish_keeps(state, recorded, true);
    assert(state.block.transactions@.len() <= usize::MAX) by {
        vstd::std_specs::vec::axiom_spec_len(&state.block.transactions);
    }
    lemma_finishing_fails_only(state, recorded, true);
}

proof fn lemma_finishing_fails_only(state: ExecutorView, artifact: ArtifactView, finishing: bool)
    requires
        state.index <= state.block.transactions@.len(),
        finishing ==> state.index < state.block.transactions@.len(),
        state.block.transactions@.len() <= usize::MAX,
    ensures
        finishing ==> (state.finish_transaction(artifact) matches Next::Fatal(error) ==> error
            is TransactionConversion || error is FailedToComputeApprovalsChecksum),
        !finishing ==> (state.start_transaction() matches Next::Fatal(error) ==> error
            is TransactionConversion || error is FailedToComputeApprovalsChecksum),
    decreases state.block.transactions@.len() - state.index, (if finishing { 0nat } else { 1nat }),
{
    if finishing {
        let next = ExecutorView {
            artifacts: state.artifacts.push(artifact),
            index: (state.index + 1) as usize,
            current: ArtifactView::new(artifact.transaction_hash, artifact.initiator),
            ..state
        };
        lemma_finishing_fails_only(next, artifact, false);
    } else {
        if state.index < state.block.transactions@.len() {
            let transaction = state.transaction();
            let fresh = ArtifactView::new(transaction.hash, transaction.initiator);
            match spec_gas_limit(transaction, state.config) {
                Err(invalid) => {
                    lemma_finishing_fails_only(
                        state,
                        fresh.with_error(ArtifactError::InvalidTransaction(invalid)),
                        true,
                    );
                },
                Ok(limit) => {
                    match spec_gas_cost(limit, state.current_gas_price) {
                        Err(invalid) => {
                            lemma_finishing_fails_only(
                                state,
                                fresh.with_gas_limit(limit).with_error(
                                    ArtifactError::InvalidTransaction(invalid),
                                ),
                                true,
                            );
                        },
                        Ok(cost) => {},
                    }
                },
            }
        }
    }
}

/// Where the entry point of the contract invoked cannot be read, for want of the value or for
/// another failure, the initiator's account is penalized: the failure is put on record, and
/// the balance of the penalized account is read next. So it is where the transaction invokes
/// no contract by hash, whatever was read.
pub proof fn lemma_failed_lookup_penalizes(
    state: ExecutorView,
    result: crate::contract_runtime::protocol::EntryPointResult,
)
    requires
        state.stage == Stage::EntryPoint,
        state.transaction().contract_by_hash is None || result is ValueNotFound || result
            is Failure,
    ensures
        state.step(Response::EntryPoint(result)) matches Next::Continue(after, request) && {
            &&& after.stage == Stage::PostPaymentBalance
            &&& after.payer is PenalizedAccount
            &&& after.state_root == state.state_root
            &&& request == (crate::contract_runtime::protocol::Request::Balance {
                state_root: state.state_root,
                identifier: after.payer,
            })
            &&& state.current.error is None ==> (after.current.error matches Some(
                ArtifactError::Failed { operation, reason },
            ) && operation == Operation::PayerResolution && (
            state.transaction().contract_by_hash is None ==> reason
                == crate::contract_runtime::payer::spec_no_direct_address_reason()))
        },
{
}

} // verus!
