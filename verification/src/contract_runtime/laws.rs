//! What holds of the engine whatever global state and the virtual machine answer.

use crate::contract_runtime::artifact::{artifact_views, ArtifactView, Settlement};
use crate::contract_runtime::checksum::spec_execution_results_checksum;
use crate::contract_runtime::config::ChainConfig;
use crate::contract_runtime::error::{ArtifactError, BlockExecutionError};
use crate::contract_runtime::model::{spec_penalty_payment, ExecutorView, Next, Resume, Stage};
use crate::contract_runtime::operations::{spec_execute_finalized_block, Transition};
use crate::contract_runtime::protocol::{
    BalanceResult, BiddingResponse, EffectsResult, PaymentResponse, Request, Response,
    SessionResponse, WasmError,
};
use crate::contract_runtime::types::{ExecutableBlock, ExecutionPreState};
use crate::primitives::{BlockHash, Digest};
use vstd::prelude::*;

verus! {

/// The state root that a request is run against; flushing runs against none.
pub open spec fn spec_request_root(request: Request) -> Option<Digest> {
    match request {
        Request::BlockGlobal { state_root, .. } => Some(state_root),
        Request::HandleRefund { state_root, .. } => Some(state_root),
        Request::Balance { state_root, .. } => Some(state_root),
        Request::EntryPoint { state_root, .. } => Some(state_root),
        Request::CustomPayment { state_root, .. } => Some(state_root),
        Request::PenaltyTransfer { state_root, .. } => Some(state_root),
        Request::Transfer { state_root, .. } => Some(state_root),
        Request::Bidding { state_root, .. } => Some(state_root),
        Request::Session { state_root, .. } => Some(state_root),
        Request::BalanceHold { state_root, .. } => Some(state_root),
        Request::HandleFee { state_root, .. } => Some(state_root),
        Request::Commit { state_root } => Some(state_root),
        Request::DistributeFees { state_root, .. } => Some(state_root),
        Request::DistributeRewards { state_root, .. } => Some(state_root),
        Request::ForcedUndelegate { state_root, .. } => Some(state_root),
        Request::Step { state_root, .. } => Some(state_root),
        Request::EraValidators { state_root } => Some(state_root),
        Request::Prune { state_root } => Some(state_root),
        Request::WriteScratchToDb { state_root } => Some(state_root),
        Request::Flush => None,
        Request::ChecksumRegistryProof { state_root } => Some(state_root),
    }
}

/// What is asked of `next` by the laws of the machine: where it goes on or is done, its state
/// is one the machine can be in, and what it asks is run against the root it holds.
pub open spec fn spec_sound(next: Next) -> bool {
    match next {
        Next::Continue(state, request) => {
            &&& state.wf()
            &&& spec_request_root(request) matches Some(root) ==> root == state.state_root
        },
        Next::Fatal(_) => true,
        Next::Done(state, _) => state.wf(),
    }
}

/// What the laws need of a state between two handlers: all of well-formedness but what ties
/// the stage to the transaction in progress.
pub open spec fn spec_steady(state: ExecutorView) -> bool {
    &&& state.index <= state.block.transactions@.len()
    &&& state.artifacts.len() == state.index
    &&& state.current.conserves()
    &&& forall|i: int| 0 <= i < state.artifacts.len() ==> (#[trigger] state.artifacts[i]).conserves()
}

proof fn lemma_after_transactions(state: ExecutorView)
    requires
        spec_steady(state),
        state.index == state.block.transactions@.len(),
    ensures
        spec_sound(state.finish_transactions()),
        spec_sound(state.distribute()),
        spec_sound(state.end_era()),
        spec_sound(state.prune()),
        spec_sound(state.write()),
{
}

proof fn lemma_transactions(state: ExecutorView, artifact: ArtifactView, finishing: bool)
    requires
        spec_steady(state),
        finishing ==> artifact.conserves(),
    ensures
        finishing ==> spec_sound(state.finish_transaction(artifact)),
        !finishing ==> spec_sound(state.start_transaction()),
    decreases state.block.transactions@.len() - state.index, (if finishing { 0nat } else { 1nat }),
{
    if finishing {
        if state.index < state.block.transactions@.len() && state.index < usize::MAX {
            let next = ExecutorView {
                artifacts: state.artifacts.push(artifact),
                index: (state.index + 1) as usize,
                current: ArtifactView::new(artifact.transaction_hash, artifact.initiator),
                ..state
            };
            assert forall|i: int| 0 <= i < next.artifacts.len() implies (
            #[trigger] next.artifacts[i]).conserves() by {
                if i < state.artifacts.len() {
                    assert(next.artifacts[i] == state.artifacts[i]);
                }
            }
            lemma_transactions(next, artifact, false);
        }
    } else {
        if state.index >= state.block.transactions@.len() {
            lemma_after_transactions(state);
        } else {
            let transaction = state.transaction();
            let fresh = ArtifactView::new(transaction.hash, transaction.initiator);
            lemma_transactions(state, fresh, true);
            match crate::contract_runtime::gas::spec_gas_limit(transaction, state.config) {
                Err(invalid) => {
                    lemma_transactions(
                        state,
                        fresh.with_error(ArtifactError::InvalidTransaction(invalid)),
                        true,
                    );
                },
                Ok(limit) => {
                    match crate::contract_runtime::gas::spec_gas_cost(
                        limit,
                        state.current_gas_price,
                    ) {
                        Err(invalid) => {
                            lemma_transactions(
                                state,
                                fresh.with_gas_limit(limit).with_error(
                                    ArtifactError::InvalidTransaction(invalid),
                                ),
                                true,
                            );
                        },
                        Ok(cost) => {},
                    }
                },
            }
        }
    }
}

proof fn lemma_in_transaction(state: ExecutorView)
    requires
        spec_steady(state),
        state.index < state.block.transactions@.len(),
    ensures
        spec_sound(state.request_initial_balance()),
        spec_sound(state.resolve_payer()),
        spec_sound(state.request_post_payment_balance()),
        spec_sound(state.dispatch()),
        spec_sound(state.request_clear_holds()),
        spec_sound(state.settle_refund()),
        spec_sound(state.settle_fee()),
        spec_sound(state.request_fee()),
        spec_sound(state.after_fee()),
        forall|resume: Resume| resume != Resume::Checksums ==> spec_sound(#[trigger] state.resume(resume)),
{
    lemma_transactions(state, state.current, true);
    let settled = ExecutorView {
        current: state.current.with_settlement(
            Settlement::spec_of(state.current.cost, state.reported_refund),
        ),
        ..state
    };
    assert(spec_sound(state.settle_fee()));
    assert(spec_sound(state.settle_refund()));
}

/// A step from a state that the machine can be in leads to such a state, and what the machine
/// asks next is run against the state root it then holds. So the cost of every transaction
/// that was settled stays settled in balance: refund and fee make up the cost, and the refund
/// is no more than the cost.
pub proof fn lemma_step_is_sound(state: ExecutorView, response: Response)
    requires
        state.wf(),
    ensures
        spec_sound(state.step(response)),
{
    match (state.stage, response) {
        (Stage::BlockGlobal, Response::BlockGlobal(r)) => {
            match r {
                crate::contract_runtime::protocol::RootUpdate::Success { post_state_hash } => {
                    lemma_transactions(
                        ExecutorView { state_root: post_state_hash, ..state },
                        state.current,
                        false,
                    );
                },
                _ => {},
            }
        },
        (Stage::SetRefundPurse, Response::HandleRefund(r)) => {
            match r {
                crate::contract_runtime::protocol::HandleRefundResult::Failure(reason) => {
                    lemma_transactions(
                        state,
                        state.current.with_error(
                            ArtifactError::Failed {
                                operation: crate::contract_runtime::error::Operation::SetRefundPurse,
                                reason,
                            },
                        ),
                        true,
                    );
                },
                _ => {},
            }
        },
        (Stage::InitialBalance, Response::Balance(r)) => {
            lemma_in_transaction(state);
            match r {
                BalanceResult::Failure(reason) => {
                    lemma_transactions(
                        state,
                        state.current.with_error(
                            ArtifactError::Failed {
                                operation: crate::contract_runtime::error::Operation::InitialBalance,
                                reason,
                            },
                        ),
                        true,
                    );
                },
                BalanceResult::Success { available_balance, .. } => {
                    lemma_transactions(
                        state,
                        state.current.with_error(
                            ArtifactError::InsufficientBalance {
                                available: available_balance,
                                required: spec_penalty_payment(),
                            },
                        ),
                        true,
                    );
                },
                _ => {},
            }
        },
        (Stage::EntryPoint, Response::EntryPoint(r)) => {
            let transaction = state.transaction();
            match crate::contract_runtime::payer::spec_invoked_contract_will_pay(transaction, r) {
                Ok(Some(entity)) => {
                    lemma_in_transaction(
                        ExecutorView {
                            payer: crate::contract_runtime::types::BalanceIdentifier::Entity(
                                entity,
                            ),
                            ..state
                        },
                    );
                },
                _ => {},
            }
        },
        (Stage::CustomPayment, Response::CustomPayment(r)) => {},
        (Stage::PenaltyTransfer, Response::PenaltyTransfer(r)) => {},
        (Stage::PostPaymentBalance, Response::Balance(r)) => {
            lemma_in_transaction(state);
        },
        (Stage::ProcessingHold, Response::BalanceHold(r)) => {},
        (Stage::Transfer, Response::Transfer(r)) => {},
        (Stage::Bidding, Response::Bidding(r)) => {},
        (Stage::Session, Response::Session(r)) => {},
        (Stage::ClearHolds, Response::BalanceHold(r)) => {},
        (Stage::Refund, Response::HandleRefund(r)) => {},
        (Stage::GasHold, Response::BalanceHold(r)) => {},
        (Stage::Fee, Response::HandleFee(r)) => {},
        (Stage::ClearRefundPurse, Response::HandleRefund(r)) => {},
        (Stage::Commit(resume), Response::Commit(r)) => {
            match r {
                crate::contract_runtime::protocol::StoreResult::Success { post_state_hash } => {
                    if resume == Resume::Checksums {
                        lemma_after_transactions(
                            ExecutorView { pending: Seq::empty(), ..state },
                        );
                    } else {
                        lemma_in_transaction(
                            ExecutorView {
                                state_root: post_state_hash,
                                current: state.current.record(
                                    state.held,
                                    state.pending,
                                    state.pending_messages,
                                ),
                                held: crate::contract_runtime::protocol::Held::spec_nothing(),
                                pending: Seq::empty(),
                                pending_messages: Seq::empty(),
                                ..state
                            },
                        );
                    }
                },
                _ => {},
            }
        },
        (Stage::DistributeFees, Response::DistributeFees(r)) => {},
        (Stage::DistributeRewards, Response::DistributeRewards(r)) => {
            match r {
                crate::contract_runtime::protocol::RootUpdate::Success { post_state_hash } => {
                    lemma_after_transactions(
                        ExecutorView { state_root: post_state_hash, ..state },
                    );
                },
                _ => {},
            }
        },
        (Stage::ForcedUndelegate, Response::ForcedUndelegate(r)) => {},
        (Stage::Step, Response::Step(r)) => {},
        (Stage::EraValidators, Response::EraValidators(r)) => {
            match r {
                crate::contract_runtime::protocol::EraValidatorsResult::Success {
                    era_validators,
                } => {
                    match state.step_effects {
                        Some(step_effects) => {
                            lemma_after_transactions(
                                ExecutorView {
                                    step_effects: None,
                                    step_outcome: Some(
                                        crate::contract_runtime::types::StepOutcome {
                                            upcoming_era_validators: era_validators,
                                            step_effects,
                                        },
                                    ),
                                    ..state
                                },
                            );
                        },
                        None => {},
                    }
                },
                _ => {},
            }
        },
        (Stage::Prune, Response::Prune(r)) => {
            lemma_after_transactions(state);
            match r {
                crate::contract_runtime::protocol::PruneResult::Success { post_state_hash } => {
                    lemma_after_transactions(
                        ExecutorView { state_root: post_state_hash, ..state },
                    );
                },
                _ => {},
            }
        },
        (Stage::WriteScratchToDb, Response::WriteScratchToDb(r)) => {},
        (Stage::Flush, Response::Flush(r)) => {},
        (Stage::ChecksumRegistryProof, Response::ChecksumRegistryProof(r)) => {},
        _ => {},
    }
}

/// A block whose height is not the one the pre-state expects is refused with the
/// height-mismatch error, whatever else is given, and nothing is asked of global state.
pub proof fn lemma_height_guard(
    config: ChainConfig,
    provider_addressable_entity: bool,
    pre_state: ExecutionPreState,
    block: ExecutableBlock,
    key_block_height_for_activation_point: u64,
    current_gas_price: u8,
    next_era_gas_price: Option<u8>,
    last_switch_block_hash: Option<BlockHash>,
)
    requires
        block.height != pre_state.next_block_height,
    ensures
        spec_execute_finalized_block(
            config,
            provider_addressable_entity,
            pre_state,
            block,
            key_block_height_for_activation_point,
            current_gas_price,
            next_era_gas_price,
            last_switch_block_hash,
        ) == Next::Fatal(
            BlockExecutionError::WrongBlockHeight {
                executable_block: block,
                execution_pre_state: pre_state,
            },
        ),
{
}

/// A block of the expected height that carries an era report is refused with the gas-price
/// error where no gas price for the next era is given, before any transaction is processed.
pub proof fn lemma_switch_block_guard(
    config: ChainConfig,
    provider_addressable_entity: bool,
    pre_state: ExecutionPreState,
    block: ExecutableBlock,
    key_block_height_for_activation_point: u64,
    current_gas_price: u8,
    last_switch_block_hash: Option<BlockHash>,
)
    requires
        block.height == pre_state.next_block_height,
        block.era_report is Some,
    ensures
        spec_execute_finalized_block(
            config,
            provider_addressable_entity,
            pre_state,
            block,
            key_block_height_for_activation_point,
            current_gas_price,
            None,
            last_switch_block_hash,
        ) == Next::Fatal(
            BlockExecutionError::FailedToGetNewEraGasPrice {
                era_id: block.era_id.spec_successor(),
            },
        ),
{
}

/// The machine starts in a state it can be in, with the pre-state's root as its root and no
/// artifact.
pub proof fn lemma_start_is_sound(
    config: ChainConfig,
    provider_addressable_entity: bool,
    pre_state: ExecutionPreState,
    block: ExecutableBlock,
    key_block_height_for_activation_point: u64,
    current_gas_price: u8,
    next_era_gas_price: Option<u8>,
    last_switch_block_hash: Option<BlockHash>,
)
    ensures
        spec_sound(
            spec_execute_finalized_block(
                config,
                provider_addressable_entity,
                pre_state,
                block,
                key_block_height_for_activation_point,
                current_gas_price,
                next_era_gas_price,
                last_switch_block_hash,
            ),
        ),
        spec_execute_finalized_block(
            config,
            provider_addressable_entity,
            pre_state,
            block,
            key_block_height_for_activation_point,
            current_gas_price,
            next_era_gas_price,
            last_switch_block_hash,
        ) matches Next::Continue(state, _) ==> state.state_root == pre_state.pre_state_root_hash
            && state.artifacts.len() == 0,
{
}

/// The outcome of executing a block for given answers: the state after as many steps as there
/// are answers, or the error or final state that ended the execution before.
pub open spec fn spec_run(start: Next, answers: Seq<Response>) -> Next
    decreases answers.len(),
{
    if answers.len() == 0 {
        start
    } else {
        match spec_run(start, answers.drop_last()) {
            Next::Continue(state, _) => state.step(answers.last()),
            ended => ended,
        }
    }
}

/// Executing is deterministic: the same block, state, configuration and prices, with the same
/// answers from global state and the virtual machine, come to the same outcome, and so to the
/// same state root and the same execution results.
pub proof fn lemma_execution_is_deterministic(
    first: Next,
    second: Next,
    first_answers: Seq<Response>,
    second_answers: Seq<Response>,
)
    requires
        first == second,
        first_answers == second_answers,
    ensures
        spec_run(first, first_answers) == spec_run(second, second_answers),
{
}

/// Two engines that stand where the machine stands agree: they go on in the same state with
/// the same request, fail with the same error, or hand back blocks with the same state root,
/// the same execution results with the same checksum, and the same outcome of the step. With
/// the contracts of the engine, which tie each of its steps to the machine, this is what makes
/// any two executions of one block on the same answers equal.
pub proof fn lemma_engines_agree(first: Transition, second: Transition, next: Next)
    requires
        first.refines(next),
        second.refines(next),
    ensures
        match (first, second) {
            (Transition::Continue(one, asked), Transition::Continue(other, asked_again)) => {
                &&& one@ == other@
                &&& asked == asked_again
            },
            (Transition::Fatal(error), Transition::Fatal(again)) => error == again,
            (Transition::Done(output), Transition::Done(again)) => {
                &&& output.block.state_root_hash == again.block.state_root_hash
                &&& artifact_views(output.execution_artifacts@) == artifact_views(
                    again.execution_artifacts@,
                )
                &&& spec_execution_results_checksum(artifact_views(output.execution_artifacts@))
                    == spec_execution_results_checksum(artifact_views(again.execution_artifacts@))
                &&& output.approvals_hashes.approvals_hashes@ == again.approvals_hashes.approvals_hashes@
                &&& output.step_outcome == again.step_outcome
            },
            _ => false,
        },
{
}

/// Every state reached by running the machine is one it can be in.
pub proof fn lemma_run_is_sound(start: Next, answers: Seq<Response>)
    requires
        spec_sound(start),
    ensures
        spec_sound(spec_run(start, answers)),
    decreases answers.len(),
{
    if answers.len() > 0 {
        lemma_run_is_sound(start, answers.drop_last());
        match spec_run(start, answers.drop_last()) {
            Next::Continue(state, _) => {
                lemma_step_is_sound(state, answers.last());
            },
            _ => {},
        }
    }
}

/// An initiator whose balance does not cover the penalty payment has its transaction ended
/// with that error on record, and the state root is left as it was.
pub proof fn lemma_insufficient_balance_leaves_the_root(
    state: ExecutorView,
    total_balance: crate::primitives::Motes,
    available_balance: crate::primitives::Motes,
)
    requires
        state.wf(),
        state.stage == Stage::InitialBalance,
        available_balance.0 < spec_penalty_payment().0,
    ensures
        ({
            let next = state.step(
                Response::Balance(BalanceResult::Success { total_balance, available_balance }),
            );
            let recorded = state.current.with_error(
                ArtifactError::InsufficientBalance {
                    available: available_balance,
                    required: spec_penalty_payment(),
                },
            );
            &&& next == state.finish_transaction(recorded)
            &&& recorded.effects == state.current.effects
            &&& next matches Next::Continue(after, _) ==> {
                &&& after.state_root == state.state_root
                &&& after.artifacts.len() > state.index
                &&& after.artifacts[state.index as int] == recorded
            }
        }),
{
    let recorded = state.current.with_error(
        ArtifactError::InsufficientBalance {
            available: available_balance,
            required: spec_penalty_payment(),
        },
    );
    lemma_finish_keeps(state, recorded, true);
}

/// Finishing a transaction, and starting the next, changes neither the state root nor the
/// artifacts that are there, and the artifact finished is the next among them.
pub proof fn lemma_finish_keeps(state: ExecutorView, artifact: ArtifactView, finishing: bool)
    requires
        state.artifacts.len() == state.index,
    ensures
        finishing ==> (state.finish_transaction(artifact) matches Next::Continue(after, _) ==> {
            &&& after.state_root == state.state_root
            &&& after.artifacts.len() > state.index
            &&& after.artifacts[state.index as int] == artifact
            &&& after.artifacts.subrange(0, state.index as int) == state.artifacts
        }),
        !finishing ==> (state.start_transaction() matches Next::Continue(after, _) ==> {
            &&& after.state_root == state.state_root
            &&& after.artifacts.len() >= state.index
            &&& after.artifacts.subrange(0, state.index as int) == state.artifacts
        }),
    decreases state.block.transactions@.len() - state.index, (if finishing { 0nat } else { 1nat }),
{
    if finishing {
        if state.index < state.block.transactions@.len() && state.index < usize::MAX {
            let next = ExecutorView {
                artifacts: state.artifacts.push(artifact),
                index: (state.index + 1) as usize,
                current: ArtifactView::new(artifact.transaction_hash, artifact.initiator),
                ..state
            };
            lemma_finish_keeps(next, artifact, false);
            match next.start_transaction() {
                Next::Continue(after, _) => {
                    assert(after.artifacts.subrange(0, next.index as int) == next.artifacts);
                    assert(after.artifacts[state.index as int] == after.artifacts.subrange(
                        0,
                        next.index as int,
                    )[state.index as int]);
                    assert(after.artifacts.subrange(0, state.index as int) =~= state.artifacts);
                },
                _ => {},
            }
        }
    } else {
        if state.index >= state.block.transactions@.len() {
            assert(state.artifacts.subrange(0, state.index as int) =~= state.artifacts);
        } else {
            let transaction = state.transaction();
            let fresh = ArtifactView::new(transaction.hash, transaction.initiator);
            assert(state.artifacts.subrange(0, state.index as int) =~= state.artifacts);
            match crate::contract_runtime::gas::spec_gas_limit(transaction, state.config) {
                Err(invalid) => {
                    lemma_finish_keeps(
                        state,
                        fresh.with_error(ArtifactError::InvalidTransaction(invalid)),
                        true,
                    );
                },
                Ok(limit) => {
                    match crate::contract_runtime::gas::spec_gas_cost(
                        limit,
                        state.current_gas_price,
                    ) {
                        Err(invalid) => {
                            lemma_finish_keeps(
                                state,
                                fresh.with_gas_limit(limit).with_error(
                                    ArtifactError::InvalidTransaction(invalid),
                                ),
                                true,
                            );
                        },
                        Ok(cost) => {},
                    }
                },
            }
        }
    }
}

/// Nothing is pruned after the first two blocks of the chain, whatever the configuration: a
/// previous block of height zero never has pruning follow it.
pub proof fn lemma_no_pruning_early(state: ExecutorView)
    requires
        state.block.height <= 1,
    ensures
        state.prune_eras() is None,
        state.prune() == state.write(),
{
}

/// Whether the answer says that global state has no such root.
pub open spec fn spec_reports_no_root(response: Response) -> bool {
    match response {
        Response::BlockGlobal(r) => r is RootNotFound,
        Response::HandleRefund(r) => r is RootNotFound,
        Response::Balance(r) => r is RootNotFound,
        Response::EntryPoint(r) => r is RootNotFound,
        Response::CustomPayment(PaymentResponse::Ran(run)) => run.error == Some(
            WasmError::RootNotFound,
        ),
        Response::CustomPayment(_) => false,
        Response::PenaltyTransfer(r) => r is RootNotFound,
        Response::Transfer(r) => r is RootNotFound,
        Response::Bidding(BiddingResponse::Ran(r)) => r is RootNotFound,
        Response::Bidding(_) => false,
        Response::Session(SessionResponse::Ran(run)) => run.error == Some(WasmError::RootNotFound),
        Response::Session(_) => false,
        Response::BalanceHold(r) => r is RootNotFound,
        Response::HandleFee(r) => r is RootNotFound,
        Response::Commit(_) => false,
        Response::DistributeFees(r) => r is RootNotFound,
        Response::DistributeRewards(r) => r is RootNotFound,
        Response::ForcedUndelegate(r) => r is RootNotFound,
        Response::Step(r) => r is RootNotFound,
        Response::EraValidators(r) => r is RootNotFound,
        Response::Prune(r) => r is RootNotFound,
        Response::WriteScratchToDb(_) => false,
        Response::Flush(_) => false,
        Response::ChecksumRegistryProof(r) => r is RootNotFound,
    }
}

/// An answer that global state has no such root ends the execution at once, at whatever
/// stage it comes: with the root that was asked for, unless the answer is of a kind that the
/// stage does not await.
pub proof fn lemma_a_missing_root_is_fatal(state: ExecutorView, response: Response)
    requires
        state.wf(),
        spec_reports_no_root(response),
    ensures
        state.step(response) == Next::Fatal(BlockExecutionError::RootNotFound(state.state_root))
            || state.step(response) == Next::Fatal(BlockExecutionError::UnexpectedResponse),
{
}

} // verus!
