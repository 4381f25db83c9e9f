//! Executing one transaction against the state of a block that is there already, without
//! committing anything: what read-only nodes offer for discovery.

use crate::contract_runtime::config::ChainConfig;
use crate::contract_runtime::gas::{gas_limit, spec_gas_limit};
use crate::contract_runtime::protocol::{EffectsResult, SessionResponse, WasmError, WasmResult};
use crate::contract_runtime::types::{Effects, Message, Transaction, TransformView};
use crate::primitives::{BlockHash, Digest, Gas, Timestamp, TransactionHash};
use vstd::prelude::*;

verus! {

/// What speculative execution reads of the header of the block it runs against.
#[derive(Clone, Copy, Debug, PartialEq, Eq)]
pub struct BlockHeader {
    pub block_hash: BlockHash,
    pub state_root_hash: Digest,
    pub height: u64,
    pub timestamp: Timestamp,
}

/// What is to be run for a speculative execution.
#[derive(Clone, Copy, Debug, PartialEq, Eq)]
pub enum SpeculativeRequest {
    /// The native transfer of the transaction; `limit` is what a transfer costs.
    Transfer { state_root: Digest, limit: Gas },
    /// The session of the transaction, in the virtual machine.
    Session {
        state_root: Digest,
        block_time: u64,
        parent_block_hash: BlockHash,
        block_height: u64,
        gas_limit: Gas,
    },
}

/// What a speculative execution starts with: its result, where nothing needs to be run, else
/// what is to be run.
#[derive(Clone, Debug, PartialEq, Eq)]
pub enum SpeculativeStart {
    /// The transaction could not be read.
    InvalidTransaction(String),
    /// The transaction has no gas limit.
    InvalidGasLimit(TransactionHash),
    /// The transaction is of the form that is not executed speculatively.
    ReceivedV1Transaction,
    /// The request is to be run and its answer given to [`speculative_result`].
    Run(SpeculativeRequest),
}

/// The answer to a [`SpeculativeRequest`].
#[derive(Clone, Debug, PartialEq, Eq)]
pub enum SpeculativeResponse {
    Transfer(EffectsResult),
    Session(SessionResponse),
}

/// What a run came to.
#[derive(Clone, Debug, PartialEq, Eq)]
pub struct SpeculativeOutcome {
    /// The block against whose state the transaction was run.
    pub block_hash: BlockHash,
    pub limit: Gas,
    pub consumed: Gas,
    pub effects: Effects,
    pub messages: Vec<Message>,
    /// Why the run failed, where it did.
    pub error: Option<SpeculativeError>,
}

/// Why a speculative run failed.
#[derive(Clone, Debug, PartialEq, Eq)]
pub enum SpeculativeError {
    /// Global state has no such root.
    RootNotFound,
    /// No request could be made of the transaction.
    InvalidRequest(String),
    /// Any other reason.
    Failed(String),
    /// The answer given does not answer the request.
    UnexpectedResponse,
}

/// The result of a speculative execution.
#[derive(Clone, Debug, PartialEq, Eq)]
pub enum SpeculativeExecutionResult {
    InvalidTransaction(String),
    InvalidGasLimit(TransactionHash),
    ReceivedV1Transaction,
    WasmV1(SpeculativeOutcome),
}

/// The time at which a speculative run takes place: the block's time and the least time
/// between blocks, or the last instant there is.
pub open spec fn spec_speculative_block_time(header: BlockHeader, config: ChainConfig) -> u64 {
    if header.timestamp.0 + config.minimum_block_time.0 > u64::MAX {
        u64::MAX
    } else {
        (header.timestamp.0 + config.minimum_block_time.0) as u64
    }
}

/// How the speculative execution of `transaction` against the block of `header` starts.
///
/// A transaction that cannot be read, or has no gas limit, is refused. One of the legacy form
/// is run: a native one as a transfer, limited to what a transfer costs, any other as a session
/// in the virtual machine, with the block run against as its parent. Any other transaction is
/// not executed speculatively.
pub open spec fn spec_speculatively_execute(
    config: ChainConfig,
    header: BlockHeader,
    transaction: Transaction,
) -> SpeculativeStart {
    match transaction.conversion_error {
        Some(reason) => SpeculativeStart::InvalidTransaction(reason),
        None => match spec_gas_limit(transaction, config) {
            Err(_) => SpeculativeStart::InvalidGasLimit(transaction.hash),
            Ok(gas_limit) => {
                if !transaction.is_deploy {
                    SpeculativeStart::ReceivedV1Transaction
                } else if transaction.is_native {
                    SpeculativeStart::Run(
                        SpeculativeRequest::Transfer {
                            state_root: header.state_root_hash,
                            limit: Gas(config.system_costs@.mint_costs.transfer as u128),
                        },
                    )
                } else {
                    SpeculativeStart::Run(
                        SpeculativeRequest::Session {
                            state_root: header.state_root_hash,
                            block_time: spec_speculative_block_time(header, config),
                            parent_block_hash: header.block_hash,
                            block_height: header.height,
                            gas_limit,
                        },
                    )
                }
            },
        },
    }
}

/// Starts to execute `transaction` against the block of `header` without committing the
/// effects.
pub fn speculatively_execute(
    config: &ChainConfig,
    header: &BlockHeader,
    transaction: &Transaction,
) -> (start: SpeculativeStart)
    ensures
        start == spec_speculatively_execute(*config, *header, *transaction),
{
    match &transaction.conversion_error {
        Some(reason) => {
            return SpeculativeStart::InvalidTransaction(reason.clone());
        },
        None => {},
    }
    let gas_limit: Gas = match gas_limit(transaction, config) {
        Ok(gas_limit) => gas_limit,
        Err(_) => {
            return SpeculativeStart::InvalidGasLimit(transaction.hash);
        },
    };
    if !transaction.is_deploy {
        SpeculativeStart::ReceivedV1Transaction
    } else if transaction.is_native {
        SpeculativeStart::Run(
            SpeculativeRequest::Transfer {
                state_root: header.state_root_hash,
                limit: Gas(config.system_costs.mint_costs().transfer as u128),
            },
        )
    } else {
        SpeculativeStart::Run(
            SpeculativeRequest::Session {
                state_root: header.state_root_hash,
                block_time: header.timestamp.saturating_add(config.minimum_block_time).0,
                parent_block_hash: header.block_hash,
                block_height: header.height,
                gas_limit,
            },
        )
    }
}

/// The limit that a request runs under.
pub open spec fn spec_request_limit(request: SpeculativeRequest) -> Gas {
    match request {
        SpeculativeRequest::Transfer { limit, .. } => limit,
        SpeculativeRequest::Session { gas_limit, .. } => gas_limit,
    }
}

/// What a transfer came to: it consumes its whole limit and emits no message.
pub fn outcome_of_transfer(limit: Gas, result: EffectsResult, block_hash: BlockHash) -> (r:
    SpeculativeOutcome)
    ensures
        r.block_hash == block_hash,
        r.limit == limit,
        r.consumed == limit,
        r.effects@ == result.spec_effects(),
        r.messages@ == Seq::<Message>::empty(),
        r.error == match result {
            EffectsResult::RootNotFound => Some(SpeculativeError::RootNotFound),
            EffectsResult::Failure(reason) => Some(SpeculativeError::Failed(reason)),
            EffectsResult::Success { .. } => None,
        },
{
    match result {
        EffectsResult::RootNotFound => SpeculativeOutcome {
            block_hash,
            limit,
            consumed: limit,
            effects: Effects::new(),
            messages: Vec::new(),
            error: Some(SpeculativeError::RootNotFound),
        },
        EffectsResult::Failure(reason) => SpeculativeOutcome {
            block_hash,
            limit,
            consumed: limit,
            effects: Effects::new(),
            messages: Vec::new(),
            error: Some(SpeculativeError::Failed(reason)),
        },
        EffectsResult::Success { effects } => SpeculativeOutcome {
            block_hash,
            limit,
            consumed: limit,
            effects,
            messages: Vec::new(),
            error: None,
        },
    }
}

/// What a run in the virtual machine came to: it consumes what the machine reports.
pub fn outcome_of_session(limit: Gas, result: WasmResult, block_hash: BlockHash) -> (r:
    SpeculativeOutcome)
    ensures
        r.block_hash == block_hash,
        r.limit == limit,
        r.consumed == result.consumed,
        r.effects == result.effects,
        r.messages == result.messages,
        r.error == match result.error {
            Some(WasmError::RootNotFound) => Some(SpeculativeError::RootNotFound),
            Some(WasmError::Other(reason)) => Some(SpeculativeError::Failed(reason)),
            None => None,
        },
{
    let WasmResult { effects, messages, consumed, error } = result;
    SpeculativeOutcome {
        block_hash,
        limit,
        consumed,
        effects,
        messages,
        error: match error {
            Some(WasmError::RootNotFound) => Some(SpeculativeError::RootNotFound),
            Some(WasmError::Other(reason)) => Some(SpeculativeError::Failed(reason)),
            None => None,
        },
    }
}

/// The result of a speculative execution, given the answer to its request. A session that no
/// request could be made of consumes nothing; an answer of the wrong kind is an error of the
/// run.
pub fn speculative_result(
    request: SpeculativeRequest,
    block_hash: BlockHash,
    response: SpeculativeResponse,
) -> (result: SpeculativeExecutionResult)
    ensures
        result matches SpeculativeExecutionResult::WasmV1(outcome) && outcome.block_hash
            == block_hash && outcome.limit == spec_request_limit(request),
        match (request, response) {
            (SpeculativeRequest::Transfer { limit, .. }, SpeculativeResponse::Transfer(answer)) => {
                &&& result->WasmV1_0.consumed == limit
                &&& result->WasmV1_0.effects@ == answer.spec_effects()
                &&& result->WasmV1_0.messages@ == Seq::<Message>::empty()
                &&& result->WasmV1_0.error == match answer {
                    EffectsResult::RootNotFound => Some(SpeculativeError::RootNotFound),
                    EffectsResult::Failure(reason) => Some(SpeculativeError::Failed(reason)),
                    EffectsResult::Success { .. } => None,
                }
            },
            (
                SpeculativeRequest::Session { .. },
                SpeculativeResponse::Session(SessionResponse::Ran(answer)),
            ) => {
                &&& result->WasmV1_0.consumed == answer.consumed
                &&& result->WasmV1_0.effects == answer.effects
                &&& result->WasmV1_0.messages == answer.messages
                &&& result->WasmV1_0.error == match answer.error {
                    Some(WasmError::RootNotFound) => Some(SpeculativeError::RootNotFound),
                    Some(WasmError::Other(reason)) => Some(SpeculativeError::Failed(reason)),
                    None => None,
                }
            },
            (
                SpeculativeRequest::Session { .. },
                SpeculativeResponse::Session(SessionResponse::InvalidRequest(reason)),
            ) => {
                &&& result->WasmV1_0.consumed == Gas(0)
                &&& result->WasmV1_0.effects@ == Seq::<TransformView>::empty()
                &&& result->WasmV1_0.messages@ == Seq::<Message>::empty()
                &&& result->WasmV1_0.error == Some(SpeculativeError::InvalidRequest(reason))
            },
            _ => {
                &&& result->WasmV1_0.consumed == Gas(0)
                &&& result->WasmV1_0.effects@ == Seq::<TransformView>::empty()
                &&& result->WasmV1_0.messages@ == Seq::<Message>::empty()
                &&& result->WasmV1_0.error == Some(SpeculativeError::UnexpectedResponse)
            },
        },
{
    match (request, response) {
        (SpeculativeRequest::Transfer { limit, .. }, SpeculativeResponse::Transfer(answer)) => {
            SpeculativeExecutionResult::WasmV1(
                outcome_of_transfer(limit, answer, block_hash),
            )
        },
        (
            SpeculativeRequest::Session { gas_limit, .. },
            SpeculativeResponse::Session(SessionResponse::Ran(answer)),
        ) => SpeculativeExecutionResult::WasmV1(
            outcome_of_session(gas_limit, answer, block_hash),
        ),
        (
            SpeculativeRequest::Session { gas_limit, .. },
            SpeculativeResponse::Session(SessionResponse::InvalidRequest(reason)),
        ) => SpeculativeExecutionResult::WasmV1(
            SpeculativeOutcome {
                block_hash,
                limit: gas_limit,
                consumed: Gas(0),
                effects: Effects::new(),
                messages: Vec::new(),
                error: Some(SpeculativeError::InvalidRequest(reason)),
            },
        ),
        (request, _) => SpeculativeExecutionResult::WasmV1(
            SpeculativeOutcome {
                block_hash,
                limit: match request {
                    SpeculativeRequest::Transfer { limit, .. } => limit,
                    SpeculativeRequest::Session { gas_limit, .. } => gas_limit,
                },
                consumed: Gas(0),
                effects: Effects::new(),
                messages: Vec::new(),
                error: Some(SpeculativeError::UnexpectedResponse),
            },
        ),
    }
}

} // verus!
