use casper_node::bytesrepr::Error as BytesreprError;
use casper_node::chainspec::vm_config::SystemConfig;
use casper_node::contract_runtime::artifact::ExecutionArtifact;
use casper_node::contract_runtime::checksum::{
    compute_approvals_checksum, compute_execution_results_checksum,
};
use casper_node::contract_runtime::config::{
    ChainConfig, FeeHandling, Lane, Ratio, RefundHandling, MAX_PAYMENT_AMOUNT,
};
use casper_node::contract_runtime::error::{
    ArtifactError, BlockExecutionError, InvalidTransaction, Operation,
};
use casper_node::contract_runtime::model::{Resume, Stage};
use casper_node::contract_runtime::operations::{execute_finalized_block, BlockExecutor, Transition};
use casper_node::contract_runtime::protocol::{
    BalanceResult, BiddingResponse, EffectsResult, EntryPointResult, EraValidatorsResult,
    HandleFeeMode, HandleRefundMode, HandleRefundResult, HoldAction, PaymentResponse, ProofResult,
    PruneResult, Request, Response, RootUpdate, SessionResponse, StepResult, StoreResult,
    WasmError, WasmResult,
};
use casper_node::contract_runtime::types::{
    BalanceIdentifier, BlockAndExecutionArtifacts, Effects, EraReport, EraValidators,
    ExecutableBlock, ExecutionPreState, Message, PricingMode, RewardedSignatures, Rewards,
    Transaction, TransactionEntryPoint, TransactionMap, Transform, TransformKind,
    ValidatorWeights,
};
use casper_node::identity::{AccountHash, EntityAddr, InitiatorAddr, PublicKey};
use casper_node::primitives::{
    BlockHash, Digest, EraId, Gas, Motes, ProtocolVersion, TimeDiff, Timestamp, TransactionHash,
};

const GAS_PRICE: u8 = 3;

fn digest(byte: u8) -> Digest {
    Digest { bytes: [byte; 32] }
}

fn key(byte: u8) -> PublicKey {
    PublicKey::Ed25519([byte; 32])
}

fn config(refund_handling: RefundHandling, fee_handling: FeeHandling) -> ChainConfig {
    ChainConfig {
        protocol_version: ProtocolVersion { major: 2, minor: 0, patch: 0 },
        activation_point_era_id: EraId(10),
        prune_batch_size: 3,
        enable_addressable_entity: true,
        refund_handling,
        fee_handling,
        native_transfer_minimum_motes: 2_500_000_000,
        minimum_block_time: TimeDiff(4_096),
        system_costs: SystemConfig::default(),
        wasm_lanes: vec![
            Lane { id: 3, max_transaction_gas_limit: 1_000_000 },
            Lane { id: 4, max_transaction_gas_limit: 5_000_000 },
        ],
    }
}

fn default_config() -> ChainConfig {
    config(
        RefundHandling::Refund { refund_ratio: Ratio { numer: 1, denom: 2 } },
        FeeHandling::PayToProposer,
    )
}

fn transaction(byte: u8, lane_id: u8) -> Transaction {
    Transaction {
        hash: TransactionHash(digest(byte)),
        approvals_hash: digest(byte.wrapping_add(100)),
        initiator: InitiatorAddr::PublicKey(key(byte)),
        lane_id,
        pricing_mode: PricingMode::Fixed { gas_price_tolerance: 5, additional_computation_factor: 0 },
        entry_point: if lane_id == 0 {
            TransactionEntryPoint::Transfer
        } else if lane_id == 1 {
            TransactionEntryPoint::AddBid
        } else {
            TransactionEntryPoint::Call
        },
        standard_payment: true,
        contract_by_hash: None,
        is_deploy: false,
        is_native: lane_id < 2,
        conversion_error: None,
    }
}

fn block(height: u64, transactions: Vec<Transaction>) -> ExecutableBlock {
    ExecutableBlock {
        rewarded_signatures: RewardedSignatures { fields: vec![vec![0b1010_0000]] },
        timestamp: Timestamp(1_700_000_000_000),
        random_bit: true,
        era_report: None,
        era_id: EraId(7),
        height,
        proposer: key(200),
        transaction_map: TransactionMap {
            lanes: vec![(0, transactions.iter().map(|t| t.hash).collect())],
        },
        transactions,
        rewards: None,
    }
}

fn pre_state(height: u64) -> ExecutionPreState {
    ExecutionPreState::new(height, digest(1), BlockHash(digest(2)), digest(3))
}

fn effects(tag: u8) -> Effects {
    Effects {
        transforms: vec![Transform { key: vec![tag], kind: TransformKind::Write, value: vec![tag, tag] }],
    }
}

/// A state provider and virtual machine that keep a ledger of what they were asked.
struct Provider {
    /// The balance that every purse is reported to have.
    balance: u128,
    /// The refund that the payment handler reports.
    refund: Option<u128>,
    /// Whether the payment logic fails.
    payment_fails: bool,
    /// Whether invoked contracts pay for themselves.
    contract_pays: bool,
    /// The validators that the auction knows, with their weights.
    validators: Vec<(PublicKey, Motes)>,
    /// Whether the auction forgets the era that follows.
    forget_next_era: bool,
    /// Every request, in order.
    requests: Vec<Request>,
    /// The effects committed, in order.
    committed: Vec<Effects>,
    /// The validators that the step was asked to evict.
    evicted: Vec<PublicKey>,
    /// The eras that were pruned.
    pruned: Vec<u64>,
    /// The request, counted from zero, that is answered by `fail_with`.
    fail_at: Option<usize>,
    fail_with: Option<Response>,
}

impl Provider {
    fn new() -> Provider {
        Provider {
            balance: 1_000_000_000_000_000,
            refund: Some(0),
            payment_fails: false,
            contract_pays: false,
            validators: vec![
                (key(11), Motes(100)),
                (key(12), Motes(200)),
                (key(13), Motes(300)),
                (key(14), Motes(400)),
                (key(15), Motes(500)),
            ],
            forget_next_era: false,
            requests: Vec::new(),
            committed: Vec::new(),
            evicted: Vec::new(),
            pruned: Vec::new(),
            fail_at: None,
            fail_with: None,
        }
    }

    fn root_after(root: Digest, effects: &Effects) -> Digest {
        let mut bytes = root.bytes.to_vec();
        for transform in &effects.transforms {
            bytes.extend_from_slice(&transform.key);
            bytes.extend_from_slice(&transform.value);
        }
        Digest::hash(&bytes)
    }

    fn answer(&mut self, engine: &BlockExecutor, request: Request) -> Response {
        let position = self.requests.len();
        self.requests.push(request);
        if self.fail_at == Some(position) {
            return self.fail_with.take().expect("a response to fail with");
        }
        match request {
            Request::BlockGlobal { state_root, block_time } => Response::BlockGlobal(
                RootUpdate::Success {
                    post_state_hash: Digest::hash_pair(&state_root, &digest(block_time as u8)),
                },
            ),
            Request::HandleRefund { mode, .. } => match mode {
                HandleRefundMode::SetRefundPurse { .. } => Response::HandleRefund(
                    HandleRefundResult::Success { effects: effects(30), amount: None },
                ),
                HandleRefundMode::ClearRefundPurse => Response::HandleRefund(
                    HandleRefundResult::Success { effects: effects(31), amount: None },
                ),
                _ => Response::HandleRefund(HandleRefundResult::Success {
                    effects: effects(32),
                    amount: self.refund.map(Motes),
                }),
            },
            Request::Balance { .. } => Response::Balance(BalanceResult::Success {
                total_balance: Motes(self.balance),
                available_balance: Motes(self.balance),
            }),
            Request::EntryPoint { .. } => Response::EntryPoint(EntryPointResult::Success {
                will_pay_direct_invocation: self.contract_pays,
            }),
            Request::CustomPayment { .. } => Response::CustomPayment(PaymentResponse::Ran(
                WasmResult {
                    effects: effects(40),
                    messages: vec![Message { payload: vec![9] }],
                    consumed: Gas(77),
                    error: if self.payment_fails {
                        Some(WasmError::Other("payment reverted".to_string()))
                    } else {
                        None
                    },
                },
            )),
            Request::PenaltyTransfer { .. } => {
                Response::PenaltyTransfer(EffectsResult::Success { effects: effects(41) })
            }
            Request::Transfer { .. } => {
                Response::Transfer(EffectsResult::Success { effects: effects(50) })
            }
            Request::Bidding { .. } => Response::Bidding(BiddingResponse::Ran(
                EffectsResult::Success { effects: effects(51) },
            )),
            Request::Session { gas_limit, .. } => Response::Session(SessionResponse::Ran(
                WasmResult {
                    effects: effects(52),
                    messages: vec![Message { payload: vec![1, 2, 3] }],
                    consumed: Gas(gas_limit.0 / 4),
                    error: None,
                },
            )),
            Request::BalanceHold { action, .. } => Response::BalanceHold(EffectsResult::Success {
                effects: match action {
                    HoldAction::Processing { .. } => effects(60),
                    HoldAction::Gas { .. } => effects(61),
                    HoldAction::ClearAll => Effects { transforms: Vec::new() },
                },
            }),
            Request::HandleFee { .. } => {
                Response::HandleFee(EffectsResult::Success { effects: effects(70) })
            }
            Request::Commit { state_root } => {
                self.committed.push(engine.pending_effects().clone());
                Response::Commit(StoreResult::Success { post_state_hash: state_root })
            }
            Request::DistributeFees { state_root, .. } => Response::DistributeFees(
                RootUpdate::Success { post_state_hash: Digest::hash_pair(&state_root, &digest(81)) },
            ),
            Request::DistributeRewards { state_root, .. } => Response::DistributeRewards(
                RootUpdate::Success { post_state_hash: Digest::hash_pair(&state_root, &digest(82)) },
            ),
            Request::ForcedUndelegate { state_root, .. } => Response::ForcedUndelegate(
                RootUpdate::Success { post_state_hash: Digest::hash_pair(&state_root, &digest(83)) },
            ),
            Request::Step { state_root, .. } => {
                let asked = engine.step_request().expect("a step is asked only at the end of an era");
                assert!(asked.slash_items.is_empty());
                self.evicted = asked.evict_items.clone();
                self.validators.retain(|(validator, _)| !asked.evict_items.contains(validator));
                Response::Step(StepResult::Success {
                    effects: effects(84),
                    post_state_hash: Digest::hash_pair(&state_root, &digest(84)),
                })
            }
            Request::EraValidators { .. } => {
                let next = engine.block().era_id.successor();
                let mut eras = vec![(
                    next.successor(),
                    ValidatorWeights { entries: self.validators.clone() },
                )];
                if !self.forget_next_era {
                    eras.insert(0, (next, ValidatorWeights { entries: self.validators.clone() }));
                }
                Response::EraValidators(EraValidatorsResult::Success {
                    era_validators: EraValidators { eras },
                })
            }
            Request::Prune { state_root } => {
                self.pruned = engine.prune_eras().expect("pruning is asked only for some eras");
                Response::Prune(PruneResult::Success {
                    post_state_hash: Digest::hash_pair(&state_root, &digest(85)),
                })
            }
            Request::WriteScratchToDb { state_root } => {
                let mut root = state_root;
                for effects in &self.committed {
                    root = Provider::root_after(root, effects);
                }
                Response::WriteScratchToDb(StoreResult::Success { post_state_hash: root })
            }
            Request::Flush => Response::Flush(StoreResult::Success { post_state_hash: digest(0) }),
            Request::ChecksumRegistryProof { .. } => {
                Response::ChecksumRegistryProof(ProofResult::Found { proof: vec![7, 7, 7] })
            }
        }
    }
}

fn run(
    provider: &mut Provider,
    config: ChainConfig,
    pre_state: ExecutionPreState,
    block: ExecutableBlock,
    next_era_gas_price: Option<u8>,
) -> Result<BlockAndExecutionArtifacts, BlockExecutionError> {
    let mut transition = execute_finalized_block(
        config,
        true,
        pre_state,
        block,
        2,
        GAS_PRICE,
        next_era_gas_price,
        Some(BlockHash(digest(5))),
    );
    loop {
        match transition {
            Transition::Continue(engine, request) => {
                if let Some(root) = request_root(&request) {
                    assert_eq!(root, engine.state_root());
                }
                let response = provider.answer(&engine, request);
                transition = engine.step(response);
            }
            Transition::Fatal(error) => return Err(error),
            Transition::Done(output) => return Ok(output),
        }
    }
}

fn request_root(request: &Request) -> Option<Digest> {
    match request {
        Request::BlockGlobal { state_root, .. }
        | Request::HandleRefund { state_root, .. }
        | Request::Balance { state_root, .. }
        | Request::EntryPoint { state_root, .. }
        | Request::CustomPayment { state_root, .. }
        | Request::PenaltyTransfer { state_root, .. }
        | Request::Transfer { state_root, .. }
        | Request::Bidding { state_root, .. }
        | Request::Session { state_root, .. }
        | Request::BalanceHold { state_root, .. }
        | Request::HandleFee { state_root, .. }
        | Request::Commit { state_root }
        | Request::DistributeFees { state_root, .. }
        | Request::DistributeRewards { state_root, .. }
        | Request::ForcedUndelegate { state_root, .. }
        | Request::Step { state_root, .. }
        | Request::EraValidators { state_root }
        | Request::Prune { state_root }
        | Request::WriteScratchToDb { state_root }
        | Request::ChecksumRegistryProof { state_root } => Some(*state_root),
        Request::Flush => None,
    }
}

fn failing(at: usize, with: Response) -> Provider {
    let mut provider = Provider::new();
    provider.fail_at = Some(at);
    provider.fail_with = Some(with);
    provider
}

fn run_default(provider: &mut Provider, transactions: Vec<Transaction>) -> Result<
    BlockAndExecutionArtifacts,
    BlockExecutionError,
> {
    run(provider, default_config(), pre_state(1), block(1, transactions), None)
}

#[test]
fn wrong_height_is_refused_before_anything_is_asked() {
    let mut provider = Provider::new();
    let result = run(&mut provider, default_config(), pre_state(5), block(6, vec![transaction(1, 0)]), None);
    assert_eq!(
        result,
        Err(BlockExecutionError::WrongBlockHeight {
            executable_block: block(6, vec![transaction(1, 0)]),
            execution_pre_state: pre_state(5),
        })
    );
    assert!(provider.requests.is_empty());
    assert!(provider.committed.is_empty());
}

#[test]
fn wrong_height_wins_over_the_other_guards() {
    let mut switch_block = block(6, vec![]);
    switch_block.era_report =
        Some(EraReport { equivocators: vec![], inactive_validators: vec![] });
    let transition = execute_finalized_block(
        default_config(),
        false,
        pre_state(5),
        switch_block.clone(),
        0,
        GAS_PRICE,
        None,
        None,
    );
    let Transition::Fatal(error) = transition else { panic!("the block should be refused") };
    assert_eq!(
        error,
        BlockExecutionError::WrongBlockHeight {
            executable_block: switch_block,
            execution_pre_state: pre_state(5),
        }
    );
}

#[test]
fn switch_block_without_next_era_gas_price_is_refused() {
    let mut provider = Provider::new();
    let mut switch_block = block(1, vec![transaction(1, 0)]);
    switch_block.era_report =
        Some(EraReport { equivocators: vec![key(11)], inactive_validators: vec![] });
    let result = run(&mut provider, default_config(), pre_state(1), switch_block, None);
    assert_eq!(
        result,
        Err(BlockExecutionError::FailedToGetNewEraGasPrice { era_id: EraId(8) })
    );
    assert!(provider.requests.is_empty());
}

#[test]
fn disagreement_on_addressable_entities_is_refused() {
    let transition = execute_finalized_block(
        default_config(),
        false,
        pre_state(1),
        block(1, vec![]),
        0,
        GAS_PRICE,
        None,
        None,
    );
    assert!(matches!(
        transition,
        Transition::Fatal(BlockExecutionError::InvalidAESetting(false))
    ));
}

#[test]
fn the_first_request_writes_the_block_time() {
    let transition = execute_finalized_block(
        default_config(),
        true,
        pre_state(1),
        block(1, vec![]),
        0,
        GAS_PRICE,
        None,
        None,
    );
    match transition {
        Transition::Continue(engine, request) => {
            assert_eq!(
                request,
                Request::BlockGlobal { state_root: digest(1), block_time: 1_700_000_000_000 }
            );
            assert_eq!(engine.stage(), Stage::BlockGlobal);
            assert_eq!(engine.state_root(), digest(1));
            assert!(engine.artifacts().is_empty());
        }
        _ => panic!("the engine should have started"),
    }
}

#[test]
fn native_transfer_consumes_its_limit_and_changes_the_root_by_its_effects() {
    let mut provider = Provider::new();
    let output = run_default(&mut provider, vec![transaction(1, 0)]).expect("should execute");

    assert_eq!(output.execution_artifacts.len(), 1);
    let artifact = &output.execution_artifacts[0];
    assert_eq!(artifact.transaction_hash, TransactionHash(digest(1)));
    assert_eq!(artifact.gas_limit, Gas(10_000));
    assert_eq!(artifact.consumed, artifact.gas_limit);
    assert_eq!(artifact.cost, Motes(30_000));
    assert_eq!(artifact.error, None);
    let settlement = artifact.settlement.expect("the cost should be settled");
    assert_eq!(settlement.refund, Motes(0));
    assert_eq!(settlement.fee, Motes(30_000));
    assert!(output.step_outcome.is_none());

    // The root is the one after the block time, changed by the effects committed: those of the
    // hold, the transfer, the refund and the fee, and the write of the checksum registry.
    let after_block_time = Digest::hash_pair(&digest(1), &digest(1_700_000_000_000u64 as u8));
    let mut expected = after_block_time;
    for committed in &provider.committed {
        expected = Provider::root_after(expected, committed);
    }
    assert_eq!(output.block.state_root_hash, expected);
    assert_ne!(output.block.state_root_hash, digest(1));
    assert_eq!(provider.committed.len(), 6);
    assert_eq!(provider.committed[1], effects(50));
    let registry = &provider.committed[5];
    assert_eq!(registry.transforms.len(), 1);
    assert_eq!(registry.transforms[0].kind, TransformKind::Write);

    // The artifact holds the effects in the order in which they were committed.
    let recorded: Vec<u8> = artifact.effects.transforms.iter().map(|t| t.key[0]).collect();
    assert_eq!(recorded, vec![60, 50, 32, 70]);
}

#[test]
fn requests_of_a_native_transfer_come_in_order() {
    let mut provider = Provider::new();
    run_default(&mut provider, vec![transaction(1, 0)]).expect("should execute");
    let kinds: Vec<&str> = provider
        .requests
        .iter()
        .map(|request| match request {
            Request::BlockGlobal { .. } => "block_global",
            Request::HandleRefund { .. } => "handle_refund",
            Request::Balance { .. } => "balance",
            Request::EntryPoint { .. } => "entry_point",
            Request::CustomPayment { .. } => "custom_payment",
            Request::PenaltyTransfer { .. } => "penalty_transfer",
            Request::Transfer { .. } => "transfer",
            Request::Bidding { .. } => "bidding",
            Request::Session { .. } => "session",
            Request::BalanceHold { .. } => "balance_hold",
            Request::HandleFee { .. } => "handle_fee",
            Request::Commit { .. } => "commit",
            Request::DistributeFees { .. } => "distribute_fees",
            Request::DistributeRewards { .. } => "distribute_rewards",
            Request::ForcedUndelegate { .. } => "forced_undelegate",
            Request::Step { .. } => "step",
            Request::EraValidators { .. } => "era_validators",
            Request::Prune { .. } => "prune",
            Request::WriteScratchToDb { .. } => "write",
            Request::Flush => "flush",
            Request::ChecksumRegistryProof { .. } => "proof",
        })
        .collect();
    assert_eq!(
        kinds,
        vec![
            "block_global",
            "balance",
            "balance",
            "balance_hold",
            "commit",
            "transfer",
            "commit",
            "balance_hold",
            "commit",
            "handle_refund",
            "commit",
            "handle_fee",
            "commit",
            "commit",
            "write",
            "flush",
            "proof",
        ]
    );
    assert_eq!(
        provider.requests[3],
        Request::BalanceHold {
            state_root: request_root(&provider.requests[3]).unwrap(),
            identifier: BalanceIdentifier::Public(key(1)),
            action: HoldAction::Processing { amount: Motes(30_000) },
        }
    );
    assert_eq!(
        provider.requests[7],
        Request::BalanceHold {
            state_root: request_root(&provider.requests[7]).unwrap(),
            identifier: BalanceIdentifier::Public(key(1)),
            action: HoldAction::ClearAll,
        }
    );
}

#[test]
fn insufficient_initial_balance_is_recorded_and_leaves_the_root() {
    let mut provider = Provider::new();
    provider.balance = MAX_PAYMENT_AMOUNT - 1;
    let output = run_default(&mut provider, vec![transaction(1, 0)]).expect("should execute");
    let artifact = &output.execution_artifacts[0];
    assert_eq!(
        artifact.error,
        Some(ArtifactError::InsufficientBalance {
            available: Motes(MAX_PAYMENT_AMOUNT - 1),
            required: Motes(MAX_PAYMENT_AMOUNT),
        })
    );
    assert_eq!(artifact.consumed, Gas(0));
    assert!(artifact.effects.transforms.is_empty());
    assert!(artifact.settlement.is_none());
    // Nothing of the transaction was committed: only the checksum registry was written.
    assert_eq!(provider.committed.len(), 1);
    // Block time, one balance, the registry, write, flush, proof.
    assert_eq!(provider.requests.len(), 6);
    let after_block_time = Digest::hash_pair(&digest(1), &digest(1_700_000_000_000u64 as u8));
    assert_eq!(request_root(&provider.requests[1]), Some(after_block_time));
    assert_eq!(request_root(&provider.requests[2]), Some(after_block_time));
}

#[test]
fn balance_at_the_penalty_floor_is_sufficient() {
    let mut provider = Provider::new();
    provider.balance = MAX_PAYMENT_AMOUNT;
    let output = run_default(&mut provider, vec![transaction(1, 0)]).expect("should execute");
    assert_eq!(output.execution_artifacts[0].error, None);
    assert_eq!(output.execution_artifacts[0].consumed, Gas(10_000));
}

#[test]
fn a_transaction_after_an_insufficient_one_is_still_executed() {
    // The second answer about a balance is the first of the second transaction.
    let mut provider = failing(
        1,
        Response::Balance(BalanceResult::Success {
            total_balance: Motes(5),
            available_balance: Motes(5),
        }),
    );
    let output = run_default(&mut provider, vec![transaction(1, 0), transaction(2, 0)])
        .expect("should execute");
    assert_eq!(output.execution_artifacts.len(), 2);
    assert!(matches!(
        output.execution_artifacts[0].error,
        Some(ArtifactError::InsufficientBalance { .. })
    ));
    assert_eq!(output.execution_artifacts[1].error, None);
    assert_eq!(output.execution_artifacts[1].transaction_hash, TransactionHash(digest(2)));
    assert_eq!(output.execution_artifacts[1].consumed, Gas(10_000));
}

#[test]
fn payer_without_the_cost_is_skipped_without_error() {
    // The second balance read is the one after payment.
    let mut provider = failing(
        2,
        Response::Balance(BalanceResult::Success {
            total_balance: Motes(29_999),
            available_balance: Motes(29_999),
        }),
    );
    let output = run_default(&mut provider, vec![transaction(1, 0)]).expect("should execute");
    let artifact = &output.execution_artifacts[0];
    assert_eq!(artifact.error, None);
    assert_eq!(artifact.consumed, Gas(0));
    assert!(provider.requests.iter().all(|request| !matches!(request, Request::Transfer { .. })));
    // The holds are cleared all the same, and the cost is settled.
    assert!(provider.requests.iter().any(|request| matches!(
        request,
        Request::BalanceHold { action: HoldAction::ClearAll, .. }
    )));
    assert!(artifact.settlement.is_some());
}

#[test]
fn unsupported_lane_is_skipped_without_error() {
    let mut provider = Provider::new();
    let mut unsupported = transaction(1, 9);
    unsupported.pricing_mode = PricingMode::PaymentLimited {
        payment_amount: 1_000,
        gas_price_tolerance: 5,
        standard_payment: true,
    };
    let output = run_default(&mut provider, vec![unsupported]).expect("should execute");
    let artifact = &output.execution_artifacts[0];
    assert_eq!(artifact.error, None);
    assert_eq!(artifact.gas_limit, Gas(1_000));
    assert_eq!(artifact.cost, Motes(3_000));
    assert_eq!(artifact.consumed, Gas(0));
    assert!(provider.requests.iter().all(|request| !matches!(request, Request::Session { .. })));
}

#[test]
fn invalid_transactions_are_recorded_and_nothing_is_asked_for_them() {
    let mut provider = Provider::new();
    let mut prepaid = transaction(1, 0);
    prepaid.pricing_mode = PricingMode::Prepaid { receipt: digest(9) };
    let mut call_in_auction = transaction(2, 1);
    call_in_auction.entry_point = TransactionEntryPoint::Call;
    let mut transfer_in_auction = transaction(3, 1);
    transfer_in_auction.entry_point = TransactionEntryPoint::Transfer;
    let no_lane = transaction(4, 9);
    let output = run_default(
        &mut provider,
        vec![prepaid, call_in_auction, transfer_in_auction, no_lane],
    )
    .expect("should execute");
    let errors: Vec<Option<ArtifactError>> =
        output.execution_artifacts.iter().map(|artifact| artifact.error.clone()).collect();
    assert_eq!(
        errors,
        vec![
            Some(ArtifactError::InvalidTransaction(InvalidTransaction::PricingModeNotSupported)),
            Some(ArtifactError::InvalidTransaction(InvalidTransaction::EntryPointCannotBeCall)),
            Some(ArtifactError::InvalidTransaction(InvalidTransaction::NoNativeCost)),
            Some(ArtifactError::InvalidTransaction(InvalidTransaction::NoLaneMatch)),
        ]
    );
    // Block time, the registry, write, flush, proof.
    assert_eq!(provider.requests.len(), 5);
    for artifact in &output.execution_artifacts {
        assert_eq!(artifact.cost, Motes(0));
        assert!(artifact.settlement.is_none());
    }
}

#[test]
fn malformed_transaction_is_fatal() {
    let mut provider = Provider::new();
    let mut conversion_error = transaction(2, 0);
    conversion_error.conversion_error = Some("cannot read transaction".to_string());
    let result = run_default(&mut provider, vec![transaction(1, 0), conversion_error]);
    assert_eq!(
        result,
        Err(BlockExecutionError::TransactionConversion("cannot read transaction".to_string()))
    );
}

#[test]
fn session_consumes_what_the_virtual_machine_reports() {
    let mut provider = Provider::new();
    let output = run_default(&mut provider, vec![transaction(1, 4)]).expect("should execute");
    let artifact = &output.execution_artifacts[0];
    assert_eq!(artifact.gas_limit, Gas(5_000_000));
    assert_eq!(artifact.cost, Motes(15_000_000));
    assert_eq!(artifact.consumed, Gas(1_250_000));
    assert_eq!(artifact.messages, vec![Message { payload: vec![1, 2, 3] }]);
    assert!(provider.requests.iter().any(|request| matches!(
        request,
        Request::Session { transaction: 0, gas_limit: Gas(5_000_000), .. }
    )));
}

#[test]
fn auction_lane_costs_what_its_entry_point_costs() {
    let mut provider = Provider::new();
    let output = run_default(&mut provider, vec![transaction(1, 1)]).expect("should execute");
    let artifact = &output.execution_artifacts[0];
    assert_eq!(artifact.gas_limit, Gas(2_500_000_000));
    assert_eq!(artifact.cost, Motes(7_500_000_000));
    assert_eq!(artifact.consumed, Gas(2_500_000_000));
    assert!(provider.requests.iter().any(|request| matches!(request, Request::Bidding { .. })));
}

#[test]
fn auction_method_that_cannot_be_read_is_recorded() {
    // Block time, balance, balance, hold, commit, bidding.
    let mut provider = failing(
        5,
        Response::Bidding(BiddingResponse::InvalidMethod("missing argument".to_string())),
    );
    let output = run_default(&mut provider, vec![transaction(1, 1)]).expect("should execute");
    let artifact = &output.execution_artifacts[0];
    assert_eq!(
        artifact.error,
        Some(ArtifactError::Failed {
            operation: Operation::AuctionMethod,
            reason: "missing argument".to_string(),
        })
    );
    assert_eq!(artifact.consumed, Gas(0));
}

#[test]
fn session_request_that_cannot_be_made_is_recorded() {
    let mut provider = failing(
        5,
        Response::Session(SessionResponse::InvalidRequest("no module bytes".to_string())),
    );
    let output = run_default(&mut provider, vec![transaction(1, 3)]).expect("should execute");
    let artifact = &output.execution_artifacts[0];
    assert_eq!(
        artifact.error,
        Some(ArtifactError::Failed {
            operation: Operation::SessionRequest,
            reason: "no module bytes".to_string(),
        })
    );
    assert_eq!(artifact.consumed, Gas(0));
}

#[test]
fn execution_error_is_recorded_and_the_block_goes_on() {
    let mut provider = failing(
        5,
        Response::Session(SessionResponse::Ran(WasmResult {
            effects: effects(52),
            messages: vec![],
            consumed: Gas(123),
            error: Some(WasmError::Other("out of gas".to_string())),
        })),
    );
    let output = run_default(&mut provider, vec![transaction(1, 3), transaction(2, 0)])
        .expect("should execute");
    assert_eq!(
        output.execution_artifacts[0].error,
        Some(ArtifactError::Failed {
            operation: Operation::Execution,
            reason: "out of gas".to_string(),
        })
    );
    assert_eq!(output.execution_artifacts[0].consumed, Gas(123));
    assert_eq!(output.execution_artifacts[1].error, None);
}

#[test]
fn only_the_first_error_is_kept() {
    let mut provider = failing(
        5,
        Response::Transfer(EffectsResult::Failure("transfer failed".to_string())),
    );
    provider.refund = None;
    let mut second = Provider::new();
    second.fail_at = Some(0);
    let output = run_default(&mut provider, vec![transaction(1, 0)]).expect("should execute");
    assert_eq!(
        output.execution_artifacts[0].error,
        Some(ArtifactError::Failed {
            operation: Operation::Transfer,
            reason: "transfer failed".to_string(),
        })
    );
    // A native transfer consumes its limit whether or not it succeeds.
    assert_eq!(output.execution_artifacts[0].consumed, Gas(10_000));
}

#[test]
fn contract_that_pays_for_itself_is_the_payer() {
    let mut provider = Provider::new();
    provider.contract_pays = true;
    let mut invocation = transaction(1, 3);
    invocation.contract_by_hash = Some([44; 32]);
    run_default(&mut provider, vec![invocation]).expect("should execute");
    assert_eq!(
        provider.requests[2],
        Request::EntryPoint {
            state_root: request_root(&provider.requests[2]).unwrap(),
            transaction: 0,
            contract: [44; 32],
        }
    );
    assert!(matches!(
        provider.requests[3],
        Request::Balance {
            identifier: BalanceIdentifier::Entity(EntityAddr::SmartContract(contract)),
            ..
        } if contract == [44; 32]
    ));
}

#[test]
fn contract_that_does_not_pay_leaves_the_initiator_to_pay() {
    let mut provider = Provider::new();
    let mut invocation = transaction(1, 3);
    invocation.contract_by_hash = Some([44; 32]);
    run_default(&mut provider, vec![invocation]).expect("should execute");
    assert!(matches!(
        provider.requests[3],
        Request::Balance { identifier: BalanceIdentifier::Public(payer), .. } if payer == key(1)
    ));
}

#[test]
fn entry_point_is_not_read_without_addressable_entities() {
    let mut provider = Provider::new();
    let mut invocation = transaction(1, 3);
    invocation.contract_by_hash = Some([44; 32]);
    let mut config = default_config();
    config.enable_addressable_entity = false;
    let mut transition = execute_finalized_block(
        config,
        false,
        pre_state(1),
        block(1, vec![invocation]),
        0,
        GAS_PRICE,
        None,
        None,
    );
    loop {
        match transition {
            Transition::Continue(engine, request) => {
                let response = provider.answer(&engine, request);
                transition = engine.step(response);
            }
            Transition::Fatal(error) => panic!("should execute: {:?}", error),
            Transition::Done(_) => break,
        }
    }
    assert!(provider
        .requests
        .iter()
        .all(|request| !matches!(request, Request::EntryPoint { .. })));
}

#[test]
fn unresolved_payer_penalizes_the_initiator_and_nothing_is_executed() {
    let mut provider = failing(
        2,
        Response::EntryPoint(EntryPointResult::ValueNotFound("no entry point".to_string())),
    );
    let mut invocation = transaction(1, 3);
    invocation.contract_by_hash = Some([44; 32]);
    let output = run_default(&mut provider, vec![invocation]).expect("should execute");
    let artifact = &output.execution_artifacts[0];
    assert_eq!(
        artifact.error,
        Some(ArtifactError::Failed {
            operation: Operation::PayerResolution,
            reason: "no entry point".to_string(),
        })
    );
    assert_eq!(artifact.consumed, Gas(0));
    let expected = key(1).to_account_hash();
    assert!(matches!(
        provider.requests[3],
        Request::Balance { identifier: BalanceIdentifier::PenalizedAccount(hash), .. }
            if hash == expected
    ));
    assert!(provider.requests.iter().all(|request| !matches!(request, Request::Session { .. })));
}

#[test]
fn custom_payment_sets_and_clears_the_refund_purse() {
    let mut provider = Provider::new();
    let mut custom = transaction(1, 3);
    custom.standard_payment = false;
    let output = run_default(&mut provider, vec![custom]).expect("should execute");
    let artifact = &output.execution_artifacts[0];
    assert_eq!(artifact.error, None);
    // What the payment logic consumed is added to what the session consumed.
    assert_eq!(artifact.consumed, Gas(77 + 250_000));
    assert_eq!(
        provider.requests[1],
        Request::HandleRefund {
            state_root: request_root(&provider.requests[1]).unwrap(),
            transaction: 0,
            mode: HandleRefundMode::SetRefundPurse { target: BalanceIdentifier::Public(key(1)) },
        }
    );
    assert!(matches!(
        provider.requests[4],
        Request::CustomPayment { transaction: 0, gas_limit: Gas(12_500_000_000), amount: Motes(3_000_000), .. }
    ));
    // With custom payment no processing hold is placed.
    assert!(provider.requests.iter().all(|request| !matches!(
        request,
        Request::BalanceHold { action: HoldAction::Processing { .. }, .. }
    )));
    // The refund is moved from the payment purse to the refund purse.
    assert!(provider.requests.iter().any(|request| matches!(
        request,
        Request::HandleRefund {
            mode: HandleRefundMode::Refund {
                source: BalanceIdentifier::Payment,
                target: BalanceIdentifier::Refund,
                ..
            },
            ..
        }
    )));
    let last_refund = provider
        .requests
        .iter()
        .rev()
        .find(|request| matches!(request, Request::HandleRefund { .. }))
        .unwrap();
    assert!(matches!(
        last_refund,
        Request::HandleRefund { mode: HandleRefundMode::ClearRefundPurse, .. }
    ));
    let recorded: Vec<u8> = artifact.effects.transforms.iter().map(|t| t.key[0]).collect();
    assert_eq!(recorded, vec![30, 40, 52, 32, 70, 31]);
}

#[test]
fn failed_custom_payment_is_penalized_and_not_executed() {
    let mut provider = Provider::new();
    provider.payment_fails = true;
    let mut custom = transaction(1, 3);
    custom.standard_payment = false;
    let output = run_default(&mut provider, vec![custom]).expect("should execute");
    let artifact = &output.execution_artifacts[0];
    assert_eq!(
        artifact.error,
        Some(ArtifactError::Failed {
            operation: Operation::Payment,
            reason: "payment reverted".to_string(),
        })
    );
    assert_eq!(artifact.consumed, Gas(77));
    let expected = key(1).to_account_hash();
    assert!(provider.requests.iter().any(|request| matches!(
        request,
        Request::PenaltyTransfer {
            source: BalanceIdentifier::Account(hash),
            target: BalanceIdentifier::Payment,
            amount: Motes(MAX_PAYMENT_AMOUNT),
            ..
        } if *hash == expected
    )));
    assert!(provider.requests.iter().all(|request| !matches!(request, Request::Session { .. })));
    assert!(provider.requests.iter().any(|request| matches!(
        request,
        Request::Balance { identifier: BalanceIdentifier::PenalizedPayment, .. }
    )));
    // The effects of the penalty are recorded before those of the payment logic, and are not
    // committed.
    let recorded: Vec<u8> = artifact.effects.transforms.iter().map(|t| t.key[0]).collect();
    assert_eq!(recorded[..3], [30, 41, 40]);
    assert!(provider.committed.iter().all(|committed| *committed != effects(41)));
}

#[test]
fn payment_argument_that_is_rejected_is_fatal() {
    let mut provider = failing(
        4,
        Response::CustomPayment(PaymentResponse::ArgumentRejected("amount".to_string())),
    );
    let mut custom = transaction(1, 3);
    custom.standard_payment = false;
    assert_eq!(
        run_default(&mut provider, vec![custom]),
        Err(BlockExecutionError::PaymentError("amount".to_string()))
    );
}

#[test]
fn payment_request_that_cannot_be_made_is_penalized() {
    let mut provider = failing(
        4,
        Response::CustomPayment(PaymentResponse::InvalidRequest("no payment code".to_string())),
    );
    let mut custom = transaction(1, 3);
    custom.standard_payment = false;
    let output = run_default(&mut provider, vec![custom]).expect("should execute");
    assert_eq!(
        output.execution_artifacts[0].error,
        Some(ArtifactError::Failed {
            operation: Operation::Payment,
            reason: "no payment code".to_string(),
        })
    );
    assert!(provider
        .requests
        .iter()
        .any(|request| matches!(request, Request::PenaltyTransfer { .. })));
}

#[test]
fn refund_purse_that_cannot_be_set_ends_the_transaction() {
    let mut provider = failing(
        1,
        Response::HandleRefund(HandleRefundResult::Failure("no purse".to_string())),
    );
    let mut custom = transaction(1, 3);
    custom.standard_payment = false;
    let output = run_default(&mut provider, vec![custom]).expect("should execute");
    assert_eq!(
        output.execution_artifacts[0].error,
        Some(ArtifactError::Failed {
            operation: Operation::SetRefundPurse,
            reason: "no purse".to_string(),
        })
    );
    // Block time, the refund purse, the registry, write, flush, proof.
    assert_eq!(provider.requests.len(), 6);
}

fn settle(
    refund_handling: RefundHandling,
    fee_handling: FeeHandling,
    standard_payment: bool,
    reported: Option<u128>,
) -> (ExecutionArtifact, Vec<Request>) {
    let mut provider = Provider::new();
    provider.refund = reported;
    let mut paying = transaction(1, 3);
    paying.standard_payment = standard_payment;
    let output = run(
        &mut provider,
        config(refund_handling, fee_handling),
        pre_state(1),
        block(1, vec![paying]),
        None,
    )
    .expect("should execute");
    (output.execution_artifacts[0].clone(), provider.requests)
}

#[test]
fn refund_and_fee_make_up_the_cost_under_every_policy() {
    let ratio = Ratio { numer: 3, denom: 4 };
    let refunds = [
        RefundHandling::NoRefund,
        RefundHandling::Burn { refund_ratio: ratio },
        RefundHandling::Refund { refund_ratio: ratio },
    ];
    let fees = [
        FeeHandling::NoFee,
        FeeHandling::Burn,
        FeeHandling::PayToProposer,
        FeeHandling::Accumulate,
    ];
    for refund_handling in refunds {
        for fee_handling in fees {
            for standard_payment in [true, false] {
                for reported in [None, Some(0), Some(1_000), Some(3_000_000), Some(u128::MAX)] {
                    let (artifact, requests) =
                        settle(refund_handling, fee_handling, standard_payment, reported);
                    let settlement = artifact.settlement.expect("the cost should be settled");
                    assert_eq!(settlement.cost, artifact.cost);
                    assert_eq!(settlement.cost, Motes(3_000_000));
                    assert!(settlement.refund.0 <= settlement.cost.0);
                    assert_eq!(settlement.refund.0 + settlement.fee.0, settlement.cost.0);
                    let fee = requests
                        .iter()
                        .find_map(|request| match request {
                            Request::HandleFee { mode, .. } => Some(*mode),
                            _ => None,
                        })
                        .expect("the fee should be handled");
                    let amount = match fee {
                        HandleFeeMode::Credit { amount, .. } => amount,
                        HandleFeeMode::Burn { amount, .. } => amount.unwrap(),
                        HandleFeeMode::Pay { amount, .. } => amount,
                    };
                    assert_eq!(amount, settlement.fee);
                }
            }
        }
    }
}

#[test]
fn reported_refund_is_the_refund_up_to_the_cost() {
    let refund_handling = RefundHandling::Refund { refund_ratio: Ratio { numer: 1, denom: 1 } };
    let (artifact, _) = settle(refund_handling, FeeHandling::Burn, true, Some(1_000));
    assert_eq!(artifact.settlement.unwrap().refund, Motes(1_000));
    assert_eq!(artifact.settlement.unwrap().fee, Motes(2_999_000));
    let (artifact, _) = settle(refund_handling, FeeHandling::Burn, true, Some(3_000_001));
    assert_eq!(artifact.settlement.unwrap().refund, Motes(3_000_000));
    assert_eq!(artifact.settlement.unwrap().fee, Motes(0));
    let (artifact, _) = settle(refund_handling, FeeHandling::Burn, true, None);
    assert_eq!(artifact.settlement.unwrap().refund, Motes(0));
    assert_eq!(artifact.settlement.unwrap().fee, Motes(3_000_000));
}

#[test]
fn no_refund_asks_nothing_of_the_payment_handler_unless_no_fee_with_custom_payment() {
    let (_, requests) = settle(RefundHandling::NoRefund, FeeHandling::PayToProposer, true, Some(5));
    assert!(requests.iter().all(|request| !matches!(request, Request::HandleRefund { .. })));
    let (artifact, requests) = settle(RefundHandling::NoRefund, FeeHandling::NoFee, false, Some(5));
    assert!(requests.iter().any(|request| matches!(
        request,
        Request::HandleRefund {
            mode: HandleRefundMode::CustomHold { gas_price: GAS_PRICE, cost: Motes(3_000_000), .. },
            ..
        }
    )));
    // The gas hold is then placed on the refund purse.
    assert!(requests.iter().any(|request| matches!(
        request,
        Request::BalanceHold {
            identifier: BalanceIdentifier::Refund,
            action: HoldAction::Gas { .. },
            ..
        }
    )));
    assert_eq!(artifact.settlement.unwrap().refund, Motes(5));
}

#[test]
fn fee_modes_follow_the_fee_policy() {
    let refund_handling = RefundHandling::NoRefund;
    let (_, requests) = settle(refund_handling, FeeHandling::NoFee, true, None);
    assert!(requests.iter().any(|request| matches!(
        request,
        Request::BalanceHold { action: HoldAction::Gas { amount: Motes(3_000_000) }, .. }
    )));
    assert!(requests.iter().any(|request| matches!(
        request,
        Request::HandleFee {
            mode: HandleFeeMode::Credit { validator, amount: Motes(3_000_000), era_id: EraId(7) },
            ..
        } if *validator == key(200)
    )));
    let (_, requests) = settle(refund_handling, FeeHandling::Burn, true, None);
    assert!(requests.iter().any(|request| matches!(
        request,
        Request::HandleFee {
            mode: HandleFeeMode::Burn { source: BalanceIdentifier::Public(_), amount: Some(Motes(3_000_000)) },
            ..
        }
    )));
    let (_, requests) = settle(refund_handling, FeeHandling::PayToProposer, true, None);
    assert!(requests.iter().any(|request| matches!(
        request,
        Request::HandleFee {
            mode: HandleFeeMode::Pay { target: BalanceIdentifier::Public(target), .. },
            ..
        } if *target == key(200)
    )));
    let (_, requests) = settle(refund_handling, FeeHandling::Accumulate, true, None);
    assert!(requests.iter().any(|request| matches!(
        request,
        Request::HandleFee {
            mode: HandleFeeMode::Pay { target: BalanceIdentifier::Accumulate, .. },
            ..
        }
    )));
    // Only where no fee is taken is a gas hold placed.
    assert!(requests.iter().all(|request| !matches!(
        request,
        Request::BalanceHold { action: HoldAction::Gas { .. }, .. }
    )));
}

#[test]
fn refund_modes_follow_the_refund_policy() {
    let ratio = Ratio { numer: 3, denom: 4 };
    let (_, requests) = settle(RefundHandling::Burn { refund_ratio: ratio }, FeeHandling::Burn, true, None);
    assert!(requests.iter().any(|request| matches!(
        request,
        Request::HandleRefund {
            mode: HandleRefundMode::Burn {
                limit: Gas(1_000_000),
                gas_price: GAS_PRICE,
                cost: Motes(3_000_000),
                consumed: Gas(250_000),
                source: BalanceIdentifier::Public(_),
                ratio: Ratio { numer: 3, denom: 4 },
            },
            ..
        }
    )));
    let (_, requests) =
        settle(RefundHandling::Refund { refund_ratio: ratio }, FeeHandling::Burn, true, None);
    assert!(requests.iter().any(|request| matches!(
        request,
        Request::HandleRefund { mode: HandleRefundMode::RefundAmount { .. }, .. }
    )));
}

fn switch_block() -> ExecutableBlock {
    let mut switch_block = block(1, vec![transaction(1, 0)]);
    switch_block.era_report = Some(EraReport {
        equivocators: vec![key(13)],
        inactive_validators: vec![key(11), key(15)],
    });
    switch_block.rewards = Some(Rewards { entries: vec![(key(12), vec![Motes(9), Motes(1)])] });
    switch_block
}

#[test]
fn switch_block_evicts_the_inactive_and_the_equivocators() {
    let mut provider = Provider::new();
    let output = run(&mut provider, default_config(), pre_state(1), switch_block(), Some(2))
        .expect("should execute");
    // The inactive validators are evicted first, then the equivocators.
    assert_eq!(provider.evicted, vec![key(11), key(15), key(13)]);
    let outcome = output.step_outcome.expect("a switch block has a step outcome");
    assert_eq!(outcome.step_effects, effects(84));
    let next_era = &outcome.upcoming_era_validators.eras[0];
    assert_eq!(next_era.0, EraId(8));
    let remaining: Vec<PublicKey> = next_era.1.entries.iter().map(|(validator, _)| *validator).collect();
    assert_eq!(remaining, vec![key(12), key(14)]);
    let era_end = output.block.era_end.expect("a switch block has era-end data");
    assert_eq!(era_end.equivocators, vec![key(13)]);
    assert_eq!(era_end.inactive_validators, vec![key(11), key(15)]);
    assert_eq!(
        era_end.next_era_validator_weights.entries,
        vec![(key(12), Motes(200)), (key(14), Motes(400))]
    );
    assert_eq!(era_end.rewards.entries, vec![(key(12), vec![Motes(9), Motes(1)])]);
    assert_eq!(era_end.next_era_gas_price, 2);
    assert!(provider.requests.iter().any(|request| matches!(
        request,
        Request::Step { next_era_id: EraId(8), era_end_timestamp_millis: 1_700_000_000_000, .. }
    )));
}

#[test]
fn rewards_are_distributed_after_the_fees() {
    let mut provider = Provider::new();
    run(&mut provider, default_config(), pre_state(1), switch_block(), Some(2))
        .expect("should execute");
    let fees = provider
        .requests
        .iter()
        .position(|request| matches!(request, Request::DistributeFees { .. }))
        .expect("fees should be distributed");
    assert!(matches!(provider.requests[fees + 1], Request::DistributeRewards { .. }));
    assert!(matches!(provider.requests[fees + 2], Request::ForcedUndelegate { .. }));
    assert!(matches!(provider.requests[fees + 3], Request::Step { .. }));
    assert!(matches!(provider.requests[fees + 4], Request::EraValidators { .. }));
}

#[test]
fn block_without_rewards_distributes_nothing() {
    let mut provider = Provider::new();
    run_default(&mut provider, vec![transaction(1, 0)]).expect("should execute");
    assert!(provider.requests.iter().all(|request| !matches!(
        request,
        Request::DistributeFees { .. } | Request::DistributeRewards { .. }
    )));
}

#[test]
fn missing_weights_of_the_next_era_are_fatal() {
    let mut provider = Provider::new();
    provider.forget_next_era = true;
    let result = run(&mut provider, default_config(), pre_state(1), switch_block(), Some(2));
    assert_eq!(
        result,
        Err(BlockExecutionError::FailedToCreateEraEnd {
            maybe_era_report: switch_block().era_report,
            has_next_era_validator_weights: false,
        })
    );
}

#[test]
fn nothing_is_pruned_after_the_first_block_whatever_the_configuration() {
    for batch_size in [0, 1, 3, u64::MAX] {
        for activation_era in [0, 1, 10, u64::MAX] {
            for activation_height in [0, 1, 7] {
                for height in [0, 1] {
                    let mut provider = Provider::new();
                    let mut config = default_config();
                    config.prune_batch_size = batch_size;
                    config.activation_point_era_id = EraId(activation_era);
                    let mut transition = execute_finalized_block(
                        config,
                        true,
                        pre_state(height),
                        block(height, vec![]),
                        activation_height,
                        GAS_PRICE,
                        None,
                        None,
                    );
                    loop {
                        match transition {
                            Transition::Continue(engine, request) => {
                                assert_eq!(engine.prune_eras(), None);
                                let response = provider.answer(&engine, request);
                                transition = engine.step(response);
                            }
                            Transition::Fatal(error) => panic!("should execute: {:?}", error),
                            Transition::Done(_) => break,
                        }
                    }
                    assert!(provider
                        .requests
                        .iter()
                        .all(|request| !matches!(request, Request::Prune { .. })));
                }
            }
        }
    }
}

#[test]
fn later_blocks_prune_the_next_batch_of_eras() {
    let mut provider = Provider::new();
    // The previous block is two above the activation: the third batch of three eras is pruned.
    let output = run(&mut provider, default_config(), pre_state(5), block(5, vec![]), None)
        .expect("should execute");
    assert_eq!(provider.pruned, vec![6, 7, 8]);
    let prune = provider
        .requests
        .iter()
        .position(|request| matches!(request, Request::Prune { .. }))
        .expect("should prune");
    assert!(matches!(provider.requests[prune + 1], Request::WriteScratchToDb { .. }));
    assert_eq!(output.block.height, 5);
}

#[test]
fn missing_key_while_pruning_is_no_failure() {
    // Block time, the registry, prune.
    let mut provider = failing(2, Response::Prune(PruneResult::MissingKey));
    let output = run(&mut provider, default_config(), pre_state(5), block(5, vec![]), None)
        .expect("should execute");
    assert_eq!(output.block.height, 5);
}

#[test]
fn the_block_is_assembled_from_the_executable_block() {
    let mut provider = Provider::new();
    let output = run_default(&mut provider, vec![transaction(1, 0), transaction(2, 3)])
        .expect("should execute");
    let assembled = &output.block;
    assert_eq!(assembled.parent_hash, BlockHash(digest(2)));
    assert_eq!(assembled.parent_seed, digest(3));
    assert!(assembled.random_bit);
    assert_eq!(assembled.era_end, None);
    assert_eq!(assembled.timestamp, Timestamp(1_700_000_000_000));
    assert_eq!(assembled.era_id, EraId(7));
    assert_eq!(assembled.height, 1);
    assert_eq!(assembled.protocol_version, ProtocolVersion { major: 2, minor: 0, patch: 0 });
    assert_eq!(assembled.proposer, key(200));
    assert_eq!(assembled.current_gas_price, GAS_PRICE);
    assert_eq!(assembled.last_switch_block_hash, Some(BlockHash(digest(5))));
    assert_eq!(
        assembled.transaction_map.lanes,
        vec![(0, vec![TransactionHash(digest(1)), TransactionHash(digest(2))])]
    );
    assert_eq!(output.approvals_hashes.block_hash, assembled.hash);
    assert_eq!(output.approvals_hashes.approvals_hashes, vec![digest(101), digest(102)]);
    assert_eq!(output.approvals_hashes.proof_of_checksum_registry, vec![7, 7, 7]);
    assert_ne!(assembled.hash, BlockHash(digest(0)));
}

#[test]
fn the_block_hash_depends_on_the_state_root() {
    let mut first = Provider::new();
    let one = run_default(&mut first, vec![transaction(1, 0)]).expect("should execute");
    let mut second = Provider::new();
    let other = run_default(&mut second, vec![transaction(1, 3)]).expect("should execute");
    assert_ne!(one.block.state_root_hash, other.block.state_root_hash);
    assert_ne!(one.block.hash, other.block.hash);
}

#[test]
fn execution_is_deterministic() {
    let transactions = vec![transaction(1, 0), transaction(2, 3), transaction(3, 1)];
    let mut first = Provider::new();
    let one = run(&mut first, default_config(), pre_state(1), switch_block_with(transactions.clone()), Some(4))
        .expect("should execute");
    let mut second = Provider::new();
    let other = run(&mut second, default_config(), pre_state(1), switch_block_with(transactions), Some(4))
        .expect("should execute");
    assert_eq!(one, other);
    assert_eq!(one.block.state_root_hash, other.block.state_root_hash);
    assert_eq!(first.requests, second.requests);
    assert_eq!(
        compute_execution_results_checksum(&one.execution_artifacts),
        compute_execution_results_checksum(&other.execution_artifacts)
    );
    assert_eq!(first.committed.last(), second.committed.last());
}

fn switch_block_with(transactions: Vec<Transaction>) -> ExecutableBlock {
    let mut switch_block = switch_block();
    switch_block.transaction_map =
        TransactionMap { lanes: vec![(0, transactions.iter().map(|t| t.hash).collect())] };
    switch_block.transactions = transactions;
    switch_block
}

#[test]
fn the_checksum_registry_holds_both_checksums() {
    let mut provider = Provider::new();
    let transactions = vec![transaction(1, 0), transaction(2, 3)];
    let output = run_default(&mut provider, transactions.clone()).expect("should execute");
    let approvals = compute_approvals_checksum(&transactions).unwrap();
    let results = compute_execution_results_checksum(&output.execution_artifacts).unwrap();
    let registry = provider.committed.last().unwrap();
    let mut expected = 2u32.to_le_bytes().to_vec();
    expected.extend_from_slice(&18u64.to_le_bytes());
    expected.extend_from_slice(b"approvals_checksum");
    expected.extend_from_slice(&approvals.bytes);
    expected.extend_from_slice(&26u64.to_le_bytes());
    expected.extend_from_slice(b"execution_results_checksum");
    expected.extend_from_slice(&results.bytes);
    assert_eq!(registry.transforms[0].value, expected);
    assert_eq!(registry.transforms[0].key, vec![23]);
}

#[test]
fn the_checksum_changes_with_any_result_and_with_their_order() {
    let mut provider = Provider::new();
    let output = run_default(&mut provider, vec![transaction(1, 0), transaction(2, 3)])
        .expect("should execute");
    let artifacts = output.execution_artifacts;
    let checksum = compute_execution_results_checksum(&artifacts).unwrap();
    assert_eq!(compute_execution_results_checksum(&artifacts.clone()).unwrap(), checksum);

    let mut reordered = artifacts.clone();
    reordered.reverse();
    assert_ne!(compute_execution_results_checksum(&reordered).unwrap(), checksum);

    let mut changed = artifacts.clone();
    changed[1].consumed = Gas(changed[1].consumed.0 + 1);
    assert_ne!(compute_execution_results_checksum(&changed).unwrap(), checksum);

    let mut with_error = artifacts.clone();
    with_error[0].error = Some(ArtifactError::Failed {
        operation: Operation::Transfer,
        reason: "x".to_string(),
    });
    assert_ne!(compute_execution_results_checksum(&with_error).unwrap(), checksum);

    let mut shorter = artifacts.clone();
    shorter.pop();
    assert_ne!(compute_execution_results_checksum(&shorter).unwrap(), checksum);
    assert_ne!(
        compute_execution_results_checksum(&Vec::new()).unwrap(),
        compute_execution_results_checksum(&shorter).unwrap()
    );
}

#[test]
fn the_checksum_of_no_results_is_the_digest_of_their_count() {
    assert_eq!(
        compute_execution_results_checksum(&Vec::new()),
        Ok(Digest::hash(&[0, 0, 0, 0]))
    );
    assert_eq!(compute_approvals_checksum(&Vec::new()), Ok::<Digest, BytesreprError>(Digest::hash(&[0, 0, 0, 0])));
}

fn fatal_at(at: usize, with: Response, block: ExecutableBlock, height: u64) -> BlockExecutionError {
    let mut provider = failing(at, with);
    run(&mut provider, default_config(), pre_state(height), block, Some(2))
        .expect_err("should be fatal")
}

#[test]
fn failures_of_the_block_are_fatal() {
    let plain = || block(1, vec![transaction(1, 0)]);
    assert_eq!(
        fatal_at(0, Response::BlockGlobal(RootUpdate::Failure("time".to_string())), plain(), 1),
        BlockExecutionError::BlockGlobal("time".to_string())
    );
    assert_eq!(
        fatal_at(0, Response::BlockGlobal(RootUpdate::RootNotFound), plain(), 1),
        BlockExecutionError::RootNotFound(digest(1))
    );
    assert_eq!(
        fatal_at(4, Response::Commit(StoreResult::Failure("disk".to_string())), plain(), 1),
        BlockExecutionError::Lmdb("disk".to_string())
    );
    // Block time, then for the transaction 12 requests, the registry, and what follows.
    assert_eq!(
        fatal_at(14, Response::DistributeFees(RootUpdate::Failure("fees".to_string())), switch_block(), 1),
        BlockExecutionError::DistributeFees("fees".to_string())
    );
    assert_eq!(
        fatal_at(15, Response::DistributeRewards(RootUpdate::Failure("rewards".to_string())), switch_block(), 1),
        BlockExecutionError::DistributeBlockRewards("rewards".to_string())
    );
    assert_eq!(
        fatal_at(16, Response::ForcedUndelegate(RootUpdate::Failure("limits".to_string())), switch_block(), 1),
        BlockExecutionError::ForcedUndelegate("limits".to_string())
    );
    assert_eq!(
        fatal_at(17, Response::Step(StepResult::Failure("auction".to_string())), switch_block(), 1),
        BlockExecutionError::Step("auction".to_string())
    );
    assert_eq!(
        fatal_at(18, Response::EraValidators(EraValidatorsResult::AuctionNotFound), switch_block(), 1),
        BlockExecutionError::AuctionNotFound
    );
    assert_eq!(
        fatal_at(
            18,
            Response::EraValidators(EraValidatorsResult::ValueNotFound("snapshot".to_string())),
            switch_block(),
            1
        ),
        BlockExecutionError::ValidatorSnapshotNotFound("snapshot".to_string())
    );
    assert_eq!(
        fatal_at(
            18,
            Response::EraValidators(EraValidatorsResult::Failure("read".to_string())),
            switch_block(),
            1
        ),
        BlockExecutionError::GetEraValidators("read".to_string())
    );
    assert_eq!(
        fatal_at(2, Response::Prune(PruneResult::Failure("prune".to_string())), block(5, vec![]), 5),
        BlockExecutionError::Prune("prune".to_string())
    );
    assert!(matches!(
        fatal_at(2, Response::Prune(PruneResult::RootNotFound), block(5, vec![]), 5),
        BlockExecutionError::RootNotFound(_)
    ));
    assert_eq!(
        fatal_at(2, Response::WriteScratchToDb(StoreResult::Failure("write".to_string())), block(1, vec![]), 1),
        BlockExecutionError::Lmdb("write".to_string())
    );
    assert_eq!(
        fatal_at(3, Response::Flush(StoreResult::Failure("flush".to_string())), block(1, vec![]), 1),
        BlockExecutionError::Lmdb("flush".to_string())
    );
    assert_eq!(
        fatal_at(4, Response::ChecksumRegistryProof(ProofResult::Missing), block(1, vec![]), 1),
        BlockExecutionError::MissingChecksumRegistry
    );
    assert_eq!(
        fatal_at(
            4,
            Response::ChecksumRegistryProof(ProofResult::Failure("proof".to_string())),
            block(1, vec![]),
            1
        ),
        BlockExecutionError::TrackingCopy("proof".to_string())
    );
    assert!(matches!(
        fatal_at(4, Response::ChecksumRegistryProof(ProofResult::RootNotFound), block(1, vec![]), 1),
        BlockExecutionError::RootNotFound(_)
    ));
}

#[test]
fn root_not_found_is_fatal_at_every_stage_of_a_transaction() {
    let custom = || {
        let mut custom = transaction(1, 3);
        custom.standard_payment = false;
        custom.contract_by_hash = Some([44; 32]);
        block(1, vec![custom])
    };
    let standard = || {
        let mut standard = transaction(1, 3);
        standard.contract_by_hash = Some([44; 32]);
        block(1, vec![standard])
    };
    let cases: Vec<(usize, Response, ExecutableBlock)> = vec![
        (1, Response::HandleRefund(HandleRefundResult::RootNotFound), custom()),
        (1, Response::Balance(BalanceResult::RootNotFound), standard()),
        (2, Response::EntryPoint(EntryPointResult::RootNotFound), standard()),
        (3, Response::Balance(BalanceResult::RootNotFound), standard()),
        (4, Response::BalanceHold(EffectsResult::RootNotFound), standard()),
        (6, Response::Session(SessionResponse::Ran(WasmResult {
            effects: Effects { transforms: vec![] },
            messages: vec![],
            consumed: Gas(0),
            error: Some(WasmError::RootNotFound),
        })), standard()),
        (8, Response::BalanceHold(EffectsResult::RootNotFound), standard()),
        (10, Response::HandleRefund(HandleRefundResult::RootNotFound), standard()),
        (12, Response::HandleFee(EffectsResult::RootNotFound), standard()),
    ];
    for (at, with, block) in cases {
        let mut provider = failing(at, with);
        let result = run(&mut provider, default_config(), pre_state(1), block, None);
        assert!(
            matches!(result, Err(BlockExecutionError::RootNotFound(_))),
            "request {} should be fatal, got {:?}",
            at,
            result
        );
    }
}

#[test]
fn an_answer_of_the_wrong_kind_is_refused() {
    let mut provider = failing(0, Response::Flush(StoreResult::Success { post_state_hash: digest(0) }));
    assert_eq!(
        run_default(&mut provider, vec![transaction(1, 0)]),
        Err(BlockExecutionError::UnexpectedResponse)
    );
    let mut provider = failing(
        1,
        Response::HandleRefund(HandleRefundResult::Success { effects: effects(1), amount: None }),
    );
    assert_eq!(
        run_default(&mut provider, vec![transaction(1, 0)]),
        Err(BlockExecutionError::UnexpectedResponse)
    );
}

#[test]
fn the_engine_tells_its_stage() {
    let transition = execute_finalized_block(
        default_config(),
        true,
        pre_state(1),
        block(1, vec![transaction(1, 0)]),
        0,
        GAS_PRICE,
        None,
        None,
    );
    let Transition::Continue(engine, _) = transition else { panic!("should start") };
    let transition = engine.step(Response::BlockGlobal(RootUpdate::Success { post_state_hash: digest(8) }));
    let Transition::Continue(engine, request) = transition else { panic!("should go on") };
    assert_eq!(engine.stage(), Stage::InitialBalance);
    assert_eq!(engine.state_root(), digest(8));
    assert_eq!(
        request,
        Request::Balance { state_root: digest(8), identifier: BalanceIdentifier::Public(key(1)) }
    );
    let transition = engine.step(Response::Balance(BalanceResult::Success {
        total_balance: Motes(u128::MAX),
        available_balance: Motes(u128::MAX),
    }));
    let Transition::Continue(engine, _) = transition else { panic!("should go on") };
    assert_eq!(engine.stage(), Stage::PostPaymentBalance);
    let transition = engine.step(Response::Balance(BalanceResult::Success {
        total_balance: Motes(u128::MAX),
        available_balance: Motes(u128::MAX),
    }));
    let Transition::Continue(engine, _) = transition else { panic!("should go on") };
    assert_eq!(engine.stage(), Stage::ProcessingHold);
    let transition =
        engine.step(Response::BalanceHold(EffectsResult::Success { effects: effects(60) }));
    let Transition::Continue(engine, request) = transition else { panic!("should go on") };
    assert_eq!(engine.stage(), Stage::Commit(Resume::ProcessingHold));
    assert_eq!(request, Request::Commit { state_root: digest(8) });
    assert_eq!(*engine.pending_effects(), effects(60));
    assert_eq!(engine.config().prune_batch_size, 3);
    assert_eq!(engine.pre_state().next_block_height(), 1);
}

#[test]
fn account_hash_initiators_pay_from_their_account() {
    let mut provider = Provider::new();
    let mut by_hash = transaction(1, 0);
    by_hash.initiator = InitiatorAddr::AccountHash(AccountHash([9; 32]));
    run_default(&mut provider, vec![by_hash]).expect("should execute");
    assert!(matches!(
        provider.requests[1],
        Request::Balance { identifier: BalanceIdentifier::Account(AccountHash(hash)), .. }
            if hash == [9; 32]
    ));
}
