use casper_node::chainspec::vm_config::SystemConfig;
use casper_node::contract_runtime::artifact::{ExecutionArtifact, Settlement};
use casper_node::contract_runtime::config::{
    ChainConfig, FeeHandling, Lane, Ratio, RefundHandling, AUCTION_LANE_ID,
    INSTALL_UPGRADE_LANE_ID, MINT_LANE_ID,
};
use casper_node::contract_runtime::era_end::{commit_step, evict_items, weights_of};
use casper_node::contract_runtime::error::{ArtifactError, InvalidTransaction, Operation};
use casper_node::contract_runtime::gas::{auction_cost, effective_gas_price, gas_cost, gas_limit};
use casper_node::contract_runtime::payer::{invoked_contract_will_pay, StateResultError};
use casper_node::contract_runtime::protocol::{
    BalanceResult, EffectsResult, EntryPointResult, HandleFeeMode, HandleRefundMode,
    HandleRefundResult, Held, SessionResponse, WasmError, WasmResult,
};
use casper_node::contract_runtime::prune::calculate_prune_eras;
use casper_node::contract_runtime::settlement::{fee_mode, refund_mode, Charge};
use casper_node::contract_runtime::speculative::{
    speculative_result, speculatively_execute, BlockHeader, SpeculativeError,
    SpeculativeExecutionResult, SpeculativeRequest, SpeculativeResponse, SpeculativeStart,
};
use casper_node::contract_runtime::types::{
    BalanceIdentifier, Block, Effects, EraEnd, EraReport, EraValidators, Message, PricingMode,
    RewardedSignatures, Rewards, Transaction, TransactionEntryPoint, TransactionMap, Transform,
    TransformKind, ValidatorWeights,
};
use casper_node::identity::{AccountHash, EntityAddr, InitiatorAddr, PublicKey};
use casper_node::primitives::{
    BlockHash, Digest, EraId, Gas, Motes, ProtocolVersion, TimeDiff, Timestamp, TransactionHash,
};

fn digest(byte: u8) -> Digest {
    Digest { bytes: [byte; 32] }
}

fn key(byte: u8) -> PublicKey {
    PublicKey::Ed25519([byte; 32])
}

fn config() -> ChainConfig {
    ChainConfig {
        protocol_version: ProtocolVersion { major: 2, minor: 0, patch: 0 },
        activation_point_era_id: EraId(10),
        prune_batch_size: 3,
        enable_addressable_entity: true,
        refund_handling: RefundHandling::NoRefund,
        fee_handling: FeeHandling::NoFee,
        native_transfer_minimum_motes: 2_500_000_000,
        minimum_block_time: TimeDiff(4_096),
        system_costs: SystemConfig::default(),
        wasm_lanes: vec![
            Lane { id: 3, max_transaction_gas_limit: 1_000_000 },
            Lane { id: 4, max_transaction_gas_limit: 5_000_000 },
            Lane { id: 3, max_transaction_gas_limit: 9 },
        ],
    }
}

fn transaction(lane_id: u8, entry_point: TransactionEntryPoint) -> Transaction {
    Transaction {
        hash: TransactionHash(digest(1)),
        approvals_hash: digest(2),
        initiator: InitiatorAddr::PublicKey(key(1)),
        lane_id,
        pricing_mode: PricingMode::Fixed { gas_price_tolerance: 5, additional_computation_factor: 0 },
        entry_point,
        standard_payment: true,
        contract_by_hash: None,
        is_deploy: true,
        is_native: false,
        conversion_error: None,
    }
}

fn effects(tag: u8) -> Effects {
    Effects {
        transforms: vec![Transform { key: vec![tag], kind: TransformKind::Add, value: vec![tag] }],
    }
}

#[test]
fn gas_limit_follows_the_lane() {
    let config = config();
    assert_eq!(
        gas_limit(&transaction(MINT_LANE_ID, TransactionEntryPoint::Transfer), &config),
        Ok(Gas(10_000))
    );
    assert_eq!(
        gas_limit(&transaction(AUCTION_LANE_ID, TransactionEntryPoint::Delegate), &config),
        Ok(Gas(2_500_000_000))
    );
    assert_eq!(
        gas_limit(&transaction(AUCTION_LANE_ID, TransactionEntryPoint::ActivateBid), &config),
        Ok(Gas(10_000))
    );
    // Of two lanes with one id the first counts.
    assert_eq!(gas_limit(&transaction(3, TransactionEntryPoint::Call), &config), Ok(Gas(1_000_000)));
    assert_eq!(gas_limit(&transaction(4, TransactionEntryPoint::Call), &config), Ok(Gas(5_000_000)));
    assert_eq!(
        gas_limit(&transaction(INSTALL_UPGRADE_LANE_ID, TransactionEntryPoint::Call), &config),
        Err(InvalidTransaction::NoLaneMatch)
    );
}

#[test]
fn gas_limit_of_a_named_payment_is_the_payment() {
    let mut limited = transaction(9, TransactionEntryPoint::Call);
    limited.pricing_mode = PricingMode::PaymentLimited {
        payment_amount: u64::MAX,
        gas_price_tolerance: 1,
        standard_payment: false,
    };
    assert_eq!(gas_limit(&limited, &config()), Ok(Gas(u64::MAX as u128)));
}

#[test]
fn transactions_without_a_gas_limit_are_invalid() {
    let config = config();
    let mut prepaid = transaction(MINT_LANE_ID, TransactionEntryPoint::Transfer);
    prepaid.pricing_mode = PricingMode::Prepaid { receipt: digest(3) };
    assert_eq!(gas_limit(&prepaid, &config), Err(InvalidTransaction::PricingModeNotSupported));
    assert_eq!(
        gas_limit(&transaction(AUCTION_LANE_ID, TransactionEntryPoint::Call), &config),
        Err(InvalidTransaction::EntryPointCannotBeCall)
    );
    assert_eq!(
        gas_limit(
            &transaction(AUCTION_LANE_ID, TransactionEntryPoint::Custom("bid".to_string())),
            &config
        ),
        Err(InvalidTransaction::NoNativeCost)
    );
    assert_eq!(
        gas_limit(&transaction(200, TransactionEntryPoint::Call), &config),
        Err(InvalidTransaction::NoLaneMatch)
    );
}

#[test]
fn auction_costs_are_those_of_the_entry_point() {
    let mut costs = *SystemConfig::default().auction_costs();
    costs.add_bid = 1;
    costs.activate_bid = 2;
    costs.withdraw_bid = 3;
    costs.delegate = 4;
    costs.undelegate = 5;
    costs.redelegate = 6;
    assert_eq!(auction_cost(&costs, &TransactionEntryPoint::AddBid), Ok(1));
    assert_eq!(auction_cost(&costs, &TransactionEntryPoint::ActivateBid), Ok(2));
    assert_eq!(auction_cost(&costs, &TransactionEntryPoint::WithdrawBid), Ok(3));
    assert_eq!(auction_cost(&costs, &TransactionEntryPoint::Delegate), Ok(4));
    assert_eq!(auction_cost(&costs, &TransactionEntryPoint::Undelegate), Ok(5));
    assert_eq!(auction_cost(&costs, &TransactionEntryPoint::Redelegate), Ok(6));
    assert_eq!(auction_cost(&costs, &TransactionEntryPoint::ChangeBidPublicKey), Ok(1));
    assert_eq!(
        auction_cost(&costs, &TransactionEntryPoint::Transfer),
        Err(InvalidTransaction::NoNativeCost)
    );
}

#[test]
fn cost_is_the_limit_times_the_price_and_the_price_is_at_least_one() {
    assert_eq!(gas_cost(Gas(1_000), 3), Ok(Motes(3_000)));
    assert_eq!(gas_cost(Gas(1_000), 1), Ok(Motes(1_000)));
    assert_eq!(gas_cost(Gas(1_000), 0), Ok(Motes(1_000)));
    assert_eq!(gas_cost(Gas(0), 255), Ok(Motes(0)));
    assert_eq!(gas_cost(Gas(u128::MAX / 255), 255), Ok(Motes(u128::MAX / 255 * 255)));
    assert_eq!(effective_gas_price(0), 1);
    assert_eq!(effective_gas_price(1), 1);
    assert_eq!(effective_gas_price(200), 200);
}

#[test]
fn a_cost_that_cannot_be_represented_is_invalid() {
    assert_eq!(gas_cost(Gas(u128::MAX), 2), Err(InvalidTransaction::UnableToCalculateGasCost));
    assert_eq!(
        gas_cost(Gas(u128::MAX / 255 + 1), 255),
        Err(InvalidTransaction::UnableToCalculateGasCost)
    );
    assert_eq!(gas_cost(Gas(u128::MAX), 1), Ok(Motes(u128::MAX)));
}

#[test]
fn lanes_are_supported_where_they_are_native_or_configured() {
    let config = config();
    assert!(config.is_supported(MINT_LANE_ID));
    assert!(config.is_supported(AUCTION_LANE_ID));
    assert!(config.is_supported(3));
    assert!(config.is_supported(4));
    assert!(!config.is_supported(INSTALL_UPGRADE_LANE_ID));
    assert!(!config.is_supported(5));
    assert_eq!(config.lane(4), Some(Lane { id: 4, max_transaction_gas_limit: 5_000_000 }));
    assert_eq!(config.lane(5), None);
}

#[test]
fn eras_are_pruned_in_batches_from_the_block_after_activation() {
    // The previous block is the one of activation: the first batch.
    assert_eq!(calculate_prune_eras(EraId(10), 2, 2, 3), Some(vec![0, 1, 2]));
    assert_eq!(calculate_prune_eras(EraId(10), 2, 3, 3), Some(vec![3, 4, 5]));
    assert_eq!(calculate_prune_eras(EraId(10), 2, 4, 3), Some(vec![6, 7, 8]));
    // The last batch is cut off at the era of activation.
    assert_eq!(calculate_prune_eras(EraId(10), 2, 5, 3), Some(vec![9]));
    assert_eq!(calculate_prune_eras(EraId(10), 2, 6, 3), None);
    assert_eq!(calculate_prune_eras(EraId(10), 2, 1_000, 3), None);
    assert_eq!(calculate_prune_eras(EraId(2), 7, 7, 100), Some(vec![0, 1]));
}

#[test]
fn nothing_is_pruned_where_there_is_nothing_to_do() {
    // Batches are empty.
    assert_eq!(calculate_prune_eras(EraId(10), 2, 3, 0), None);
    // The activation lies ahead of the previous block.
    assert_eq!(calculate_prune_eras(EraId(10), 5, 4, 3), None);
    // The previous block is the first of the chain.
    assert_eq!(calculate_prune_eras(EraId(10), 0, 0, 3), None);
    // No era lies before the era of activation.
    assert_eq!(calculate_prune_eras(EraId(0), 0, 5, 3), None);
    // The bounds of the batch cannot be represented.
    assert_eq!(calculate_prune_eras(EraId(u64::MAX), 0, u64::MAX, 2), None);
    assert_eq!(calculate_prune_eras(EraId(u64::MAX), 0, 1, u64::MAX), None);
    assert_eq!(calculate_prune_eras(EraId(3), 0, 1, u64::MAX / 2), None);
}

fn charge(standard_payment: bool) -> Charge {
    Charge {
        initiator: InitiatorAddr::PublicKey(key(1)),
        standard_payment,
        gas_limit: Gas(100),
        gas_price: 2,
        cost: Motes(200),
        consumed: Gas(60),
    }
}

#[test]
fn refund_is_handled_as_the_policy_says() {
    let payer = BalanceIdentifier::Public(key(1));
    let ratio = Ratio { numer: 99, denom: 100 };
    for fee_handling in [FeeHandling::Burn, FeeHandling::PayToProposer, FeeHandling::Accumulate] {
        for standard in [true, false] {
            assert_eq!(
                refund_mode(RefundHandling::NoRefund, fee_handling, charge(standard), payer),
                (None, payer)
            );
        }
    }
    assert_eq!(
        refund_mode(RefundHandling::NoRefund, FeeHandling::NoFee, charge(true), payer),
        (None, payer)
    );
    assert_eq!(
        refund_mode(RefundHandling::NoRefund, FeeHandling::NoFee, charge(false), payer),
        (
            Some(HandleRefundMode::CustomHold {
                initiator: InitiatorAddr::PublicKey(key(1)),
                limit: Gas(100),
                gas_price: 2,
                cost: Motes(200),
            }),
            BalanceIdentifier::Refund
        )
    );
    assert_eq!(
        refund_mode(RefundHandling::Burn { refund_ratio: ratio }, FeeHandling::NoFee, charge(false), payer),
        (
            Some(HandleRefundMode::Burn {
                limit: Gas(100),
                gas_price: 2,
                cost: Motes(200),
                consumed: Gas(60),
                source: payer,
                ratio,
            }),
            payer
        )
    );
    assert_eq!(
        refund_mode(RefundHandling::Refund { refund_ratio: ratio }, FeeHandling::NoFee, charge(true), payer),
        (
            Some(HandleRefundMode::RefundAmount {
                limit: Gas(100),
                gas_price: 2,
                consumed: Gas(60),
                cost: Motes(200),
                ratio,
                source: payer,
            }),
            payer
        )
    );
    assert_eq!(
        refund_mode(
            RefundHandling::Refund { refund_ratio: ratio },
            FeeHandling::NoFee,
            charge(false),
            BalanceIdentifier::Payment
        ),
        (
            Some(HandleRefundMode::Refund {
                initiator: InitiatorAddr::PublicKey(key(1)),
                limit: Gas(100),
                gas_price: 2,
                consumed: Gas(60),
                cost: Motes(200),
                ratio,
                source: BalanceIdentifier::Payment,
                target: BalanceIdentifier::Refund,
            }),
            BalanceIdentifier::Payment
        )
    );
}

#[test]
fn fee_is_handled_as_the_policy_says() {
    let initiator = InitiatorAddr::PublicKey(key(1));
    let payer = BalanceIdentifier::Payment;
    let mode = |fee_handling| fee_mode(fee_handling, initiator, payer, key(9), EraId(4), Motes(55));
    assert_eq!(
        mode(FeeHandling::NoFee),
        HandleFeeMode::Credit { validator: key(9), amount: Motes(55), era_id: EraId(4) }
    );
    assert_eq!(
        mode(FeeHandling::Burn),
        HandleFeeMode::Burn { source: payer, amount: Some(Motes(55)) }
    );
    assert_eq!(
        mode(FeeHandling::PayToProposer),
        HandleFeeMode::Pay {
            initiator,
            source: payer,
            target: BalanceIdentifier::Public(key(9)),
            amount: Motes(55)
        }
    );
    assert_eq!(
        mode(FeeHandling::Accumulate),
        HandleFeeMode::Pay {
            initiator,
            source: payer,
            target: BalanceIdentifier::Accumulate,
            amount: Motes(55)
        }
    );
    assert!(FeeHandling::NoFee.is_no_fee());
    assert!(!FeeHandling::Burn.is_no_fee());
}

#[test]
fn settlements_are_balanced() {
    assert_eq!(
        Settlement::of(Motes(100), Motes(30)),
        Settlement { cost: Motes(100), refund: Motes(30), fee: Motes(70) }
    );
    assert_eq!(
        Settlement::of(Motes(100), Motes(100)),
        Settlement { cost: Motes(100), refund: Motes(100), fee: Motes(0) }
    );
    assert_eq!(
        Settlement::of(Motes(100), Motes(101)),
        Settlement { cost: Motes(100), refund: Motes(100), fee: Motes(0) }
    );
    assert_eq!(
        Settlement::of(Motes(0), Motes(u128::MAX)),
        Settlement { cost: Motes(0), refund: Motes(0), fee: Motes(0) }
    );
    assert_eq!(
        Settlement::of(Motes(u128::MAX), Motes(0)),
        Settlement { cost: Motes(u128::MAX), refund: Motes(0), fee: Motes(u128::MAX) }
    );
}

#[test]
fn penalized_purses_are_the_two_penalized_ones() {
    assert!(BalanceIdentifier::PenalizedPayment.is_penalty());
    assert!(BalanceIdentifier::PenalizedAccount(AccountHash([1; 32])).is_penalty());
    for other in [
        BalanceIdentifier::Account(AccountHash([1; 32])),
        BalanceIdentifier::Entity(EntityAddr::SmartContract([1; 32])),
        BalanceIdentifier::Payment,
        BalanceIdentifier::Refund,
        BalanceIdentifier::Accumulate,
        BalanceIdentifier::Public(key(1)),
    ] {
        assert!(!other.is_penalty());
    }
    assert_eq!(
        BalanceIdentifier::from_initiator(InitiatorAddr::PublicKey(key(3))),
        BalanceIdentifier::Public(key(3))
    );
    assert_eq!(
        BalanceIdentifier::from_initiator(InitiatorAddr::AccountHash(AccountHash([4; 32]))),
        BalanceIdentifier::Account(AccountHash([4; 32]))
    );
}

#[test]
fn the_inactive_are_evicted_before_the_equivocators() {
    let report = EraReport {
        equivocators: vec![key(1), key(2)],
        inactive_validators: vec![key(3), key(1)],
    };
    assert_eq!(evict_items(&report), vec![key(3), key(1), key(1), key(2)]);
    let none = EraReport { equivocators: vec![], inactive_validators: vec![] };
    assert!(evict_items(&none).is_empty());
    let request = commit_step(
        ProtocolVersion { major: 1, minor: 2, patch: 3 },
        digest(7),
        &report,
        99,
        EraId(5),
    );
    assert_eq!(request.state_hash, digest(7));
    assert_eq!(request.protocol_version, ProtocolVersion { major: 1, minor: 2, patch: 3 });
    assert!(request.slash_items.is_empty());
    assert_eq!(request.evict_items, vec![key(3), key(1), key(1), key(2)]);
    assert_eq!(request.next_era_id, EraId(5));
    assert_eq!(request.era_end_timestamp_millis, 99);
}

#[test]
fn weights_are_those_of_the_first_entry_for_the_era() {
    let validators = EraValidators {
        eras: vec![
            (EraId(5), ValidatorWeights { entries: vec![(key(1), Motes(10))] }),
            (EraId(6), ValidatorWeights { entries: vec![(key(2), Motes(20)), (key(3), Motes(30))] }),
            (EraId(5), ValidatorWeights { entries: vec![] }),
        ],
    };
    assert_eq!(
        weights_of(&validators, EraId(5)),
        Some(ValidatorWeights { entries: vec![(key(1), Motes(10))] })
    );
    assert_eq!(
        weights_of(&validators, EraId(6)),
        Some(ValidatorWeights { entries: vec![(key(2), Motes(20)), (key(3), Motes(30))] })
    );
    assert_eq!(weights_of(&validators, EraId(7)), None);
}

#[test]
fn the_invoked_contract_pays_where_its_entry_point_says_so() {
    let mut invocation = transaction(3, TransactionEntryPoint::Call);
    invocation.contract_by_hash = Some([8; 32]);
    assert_eq!(
        invoked_contract_will_pay(
            &invocation,
            EntryPointResult::Success { will_pay_direct_invocation: true }
        ),
        Ok(Some(EntityAddr::SmartContract([8; 32])))
    );
    assert_eq!(
        invoked_contract_will_pay(
            &invocation,
            EntryPointResult::Success { will_pay_direct_invocation: false }
        ),
        Ok(None)
    );
    assert_eq!(
        invoked_contract_will_pay(&invocation, EntryPointResult::RootNotFound),
        Err(StateResultError::RootNotFound)
    );
    assert_eq!(
        invoked_contract_will_pay(&invocation, EntryPointResult::ValueNotFound("gone".to_string())),
        Err(StateResultError::ValueNotFound("gone".to_string()))
    );
    assert_eq!(
        invoked_contract_will_pay(&invocation, EntryPointResult::Failure("bytes".to_string())),
        Err(StateResultError::Failure("bytes".to_string()))
    );
    let plain = transaction(3, TransactionEntryPoint::Call);
    assert_eq!(
        invoked_contract_will_pay(
            &plain,
            EntryPointResult::Success { will_pay_direct_invocation: true }
        ),
        Err(StateResultError::ValueNotFound("contract direct address not found".to_string()))
    );
    assert_eq!(
        invoked_contract_will_pay(&plain, EntryPointResult::RootNotFound),
        Err(StateResultError::ValueNotFound("contract direct address not found".to_string()))
    );
}

#[test]
fn artifacts_keep_the_first_error_and_add_up() {
    let first = ArtifactError::Failed { operation: Operation::Transfer, reason: "a".to_string() };
    let second = ArtifactError::InvalidTransaction(InvalidTransaction::NoLaneMatch);
    let artifact = ExecutionArtifact::new(TransactionHash(digest(1)), InitiatorAddr::PublicKey(key(1)))
        .with_gas_limit(Gas(10))
        .with_added_cost(Motes(30))
        .with_added_cost(Motes(u128::MAX))
        .with_added_consumed(Gas(4))
        .with_added_consumed(Gas(5))
        .with_error_if_any(None)
        .with_error(first.clone())
        .with_error(second)
        .with_effects(effects(1))
        .with_effects(effects(2))
        .with_messages(vec![Message { payload: vec![1] }])
        .with_settlement(Settlement::of(Motes(30), Motes(10)));
    assert_eq!(artifact.gas_limit, Gas(10));
    assert_eq!(artifact.cost, Motes(u128::MAX));
    assert_eq!(artifact.consumed, Gas(9));
    assert_eq!(artifact.error, Some(first));
    assert_eq!(artifact.effects.len(), 2);
    assert_eq!(artifact.effects.transforms[1].key, vec![2]);
    assert_eq!(artifact.messages.len(), 1);
    assert_eq!(artifact.settlement.unwrap().fee, Motes(20));

    let held = Held {
        error: Some(ArtifactError::Failed { operation: Operation::Fee, reason: "b".to_string() }),
        consumed: Gas(u128::MAX),
    };
    let recorded = artifact.record(held, effects(3), vec![Message { payload: vec![2] }]);
    assert_eq!(recorded.consumed, Gas(u128::MAX));
    assert!(matches!(
        recorded.error,
        Some(ArtifactError::Failed { operation: Operation::Transfer, .. })
    ));
    assert_eq!(recorded.effects.len(), 3);
    assert_eq!(recorded.messages.len(), 2);
}

#[test]
fn answers_are_put_by_with_their_effects() {
    let (held, reported) =
        EffectsResult::Success { effects: effects(1) }.into_held(Operation::Transfer, Gas(7));
    assert_eq!(held, Held { error: None, consumed: Gas(7) });
    assert_eq!(reported, effects(1));
    let (held, reported) =
        EffectsResult::Failure("no".to_string()).into_held(Operation::GasHold, Gas(0));
    assert_eq!(
        held.error,
        Some(ArtifactError::Failed { operation: Operation::GasHold, reason: "no".to_string() })
    );
    assert!(reported.transforms.is_empty());
    let (held, reported) = EffectsResult::RootNotFound.into_held(Operation::GasHold, Gas(3));
    assert_eq!(held, Held { error: None, consumed: Gas(3) });
    assert!(reported.transforms.is_empty());

    let (held, reported, refunded) =
        HandleRefundResult::Success { effects: effects(2), amount: Some(Motes(9)) }
            .into_held(Operation::Refund);
    assert_eq!(held, Held::nothing());
    assert_eq!(reported, effects(2));
    assert_eq!(refunded, Motes(9));
    let (_, _, refunded) = HandleRefundResult::Success { effects: effects(2), amount: None }
        .into_held(Operation::Refund);
    assert_eq!(refunded, Motes(0));
    let (held, _, refunded) =
        HandleRefundResult::Failure("no".to_string()).into_held(Operation::Refund);
    assert_eq!(refunded, Motes(0));
    assert!(held.error.is_some());

    let invalid = WasmResult::invalid_executable_item("bad".to_string());
    assert_eq!(invalid.consumed, Gas(0));
    assert_eq!(invalid.error, Some(WasmError::Other("bad".to_string())));
    let (held, _, _) = invalid.into_held(Operation::Payment);
    assert_eq!(
        held.error,
        Some(ArtifactError::Failed { operation: Operation::Payment, reason: "bad".to_string() })
    );

    let balance = BalanceResult::Success { total_balance: Motes(10), available_balance: Motes(5) };
    assert!(balance.is_sufficient(Motes(5)));
    assert!(!balance.is_sufficient(Motes(6)));
    assert!(!BalanceResult::RootNotFound.is_sufficient(Motes(0)));
    assert!(!BalanceResult::Failure("x".to_string()).is_sufficient(Motes(0)));
}

fn header() -> BlockHeader {
    BlockHeader {
        block_hash: BlockHash(digest(1)),
        state_root_hash: digest(2),
        height: 77,
        timestamp: Timestamp(1_000),
    }
}

#[test]
fn speculative_execution_starts_by_the_kind_of_transaction() {
    let config = config();
    let mut native = transaction(MINT_LANE_ID, TransactionEntryPoint::Transfer);
    native.is_native = true;
    assert_eq!(
        speculatively_execute(&config, &header(), &native),
        SpeculativeStart::Run(SpeculativeRequest::Transfer {
            state_root: digest(2),
            limit: Gas(10_000)
        })
    );
    let session = transaction(4, TransactionEntryPoint::Call);
    assert_eq!(
        speculatively_execute(&config, &header(), &session),
        SpeculativeStart::Run(SpeculativeRequest::Session {
            state_root: digest(2),
            block_time: 5_096,
            parent_block_hash: BlockHash(digest(1)),
            block_height: 77,
            gas_limit: Gas(5_000_000),
        })
    );
    let mut late = header();
    late.timestamp = Timestamp(u64::MAX - 1);
    assert!(matches!(
        speculatively_execute(&config, &late, &session),
        SpeculativeStart::Run(SpeculativeRequest::Session { block_time: u64::MAX, .. })
    ));
    let mut v1 = transaction(4, TransactionEntryPoint::Call);
    v1.is_deploy = false;
    assert_eq!(
        speculatively_execute(&config, &header(), &v1),
        SpeculativeStart::ReceivedV1Transaction
    );
    let mut conversion_error = transaction(4, TransactionEntryPoint::Call);
    conversion_error.conversion_error = Some("cannot read".to_string());
    assert_eq!(
        speculatively_execute(&config, &header(), &conversion_error),
        SpeculativeStart::InvalidTransaction("cannot read".to_string())
    );
    let no_lane = transaction(99, TransactionEntryPoint::Call);
    assert_eq!(
        speculatively_execute(&config, &header(), &no_lane),
        SpeculativeStart::InvalidGasLimit(TransactionHash(digest(1)))
    );
}

#[test]
fn speculative_results_follow_the_answer() {
    let transfer = SpeculativeRequest::Transfer { state_root: digest(2), limit: Gas(10_000) };
    let session = SpeculativeRequest::Session {
        state_root: digest(2),
        block_time: 5,
        parent_block_hash: BlockHash(digest(1)),
        block_height: 77,
        gas_limit: Gas(500),
    };
    let outcome = |result| match result {
        SpeculativeExecutionResult::WasmV1(outcome) => outcome,
        other => panic!("an outcome expected, got {:?}", other),
    };

    let done = outcome(speculative_result(
        transfer,
        BlockHash(digest(1)),
        SpeculativeResponse::Transfer(EffectsResult::Success { effects: effects(5) }),
    ));
    assert_eq!(done.block_hash, BlockHash(digest(1)));
    assert_eq!(done.limit, Gas(10_000));
    assert_eq!(done.consumed, Gas(10_000));
    assert_eq!(done.effects, effects(5));
    assert_eq!(done.error, None);

    let failed = outcome(speculative_result(
        transfer,
        BlockHash(digest(1)),
        SpeculativeResponse::Transfer(EffectsResult::Failure("poor".to_string())),
    ));
    assert_eq!(failed.consumed, Gas(10_000));
    assert_eq!(failed.error, Some(SpeculativeError::Failed("poor".to_string())));

    let ran = outcome(speculative_result(
        session,
        BlockHash(digest(1)),
        SpeculativeResponse::Session(SessionResponse::Ran(WasmResult {
            effects: effects(6),
            messages: vec![Message { payload: vec![1] }],
            consumed: Gas(123),
            error: Some(WasmError::RootNotFound),
        })),
    ));
    assert_eq!(ran.limit, Gas(500));
    assert_eq!(ran.consumed, Gas(123));
    assert_eq!(ran.effects, effects(6));
    assert_eq!(ran.messages.len(), 1);
    assert_eq!(ran.error, Some(SpeculativeError::RootNotFound));

    let invalid = outcome(speculative_result(
        session,
        BlockHash(digest(1)),
        SpeculativeResponse::Session(SessionResponse::InvalidRequest("empty".to_string())),
    ));
    assert_eq!(invalid.consumed, Gas(0));
    assert_eq!(invalid.error, Some(SpeculativeError::InvalidRequest("empty".to_string())));

    let wrong = outcome(speculative_result(
        session,
        BlockHash(digest(1)),
        SpeculativeResponse::Transfer(EffectsResult::Success { effects: effects(5) }),
    ));
    assert_eq!(wrong.limit, Gas(500));
    assert!(wrong.effects.transforms.is_empty());
    assert_eq!(wrong.error, Some(SpeculativeError::UnexpectedResponse));
}

fn block(state_root: Digest, era_end: Option<EraEnd>) -> Block {
    Block::new(
        BlockHash(digest(1)),
        digest(2),
        state_root,
        true,
        era_end,
        Timestamp(3),
        EraId(4),
        5,
        ProtocolVersion { major: 2, minor: 0, patch: 0 },
        key(6),
        TransactionMap { lanes: vec![(0, vec![TransactionHash(digest(7))])] },
        RewardedSignatures { fields: vec![vec![1, 2]] },
        8,
        Some(BlockHash(digest(9))),
    )
}

#[test]
fn the_block_hash_is_the_digest_of_the_header() {
    let assembled = block(digest(3), None);
    let mut body = Vec::new();
    body.extend_from_slice(&1u64.to_le_bytes());
    body.push(0);
    body.extend_from_slice(&1u64.to_le_bytes());
    body.extend_from_slice(&[7; 32]);
    body.extend_from_slice(&1u64.to_le_bytes());
    body.extend_from_slice(&2u64.to_le_bytes());
    body.extend_from_slice(&[1, 2]);
    let mut seed = vec![2u8; 32];
    seed.push(1);
    let mut header = Vec::new();
    header.extend_from_slice(&[1; 32]);
    header.extend_from_slice(&[3; 32]);
    header.extend_from_slice(&Digest::hash(&body).bytes);
    header.push(1);
    header.extend_from_slice(&Digest::hash(&seed).bytes);
    header.push(0);
    header.extend_from_slice(&3u64.to_le_bytes());
    header.extend_from_slice(&4u64.to_le_bytes());
    header.extend_from_slice(&5u64.to_le_bytes());
    header.extend_from_slice(&2u32.to_le_bytes());
    header.extend_from_slice(&0u32.to_le_bytes());
    header.extend_from_slice(&0u32.to_le_bytes());
    header.push(1);
    header.extend_from_slice(&[6; 32]);
    header.push(8);
    header.push(1);
    header.extend_from_slice(&[9; 32]);
    assert_eq!(assembled.hash, BlockHash(Digest::hash(&header)));
}

#[test]
fn the_block_hash_changes_with_what_the_block_holds() {
    let plain = block(digest(3), None);
    assert_eq!(plain.hash, block(digest(3), None).hash);
    assert_ne!(plain.hash, block(digest(4), None).hash);
    let era_end = |price: u8| EraEnd {
        equivocators: vec![key(1)],
        inactive_validators: vec![],
        next_era_validator_weights: ValidatorWeights { entries: vec![(key(2), Motes(5))] },
        rewards: Rewards { entries: vec![(key(2), vec![Motes(1)])] },
        next_era_gas_price: price,
    };
    let ended = block(digest(3), Some(era_end(1)));
    assert_ne!(ended.hash, plain.hash);
    assert_ne!(ended.hash, block(digest(3), Some(era_end(2))).hash);
    assert_eq!(ended.era_end, Some(era_end(1)));
}
