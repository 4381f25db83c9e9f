use casper_node::bytesrepr::{write_bytes, write_length};
use casper_node::chainspec::vm_config::{
    AuctionCosts, HandlePaymentCosts, MintCosts, StandardPaymentCosts,
};
use casper_node::contract_runtime::artifact::{ExecutionArtifact, Settlement};
use casper_node::contract_runtime::checksum::{
    checksum_registry_effects, compute_execution_results_checksum, invalid_tag, operation_tag,
    serialize_results, write_effects, write_error, write_initiator, write_key, write_result,
    write_settlement, write_transform,
};
use casper_node::contract_runtime::error::{ArtifactError, InvalidTransaction, Operation};
use casper_node::contract_runtime::protocol::{EffectsResult, WasmError, WasmResult};
use casper_node::contract_runtime::speculative::{
    outcome_of_session, outcome_of_transfer, SpeculativeError,
};
use casper_node::contract_runtime::types::{
    Effects, ExecutionPreState, Message, Transform, TransformKind, ValidatorWeights,
};
use casper_node::contract_runtime::config::Ratio;
use casper_node::identity::{AccountHash, InitiatorAddr, PublicKey};
use casper_node::primitives::{
    BlockHash, Digest, EraId, Gas, Motes, TimeDiff, Timestamp, TransactionHash,
};
use casper_node::types::block::{
    check_sufficient_block_signatures, weight_of, BlockHeader, BlockSignatureError,
    BlockSignatures, EraValidatorWeights, Signature,
};
use casper_node::types::transaction::fields::{
    amount_value, key_value, optional_u64_value, transfer_target_value, uref_value,
    write_short_string, NamedArg, RuntimeArgs, TransactionArgs, TransactionInvocationTarget,
    TransferTarget, URef,
};
use casper_node::types::transaction::transaction_v1_builder::TransactionV1Builder;

fn digest(byte: u8) -> Digest {
    Digest { bytes: [byte; 32] }
}

fn transform(key: u8, kind: TransformKind, value: u8) -> Transform {
    Transform { key: vec![key], kind, value: vec![value, value] }
}

fn artifact() -> ExecutionArtifact {
    ExecutionArtifact {
        transaction_hash: TransactionHash(digest(1)),
        initiator: InitiatorAddr::AccountHash(AccountHash([7; 32])),
        gas_limit: Gas(0x0102),
        cost: Motes(3),
        consumed: Gas(2),
        settlement: Some(Settlement { cost: Motes(3), refund: Motes(1), fee: Motes(2) }),
        error: None,
        effects: Effects { transforms: vec![transform(9, TransformKind::Write, 8)] },
        messages: vec![Message { payload: vec![1] }],
    }
}

fn le16(value: u128) -> Vec<u8> {
    value.to_le_bytes().to_vec()
}

fn expected_result() -> Vec<u8> {
    let mut bytes = vec![1u8];
    bytes.extend([7u8; 32]);
    bytes.push(0);
    bytes.extend(le16(0x0102));
    bytes.extend(le16(2));
    bytes.extend(le16(3));
    bytes.push(1);
    bytes.extend(le16(3));
    bytes.extend(le16(1));
    bytes.extend(le16(2));
    bytes.extend(1u64.to_le_bytes());
    bytes.extend(1u64.to_le_bytes());
    bytes.push(9);
    bytes.push(1);
    bytes.extend(2u64.to_le_bytes());
    bytes.extend([8u8, 8]);
    bytes
}

#[test]
fn bytes_and_lengths_are_appended() {
    let mut out = vec![1u8];
    write_bytes(&mut out, &[2, 3]);
    assert_eq!(out, vec![1, 2, 3]);
    write_bytes(&mut out, &[]);
    assert_eq!(out, vec![1, 2, 3]);
    write_length(&mut out, 0x0102);
    assert_eq!(out, vec![1, 2, 3, 2, 1, 0, 0, 0, 0, 0, 0]);
}

#[test]
fn cost_tables_are_appended_as_they_are_turned_into_bytes() {
    let mut out = vec![0xffu8];
    AuctionCosts::default().write_bytes(&mut out);
    let mut expected = vec![0xffu8];
    expected.extend(AuctionCosts::default().to_bytes().unwrap());
    assert_eq!(out, expected);
    assert_eq!(out.len(), 1 + AuctionCosts::default().serialized_length());

    let mut out = Vec::new();
    MintCosts::default().write_bytes(&mut out);
    assert_eq!(Ok(out), MintCosts::default().to_bytes());
    let mut out = Vec::new();
    HandlePaymentCosts::default().write_bytes(&mut out);
    assert_eq!(Ok(out), HandlePaymentCosts::default().to_bytes());
    let mut out = Vec::new();
    StandardPaymentCosts::default().write_bytes(&mut out);
    assert_eq!(out.len(), 4);
    assert_eq!(Ok(out), StandardPaymentCosts::default().to_bytes());
}

#[test]
fn keys_and_initiators_are_tagged() {
    let mut out = Vec::new();
    write_key(&mut out, &PublicKey::System);
    assert_eq!(out, vec![0]);
    let mut out = Vec::new();
    write_key(&mut out, &PublicKey::Ed25519([4; 32]));
    assert_eq!(out.len(), 33);
    assert_eq!(out[0], 1);
    assert_eq!(&out[1..], &[4u8; 32]);
    let mut out = Vec::new();
    write_key(&mut out, &PublicKey::Secp256k1([5; 33]));
    assert_eq!(out.len(), 34);
    assert_eq!(out[0], 2);
    assert_eq!(&out[1..], &[5u8; 33]);

    let mut out = Vec::new();
    write_initiator(&mut out, &InitiatorAddr::PublicKey(PublicKey::Ed25519([4; 32])));
    assert_eq!(out.len(), 34);
    assert_eq!(&out[..2], &[0, 1]);
    let mut out = Vec::new();
    write_initiator(&mut out, &InitiatorAddr::AccountHash(AccountHash([6; 32])));
    assert_eq!(out.len(), 33);
    assert_eq!(out[0], 1);
    assert_eq!(&out[1..], &[6u8; 32]);
}

#[test]
fn every_operation_and_reason_has_a_tag_of_its_own() {
    let operations = [
        Operation::SetRefundPurse,
        Operation::InitialBalance,
        Operation::PayerResolution,
        Operation::Payment,
        Operation::PenaltyTransfer,
        Operation::ProcessingHold,
        Operation::Transfer,
        Operation::AuctionMethod,
        Operation::Bidding,
        Operation::SessionRequest,
        Operation::Execution,
        Operation::ClearHolds,
        Operation::Refund,
        Operation::GasHold,
        Operation::Fee,
        Operation::ClearRefundPurse,
    ];
    for (at, operation) in operations.iter().enumerate() {
        assert_eq!(operation_tag(*operation) as usize, at);
    }
    let reasons = [
        InvalidTransaction::PricingModeNotSupported,
        InvalidTransaction::EntryPointCannotBeCall,
        InvalidTransaction::NoNativeCost,
        InvalidTransaction::NoLaneMatch,
        InvalidTransaction::UnableToCalculateGasCost,
    ];
    for (at, reason) in reasons.iter().enumerate() {
        assert_eq!(invalid_tag(*reason) as usize, at);
    }
}

#[test]
fn errors_are_written_by_their_kind() {
    let mut out = Vec::new();
    write_error(&mut out, &None);
    assert_eq!(out, vec![0]);

    let mut out = Vec::new();
    write_error(
        &mut out,
        &Some(ArtifactError::InvalidTransaction(InvalidTransaction::NoLaneMatch)),
    );
    assert_eq!(out, vec![1, 0, 3]);

    let mut out = Vec::new();
    write_error(
        &mut out,
        &Some(ArtifactError::InsufficientBalance { available: Motes(1), required: Motes(2) }),
    );
    let mut expected = vec![1u8, 1];
    expected.extend(le16(1));
    expected.extend(le16(2));
    assert_eq!(out, expected);

    let mut out = Vec::new();
    write_error(
        &mut out,
        &Some(ArtifactError::Failed { operation: Operation::Fee, reason: "no".to_string() }),
    );
    let mut expected = vec![1u8, 2, 14];
    expected.extend(2u64.to_le_bytes());
    expected.extend(b"no");
    assert_eq!(out, expected);
}

#[test]
fn settlements_transforms_and_effects_are_written_in_order() {
    let mut out = Vec::new();
    write_settlement(&mut out, &None);
    assert_eq!(out, vec![0]);
    let mut out = Vec::new();
    write_settlement(
        &mut out,
        &Some(Settlement { cost: Motes(9), refund: Motes(4), fee: Motes(5) }),
    );
    let mut expected = vec![1u8];
    expected.extend(le16(9));
    expected.extend(le16(4));
    expected.extend(le16(5));
    assert_eq!(out, expected);

    let mut out = Vec::new();
    write_transform(&mut out, &transform(3, TransformKind::Add, 6));
    let mut one = Vec::new();
    one.extend(1u64.to_le_bytes());
    one.push(3);
    one.push(2);
    one.extend(2u64.to_le_bytes());
    one.extend([6u8, 6]);
    assert_eq!(out, one);

    let mut other = Vec::new();
    write_transform(&mut other, &transform(3, TransformKind::Identity, 6));
    assert_eq!(other[9], 0);

    let mut out = Vec::new();
    write_effects(&mut out, &Effects { transforms: vec![] });
    assert_eq!(out, 0u64.to_le_bytes().to_vec());
    let mut out = Vec::new();
    write_effects(
        &mut out,
        &Effects {
            transforms: vec![
                transform(3, TransformKind::Add, 6),
                transform(3, TransformKind::Identity, 6),
            ],
        },
    );
    let mut expected = 2u64.to_le_bytes().to_vec();
    expected.extend(one);
    expected.extend(other);
    assert_eq!(out, expected);
}

#[test]
fn a_result_is_written_field_by_field() {
    let mut out = vec![0xeeu8];
    write_result(&mut out, &artifact());
    let mut expected = vec![0xeeu8];
    expected.extend(expected_result());
    assert_eq!(out, expected);
}

#[test]
fn results_are_serialized_behind_their_number() {
    assert_eq!(serialize_results(&vec![]), vec![0, 0, 0, 0]);

    let mut second = artifact();
    second.error = Some(ArtifactError::InvalidTransaction(InvalidTransaction::NoNativeCost));
    let bytes = serialize_results(&vec![artifact(), second.clone()]);
    let mut expected = vec![2u8, 0, 0, 0];
    expected.extend(expected_result());
    let mut out = Vec::new();
    write_result(&mut out, &second);
    expected.extend(out);
    assert_eq!(bytes, expected);

    // The checksum is the digest of these bytes where they are few.
    assert_eq!(
        compute_execution_results_checksum(&vec![artifact(), second]),
        Ok(Digest::hash(&bytes))
    );
}

#[test]
fn serialized_results_leave_out_what_is_no_part_of_a_result() {
    let mut other = artifact();
    other.transaction_hash = TransactionHash(digest(2));
    other.messages = vec![];
    assert_eq!(serialize_results(&vec![artifact()]), serialize_results(&vec![other]));

    let mut changed = artifact();
    changed.consumed = Gas(3);
    assert_ne!(serialize_results(&vec![artifact()]), serialize_results(&vec![changed]));
}

#[test]
fn the_checksum_registry_is_written_by_one_effect() {
    let effects = checksum_registry_effects(&digest(1), &digest(2));
    assert_eq!(effects.transforms.len(), 1);
    let written = &effects.transforms[0];
    assert_eq!(written.kind, TransformKind::Write);
    let value = &written.value;
    let approvals = b"approvals_checksum";
    let results = b"execution_results_checksum";
    let find = |needle: &[u8]| value.windows(needle.len()).position(|w| w == needle);
    let at_approvals = find(approvals).expect("the approvals checksum is named");
    let at_results = find(results).expect("the results checksum is named");
    assert!(at_approvals < at_results);
    assert_eq!(
        &value[at_approvals + approvals.len()..at_approvals + approvals.len() + 32],
        &[1u8; 32]
    );
    assert_eq!(&value[at_results + results.len()..at_results + results.len() + 32], &[2u8; 32]);

    let again = checksum_registry_effects(&digest(1), &digest(2));
    assert_eq!(effects, again);
    let other = checksum_registry_effects(&digest(2), &digest(1));
    assert_eq!(other.transforms[0].key, written.key);
    assert_ne!(other.transforms[0].value, written.value);
}

#[test]
fn a_speculative_transfer_consumes_its_limit() {
    let effects = Effects { transforms: vec![transform(1, TransformKind::Write, 1)] };
    let outcome = outcome_of_transfer(
        Gas(100),
        EffectsResult::Success { effects: effects.clone() },
        BlockHash(digest(3)),
    );
    assert_eq!(outcome.block_hash, BlockHash(digest(3)));
    assert_eq!(outcome.limit, Gas(100));
    assert_eq!(outcome.consumed, Gas(100));
    assert_eq!(outcome.effects, effects);
    assert!(outcome.messages.is_empty());
    assert_eq!(outcome.error, None);

    let outcome = outcome_of_transfer(
        Gas(100),
        EffectsResult::Failure("short".to_string()),
        BlockHash(digest(3)),
    );
    assert_eq!(outcome.consumed, Gas(100));
    assert!(outcome.effects.transforms.is_empty());
    assert_eq!(outcome.error, Some(SpeculativeError::Failed("short".to_string())));

    let outcome = outcome_of_transfer(Gas(5), EffectsResult::RootNotFound, BlockHash(digest(3)));
    assert_eq!(outcome.consumed, Gas(5));
    assert_eq!(outcome.error, Some(SpeculativeError::RootNotFound));
}

#[test]
fn a_speculative_session_consumes_what_the_machine_reports() {
    let effects = Effects { transforms: vec![transform(1, TransformKind::Add, 2)] };
    let messages = vec![Message { payload: vec![4] }];
    let outcome = outcome_of_session(
        Gas(100),
        WasmResult {
            effects: effects.clone(),
            messages: messages.clone(),
            consumed: Gas(40),
            error: None,
        },
        BlockHash(digest(3)),
    );
    assert_eq!(outcome.limit, Gas(100));
    assert_eq!(outcome.consumed, Gas(40));
    assert_eq!(outcome.effects, effects);
    assert_eq!(outcome.messages, messages);
    assert_eq!(outcome.error, None);

    let outcome = outcome_of_session(
        Gas(100),
        WasmResult {
            effects: Effects { transforms: vec![] },
            messages: vec![],
            consumed: Gas(100),
            error: Some(WasmError::Other("trap".to_string())),
        },
        BlockHash(digest(3)),
    );
    assert_eq!(outcome.error, Some(SpeculativeError::Failed("trap".to_string())));
    let outcome = outcome_of_session(
        Gas(100),
        WasmResult {
            effects: Effects { transforms: vec![] },
            messages: vec![],
            consumed: Gas(0),
            error: Some(WasmError::RootNotFound),
        },
        BlockHash(digest(3)),
    );
    assert_eq!(outcome.error, Some(SpeculativeError::RootNotFound));
}

#[test]
fn effects_are_appended_behind_those_held() {
    let mut effects = Effects { transforms: vec![transform(1, TransformKind::Write, 1)] };
    effects.append(Effects {
        transforms: vec![
            transform(2, TransformKind::Add, 2),
            transform(1, TransformKind::Write, 3),
        ],
    });
    assert_eq!(
        effects.transforms,
        vec![
            transform(1, TransformKind::Write, 1),
            transform(2, TransformKind::Add, 2),
            transform(1, TransformKind::Write, 3),
        ]
    );
    effects.append(Effects::new());
    assert_eq!(effects.len(), 3);
}

#[test]
fn the_pre_state_tells_what_it_was_made_of() {
    let pre_state =
        ExecutionPreState::new(5, digest(1), BlockHash(digest(2)), digest(3));
    assert_eq!(pre_state.next_block_height(), 5);
    assert_eq!(pre_state.pre_state_root_hash(), digest(1));
    assert_eq!(pre_state.parent_hash(), BlockHash(digest(2)));
    assert_eq!(pre_state.parent_seed(), digest(3));
}

#[test]
fn times_are_counted_in_milliseconds() {
    assert_eq!(Timestamp(17).millis(), 17);
    assert_eq!(TimeDiff::from_millis(1_500).millis(), 1_500);
    assert_eq!(TimeDiff::from_millis(1_500), TimeDiff(1_500));
    assert_eq!(TimeDiff::from_seconds(2), TimeDiff::from_millis(2_000));
}

fn header(era: u64, height: u64, weights: Option<ValidatorWeights>) -> BlockHeader {
    BlockHeader {
        block_hash: BlockHash(digest(height as u8)),
        parent_hash: BlockHash(digest(0)),
        era_id: EraId(era),
        height,
        next_era_validator_weights: weights,
    }
}

fn weights() -> ValidatorWeights {
    ValidatorWeights {
        entries: vec![
            (PublicKey::Ed25519([1; 32]), Motes(100)),
            (PublicKey::Ed25519([2; 32]), Motes(100)),
            (PublicKey::Ed25519([3; 32]), Motes(100)),
        ],
    }
}

#[test]
fn a_header_tells_the_era_of_the_block_that_follows() {
    assert!(header(0, 0, None).is_genesis());
    assert!(!header(0, 1, None).is_genesis());
    assert!(!header(1, 0, None).is_genesis());

    assert_eq!(header(4, 9, None).next_block_era_id(), EraId(4));
    assert_eq!(header(4, 9, Some(weights())).next_block_era_id(), EraId(5));
    assert_eq!(header(u64::MAX, 9, Some(weights())).next_block_era_id(), EraId(u64::MAX));
}

#[test]
fn a_weight_is_found_by_its_key() {
    let weights = weights();
    assert_eq!(weight_of(&weights.entries, &PublicKey::Ed25519([2; 32])), Some(Motes(100)));
    assert_eq!(weight_of(&weights.entries, &PublicKey::Ed25519([9; 32])), None);
    assert_eq!(weight_of(&weights.entries, &PublicKey::System), None);
    assert_eq!(weight_of(&vec![], &PublicKey::System), None);
    // The first of two entries under one key is the one that counts.
    let twice = vec![
        (PublicKey::Ed25519([1; 32]), Motes(1)),
        (PublicKey::Ed25519([1; 32]), Motes(2)),
    ];
    assert_eq!(weight_of(&twice, &PublicKey::Ed25519([1; 32])), Some(Motes(1)));

    let era = EraValidatorWeights::new(EraId(3), weights.clone(), Ratio { numer: 1, denom: 3 });
    assert_eq!(era.era_id(), EraId(3));
    assert_eq!(era.validator_weights(), &weights);
    assert_eq!(era.finality_threshold_fraction(), Ratio { numer: 1, denom: 3 });
}

fn signatures(signers: &[u8]) -> BlockSignatures {
    let mut signatures = BlockSignatures::new(BlockHash(digest(1)), EraId(1));
    for signer in signers {
        signatures.insert_proof(PublicKey::Ed25519([*signer; 32]), Signature::Ed25519);
    }
    signatures
}

#[test]
fn signatures_suffice_above_two_thirds_at_a_third_of_tolerance() {
    let third = Ratio { numer: 1, denom: 3 };
    // All three sign: 300 of 300.
    assert_eq!(
        check_sufficient_block_signatures(&weights(), third, Some(&signatures(&[1, 2, 3]))),
        Ok(())
    );
    // Two sign: 200 of 300 is two thirds, which is not more than two thirds.
    assert_eq!(
        check_sufficient_block_signatures(&weights(), third, Some(&signatures(&[1, 2]))),
        Err(BlockSignatureError::InsufficientWeightForFinality {
            signature_weight: Some(Motes(200)),
            total_validator_weight: Motes(300),
            fault_tolerance_fraction: third,
        })
    );
    // With no tolerance more than the half is enough.
    let none = Ratio { numer: 0, denom: 1 };
    assert_eq!(
        check_sufficient_block_signatures(&weights(), none, Some(&signatures(&[1, 2]))),
        Ok(())
    );
    assert_eq!(
        check_sufficient_block_signatures(&weights(), none, Some(&signatures(&[3]))),
        Err(BlockSignatureError::InsufficientWeightForFinality {
            signature_weight: Some(Motes(100)),
            total_validator_weight: Motes(300),
            fault_tolerance_fraction: none,
        })
    );
}

#[test]
fn signatures_of_strangers_and_missing_signatures_are_told_apart() {
    let third = Ratio { numer: 1, denom: 3 };
    assert_eq!(
        check_sufficient_block_signatures(&weights(), third, Some(&signatures(&[1, 8, 2, 9, 3]))),
        Err(BlockSignatureError::BogusValidators {
            bogus_validators: vec![PublicKey::Ed25519([8; 32]), PublicKey::Ed25519([9; 32])],
        })
    );
    assert_eq!(
        check_sufficient_block_signatures(&weights(), third, None),
        Err(BlockSignatureError::InsufficientWeightForFinality {
            signature_weight: None,
            total_validator_weight: Motes(300),
            fault_tolerance_fraction: third,
        })
    );
    assert_eq!(
        check_sufficient_block_signatures(&weights(), third, Some(&signatures(&[]))),
        Err(BlockSignatureError::InsufficientWeightForFinality {
            signature_weight: Some(Motes(0)),
            total_validator_weight: Motes(300),
            fault_tolerance_fraction: third,
        })
    );
}

#[test]
fn weights_beyond_the_largest_amount_stop_there() {
    let heavy = ValidatorWeights {
        entries: vec![
            (PublicKey::Ed25519([1; 32]), Motes(u128::MAX)),
            (PublicKey::Ed25519([2; 32]), Motes(u128::MAX)),
        ],
    };
    let third = Ratio { numer: 1, denom: 3 };
    assert_eq!(
        check_sufficient_block_signatures(&heavy, third, Some(&signatures(&[1, 2]))),
        Ok(())
    );
    assert_eq!(
        check_sufficient_block_signatures(&heavy, third, Some(&signatures(&[]))),
        Err(BlockSignatureError::InsufficientWeightForFinality {
            signature_weight: Some(Motes(0)),
            total_validator_weight: Motes(u128::MAX),
            fault_tolerance_fraction: third,
        })
    );
}

#[test]
fn targets_are_made_by_hash_or_by_name() {
    assert_eq!(
        TransactionInvocationTarget::new_invocable_entity([1; 32]),
        TransactionInvocationTarget::ByHash([1; 32])
    );
    assert_eq!(
        TransactionInvocationTarget::new_invocable_entity_alias("a".to_string()),
        TransactionInvocationTarget::ByName("a".to_string())
    );
    assert_eq!(
        TransactionInvocationTarget::new_package([2; 32], Some(3)),
        TransactionInvocationTarget::ByPackageHash { addr: [2; 32], version: Some(3) }
    );
    assert_eq!(
        TransactionInvocationTarget::new_package_alias("p".to_string(), None),
        TransactionInvocationTarget::ByPackageName { name: "p".to_string(), version: None }
    );
}

#[test]
fn a_short_string_stands_behind_its_length_in_four_bytes() {
    let mut out = vec![9u8];
    assert!(write_short_string(&mut out, b"abc"));
    assert_eq!(out, vec![9, 3, 0, 0, 0, b'a', b'b', b'c']);
    let mut out = Vec::new();
    assert!(write_short_string(&mut out, b""));
    assert_eq!(out, vec![0, 0, 0, 0]);
}

#[test]
fn argument_values_are_written_as_plain_bytes() {
    assert_eq!(amount_value(Motes(0x0102)), le16(0x0102));
    assert_eq!(key_value(&PublicKey::System), vec![0]);
    let mut expected = vec![1u8];
    expected.extend([4u8; 32]);
    assert_eq!(key_value(&PublicKey::Ed25519([4; 32])), expected);

    assert_eq!(optional_u64_value(None), vec![0]);
    assert_eq!(optional_u64_value(Some(0x0102)), vec![1, 2, 1, 0, 0, 0, 0, 0, 0]);

    let mut expected = vec![0u8, 1];
    expected.extend([4u8; 32]);
    assert_eq!(
        transfer_target_value(&TransferTarget::PublicKey(PublicKey::Ed25519([4; 32]))),
        expected
    );
    let mut expected = vec![1u8];
    expected.extend([5u8; 32]);
    assert_eq!(transfer_target_value(&TransferTarget::AccountHash(AccountHash([5; 32]))), expected);
    let uref = URef { addr: [6; 32], access_rights: 7 };
    let mut expected = vec![2u8];
    expected.extend([6u8; 32]);
    expected.push(7);
    assert_eq!(transfer_target_value(&TransferTarget::URef(uref)), expected);
    assert_eq!(uref_value(&uref), expected[1..].to_vec());
}

#[test]
fn runtime_args_replace_those_that_were_set() {
    let first = RuntimeArgs { args: vec![NamedArg { name: "a".to_string(), value: vec![1] }] };
    let second = RuntimeArgs { args: vec![NamedArg { name: "b".to_string(), value: vec![2] }] };
    let builder = TransactionV1Builder::new(Timestamp(1))
        .with_runtime_args(first)
        .with_runtime_args(second.clone());
    assert_eq!(builder.args, TransactionArgs::Named(second));
    assert_eq!(builder.timestamp, Timestamp(1));
}

#[test]
fn weights_are_those_of_a_set_where_no_key_occurs_twice() {
    assert!(weights().is_valid());
    assert!(ValidatorWeights { entries: vec![] }.is_valid());
    assert!(ValidatorWeights { entries: vec![(PublicKey::System, Motes(1))] }.is_valid());
    let twice = ValidatorWeights {
        entries: vec![
            (PublicKey::Ed25519([1; 32]), Motes(1)),
            (PublicKey::Ed25519([2; 32]), Motes(1)),
            (PublicKey::Ed25519([1; 32]), Motes(2)),
        ],
    };
    assert!(!twice.is_valid());
    let at_the_end = ValidatorWeights {
        entries: vec![
            (PublicKey::Ed25519([1; 32]), Motes(1)),
            (PublicKey::Secp256k1([1; 33]), Motes(1)),
            (PublicKey::Secp256k1([1; 33]), Motes(1)),
        ],
    };
    assert!(!at_the_end.is_valid());
}

#[test]
fn the_settled_cost_is_part_of_the_bytes_of_a_result() {
    let mut other = artifact();
    other.settlement = Some(Settlement { cost: Motes(4), refund: Motes(1), fee: Motes(2) });
    assert_ne!(serialize_results(&vec![artifact()]), serialize_results(&vec![other]));
}
