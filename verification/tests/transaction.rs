use casper_node::contract_runtime::types::{PricingMode, TransactionEntryPoint};
use casper_node::identity::{AccountHash, InitiatorAddr, PublicKey};
use casper_node::primitives::{Digest, EraId, Motes, TimeDiff, Timestamp};
use casper_node::types::transaction::drawn::{
    drawn_arg, drawn_entry_point, drawn_scheduling, drawn_text, letter,
};
use casper_node::types::transaction::fields::{
    args_bytes, entry_point_bytes, scheduling_bytes, target_bytes, NamedArg, RuntimeArgs,
    TransactionArgs, TransactionInvocationTarget, TransactionRuntime, TransactionScheduling,
    TransactionTarget, TransferTarget, URef,
};
use casper_node::types::transaction::transaction_v1_builder::{
    build_transaction, default_pricing_mode, to_map, Approval, Fields, InitiatorAddrAndSecretKey,
    SecretKey, TransactionV1Builder, TransactionV1BuilderError, DEFAULT_TTL_MILLIS, MAX_TTL_MILLIS,
};
use rand::rngs::StdRng;
use rand::SeedableRng;

fn now() -> Timestamp {
    Timestamp(1_700_000_000_000)
}

fn secret() -> SecretKey {
    SecretKey { public_key: PublicKey::Ed25519([5; 32]) }
}

fn field(fields: &Fields, index: u16) -> Option<Vec<u8>> {
    fields.entries.iter().find(|(at, _)| *at == index).map(|(_, bytes)| bytes.clone())
}

#[test]
fn new_builder_has_the_defaults() {
    let builder = TransactionV1Builder::new(now());
    assert_eq!(builder.args, TransactionArgs::Named(RuntimeArgs::new()));
    assert_eq!(builder.entry_point, TransactionEntryPoint::Transfer);
    assert_eq!(builder.target, TransactionTarget::Native);
    assert_eq!(builder.scheduling, TransactionScheduling::Standard);
    assert_eq!(builder.chain_name, None);
    assert_eq!(builder.timestamp, now());
    assert_eq!(builder.ttl, TimeDiff(30 * 60 * 1_000));
    assert_eq!(DEFAULT_TTL_MILLIS, 30 * 60 * 1_000);
    assert_eq!(
        builder.pricing_mode,
        PricingMode::Fixed { gas_price_tolerance: 5, additional_computation_factor: 0 }
    );
    assert_eq!(default_pricing_mode(), builder.pricing_mode);
    assert_eq!(builder.initiator_addr, None);
    assert_eq!(builder.secret_key, None);
}

#[test]
fn building_without_initiator_or_key_fails() {
    let result = TransactionV1Builder::new(now()).with_chain_name("net".to_string()).build();
    assert_eq!(result, Err(TransactionV1BuilderError::MissingInitiatorAddr));
    // The initiator is missed before the chain name is.
    assert_eq!(
        TransactionV1Builder::new(now()).build(),
        Err(TransactionV1BuilderError::MissingInitiatorAddr)
    );
}

#[test]
fn building_without_chain_name_fails() {
    let result = TransactionV1Builder::new(now()).with_secret_key(&secret()).build();
    assert_eq!(result, Err(TransactionV1BuilderError::MissingChainName));
    let result = TransactionV1Builder::new(now())
        .with_initiator_addr(InitiatorAddr::AccountHash(AccountHash([1; 32])))
        .build();
    assert_eq!(result, Err(TransactionV1BuilderError::MissingChainName));
}

#[test]
fn the_initiator_is_the_one_given_or_the_owner_of_the_key() {
    let by_key = TransactionV1Builder::new(now())
        .with_chain_name("net".to_string())
        .with_secret_key(&secret())
        .build()
        .unwrap();
    assert_eq!(by_key.payload.initiator_addr, InitiatorAddr::PublicKey(secret().public_key));
    assert_eq!(by_key.approvals, vec![Approval { signer: secret().public_key }]);

    let initiator = InitiatorAddr::AccountHash(AccountHash([1; 32]));
    let both = TransactionV1Builder::new(now())
        .with_chain_name("net".to_string())
        .with_secret_key(&secret())
        .with_initiator_addr(initiator)
        .build()
        .unwrap();
    assert_eq!(both.payload.initiator_addr, initiator);
    assert_eq!(both.approvals, vec![Approval { signer: secret().public_key }]);

    let unsigned = TransactionV1Builder::new(now())
        .with_chain_name("net".to_string())
        .with_initiator_addr(initiator)
        .build()
        .unwrap();
    assert_eq!(unsigned.payload.initiator_addr, initiator);
    assert!(unsigned.approvals.is_empty());
    assert_ne!(unsigned.hash, by_key.hash);
    // Signing does not change what the transaction is named by.
    assert_eq!(unsigned.hash, both.hash);
}

#[test]
fn the_built_transaction_holds_what_the_builder_was_given() {
    let transaction = TransactionV1Builder::new(now())
        .with_chain_name("casper-net".to_string())
        .with_timestamp(Timestamp(77))
        .with_ttl(TimeDiff(88))
        .with_pricing_mode(PricingMode::PaymentLimited {
            payment_amount: 9,
            gas_price_tolerance: 1,
            standard_payment: true,
        })
        .with_secret_key(&secret())
        .build()
        .unwrap();
    assert_eq!(transaction.payload.chain_name, "casper-net");
    assert_eq!(transaction.payload.timestamp, Timestamp(77));
    assert_eq!(transaction.payload.ttl, TimeDiff(88));
    assert_eq!(
        transaction.payload.pricing_mode,
        PricingMode::PaymentLimited { payment_amount: 9, gas_price_tolerance: 1, standard_payment: true }
    );
    let places: Vec<u16> = transaction.payload.fields.entries.iter().map(|(at, _)| *at).collect();
    assert_eq!(places, vec![0, 1, 2, 3]);
    assert_eq!(field(&transaction.payload.fields, 0), Some(vec![0, 0, 0, 0, 0]));
    assert_eq!(field(&transaction.payload.fields, 1), Some(vec![0]));
    assert_eq!(field(&transaction.payload.fields, 2), Some(vec![2]));
    assert_eq!(field(&transaction.payload.fields, 3), Some(vec![0]));
}

#[test]
fn the_hash_is_the_digest_of_the_payload() {
    let transaction = TransactionV1Builder::new(Timestamp(1))
        .with_chain_name("n".to_string())
        .with_ttl(TimeDiff(2))
        .with_initiator_addr(InitiatorAddr::AccountHash(AccountHash([3; 32])))
        .build()
        .unwrap();
    let mut bytes = Vec::new();
    bytes.extend_from_slice(&1u64.to_le_bytes());
    bytes.push(b'n');
    bytes.extend_from_slice(&1u64.to_le_bytes());
    bytes.extend_from_slice(&2u64.to_le_bytes());
    bytes.extend_from_slice(&[1, 5, 0]);
    bytes.push(1);
    bytes.extend_from_slice(&[3; 32]);
    bytes.extend_from_slice(&4u64.to_le_bytes());
    for (index, field) in [(0u16, vec![0u8, 0, 0, 0, 0]), (1, vec![0]), (2, vec![2]), (3, vec![0])] {
        bytes.extend_from_slice(&index.to_le_bytes());
        bytes.extend_from_slice(&(field.len() as u64).to_le_bytes());
        bytes.extend_from_slice(&field);
    }
    assert_eq!(transaction.hash.0, Digest::hash(&bytes));
}

#[test]
fn additional_fields_take_the_place_of_those_made() {
    let transaction = TransactionV1Builder::new(now())
        .with_chain_name("net".to_string())
        .with_secret_key(&secret())
        .with_additional_fields(vec![(7, vec![7, 7]), (1, vec![9]), (7, vec![8])])
        .build()
        .unwrap();
    let places: Vec<u16> = transaction.payload.fields.entries.iter().map(|(at, _)| *at).collect();
    assert_eq!(places, vec![0, 1, 2, 3, 7]);
    assert_eq!(field(&transaction.payload.fields, 1), Some(vec![9]));
    // Of two additional fields for one place the later counts.
    assert_eq!(field(&transaction.payload.fields, 7), Some(vec![8]));
    assert_eq!(field(&transaction.payload.fields, 2), Some(vec![2]));
}

#[test]
fn invalid_approvals_follow_the_signature() {
    let mut builder = TransactionV1Builder::new(now())
        .with_chain_name("net".to_string())
        .with_secret_key(&secret());
    builder.invalid_approvals = vec![Approval { signer: PublicKey::System }];
    let transaction = builder.build().unwrap();
    assert_eq!(
        transaction.approvals,
        vec![Approval { signer: secret().public_key }, Approval { signer: PublicKey::System }]
    );
}

#[test]
fn native_builders_set_entry_point_and_arguments() {
    let key = PublicKey::Ed25519([1; 32]);
    let other = PublicKey::Secp256k1([2; 33]);
    let names = |builder: &TransactionV1Builder| match &builder.args {
        TransactionArgs::Named(args) => {
            args.args.iter().map(|arg| arg.name.clone()).collect::<Vec<String>>()
        }
        TransactionArgs::Bytesrepr(_) => panic!("named arguments expected"),
    };

    let transfer = TransactionV1Builder::new_transfer(
        now(),
        Motes(2_500_000_000),
        Some(URef { addr: [3; 32], access_rights: 7 }),
        TransferTarget::PublicKey(key),
        Some(42),
    );
    assert_eq!(transfer.entry_point, TransactionEntryPoint::Transfer);
    assert_eq!(transfer.target, TransactionTarget::Native);
    assert_eq!(names(&transfer), vec!["source", "target", "amount", "id"]);
    if let TransactionArgs::Named(args) = &transfer.args {
        assert_eq!(args.args[2].value, 2_500_000_000u128.to_le_bytes().to_vec());
        let mut source = vec![3u8; 32];
        source.push(7);
        assert_eq!(args.args[0].value, source);
        let mut target = vec![0u8, 1];
        target.extend_from_slice(&[1; 32]);
        assert_eq!(args.args[1].value, target);
        let mut id = vec![1u8];
        id.extend_from_slice(&42u64.to_le_bytes());
        assert_eq!(args.args[3].value, id);
    }
    let plain = TransactionV1Builder::new_transfer(
        now(),
        Motes(1),
        None,
        TransferTarget::AccountHash(AccountHash([4; 32])),
        None,
    );
    assert_eq!(names(&plain), vec!["target", "amount"]);

    let add_bid =
        TransactionV1Builder::new_add_bid(now(), key, 10, Motes(5), Some(1), None, Some(3));
    assert_eq!(add_bid.entry_point, TransactionEntryPoint::AddBid);
    assert_eq!(
        names(&add_bid),
        vec!["public_key", "delegation_rate", "amount", "minimum_delegation_amount", "reserved_slots"]
    );

    let withdraw = TransactionV1Builder::new_withdraw_bid(now(), key, Motes(5));
    assert_eq!(withdraw.entry_point, TransactionEntryPoint::WithdrawBid);
    assert_eq!(names(&withdraw), vec!["public_key", "amount"]);

    let delegate = TransactionV1Builder::new_delegate(now(), key, other, Motes(5));
    assert_eq!(delegate.entry_point, TransactionEntryPoint::Delegate);
    assert_eq!(names(&delegate), vec!["delegator", "validator", "amount"]);

    let undelegate = TransactionV1Builder::new_undelegate(now(), key, other, Motes(5));
    assert_eq!(undelegate.entry_point, TransactionEntryPoint::Undelegate);
    assert_eq!(names(&undelegate), vec!["delegator", "validator", "amount"]);
    assert_eq!(undelegate.scheduling, TransactionScheduling::Standard);
}

#[test]
fn stored_and_session_builders_set_their_target() {
    let entity = TransactionV1Builder::new_targeting_invocable_entity(
        now(),
        [1; 32],
        "mint".to_string(),
        TransactionRuntime::VmCasperV1,
        10,
    );
    assert_eq!(
        entity.target,
        TransactionTarget::Stored {
            id: TransactionInvocationTarget::ByHash([1; 32]),
            runtime: TransactionRuntime::VmCasperV1,
            transferred_value: 10,
        }
    );
    assert_eq!(entity.entry_point, TransactionEntryPoint::Custom("mint".to_string()));
    let alias = TransactionV1Builder::new_targeting_invocable_entity_via_alias(
        now(),
        "token".to_string(),
        "mint".to_string(),
        TransactionRuntime::VmCasperV2,
        0,
    );
    assert!(matches!(
        alias.target,
        TransactionTarget::Stored { id: TransactionInvocationTarget::ByName(ref name), .. } if name == "token"
    ));
    let package = TransactionV1Builder::new_targeting_package(
        now(),
        [2; 32],
        Some(3),
        "run".to_string(),
        TransactionRuntime::VmCasperV1,
        0,
    );
    assert!(matches!(
        package.target,
        TransactionTarget::Stored {
            id: TransactionInvocationTarget::ByPackageHash { addr, version: Some(3) },
            ..
        } if addr == [2; 32]
    ));
    let package_alias = TransactionV1Builder::new_targeting_package_via_alias(
        now(),
        "pkg".to_string(),
        None,
        "run".to_string(),
        TransactionRuntime::VmCasperV1,
        0,
    );
    assert!(matches!(
        package_alias.target,
        TransactionTarget::Stored {
            id: TransactionInvocationTarget::ByPackageName { ref name, version: None },
            ..
        } if name == "pkg"
    ));
    let session = TransactionV1Builder::new_session(
        now(),
        true,
        vec![0, 97, 115, 109],
        TransactionRuntime::VmCasperV1,
        5,
        Some([9; 32]),
    );
    assert_eq!(session.entry_point, TransactionEntryPoint::Call);
    assert_eq!(
        session.target,
        TransactionTarget::Session {
            is_install_upgrade: true,
            module_bytes: vec![0, 97, 115, 109],
            runtime: TransactionRuntime::VmCasperV1,
            transferred_value: 5,
            seed: Some([9; 32]),
        }
    );
}

#[test]
fn fields_have_their_byte_representation() {
    assert_eq!(target_bytes(&TransactionTarget::Native), Some(vec![0]));
    let stored = TransactionTarget::Stored {
        id: TransactionInvocationTarget::ByName("ab".to_string()),
        runtime: TransactionRuntime::VmCasperV2,
        transferred_value: 1,
    };
    assert_eq!(
        target_bytes(&stored),
        Some(vec![1, 1, 2, 0, 0, 0, b'a', b'b', 1, 1, 0, 0, 0, 0, 0, 0, 0])
    );
    let session = TransactionTarget::Session {
        is_install_upgrade: false,
        module_bytes: vec![7],
        runtime: TransactionRuntime::VmCasperV1,
        transferred_value: 0,
        seed: None,
    };
    assert_eq!(
        target_bytes(&session),
        Some(vec![2, 0, 1, 0, 0, 0, 7, 0, 0, 0, 0, 0, 0, 0, 0, 0, 0])
    );
    assert_eq!(entry_point_bytes(&TransactionEntryPoint::Call), Some(vec![0]));
    assert_eq!(
        entry_point_bytes(&TransactionEntryPoint::Custom("x".to_string())),
        Some(vec![1, 1, 0, 0, 0, b'x'])
    );
    assert_eq!(entry_point_bytes(&TransactionEntryPoint::ChangeBidPublicKey), Some(vec![9]));
    assert_eq!(scheduling_bytes(TransactionScheduling::Standard), vec![0]);
    assert_eq!(
        scheduling_bytes(TransactionScheduling::FutureEra(EraId(2))),
        vec![1, 2, 0, 0, 0, 0, 0, 0, 0]
    );
    assert_eq!(
        scheduling_bytes(TransactionScheduling::FutureTimestamp(Timestamp(3))),
        vec![2, 3, 0, 0, 0, 0, 0, 0, 0]
    );
    let mut args = RuntimeArgs::new();
    args.insert("a".to_string(), vec![5, 6]);
    assert_eq!(args.args, vec![NamedArg { name: "a".to_string(), value: vec![5, 6] }]);
    assert_eq!(
        args_bytes(&TransactionArgs::Named(args)),
        Some(vec![0, 1, 0, 0, 0, 1, 0, 0, 0, b'a', 2, 0, 0, 0, 5, 6])
    );
    assert_eq!(
        args_bytes(&TransactionArgs::Bytesrepr(vec![1])),
        Some(vec![1, 1, 0, 0, 0, 1])
    );
}

#[test]
fn the_map_of_fields_holds_the_four_fields() {
    let fields = to_map(
        &TransactionArgs::Named(RuntimeArgs::new()),
        &TransactionTarget::Native,
        &TransactionEntryPoint::Delegate,
        TransactionScheduling::Standard,
    )
    .unwrap();
    assert_eq!(
        fields.entries,
        vec![(0, vec![0, 0, 0, 0, 0]), (1, vec![0]), (2, vec![5]), (3, vec![0])]
    );
    let mut fields = Fields::new();
    fields.insert(5, vec![1]);
    fields.insert(2, vec![2]);
    fields.insert(9, vec![3]);
    fields.insert(5, vec![4]);
    assert_eq!(fields.entries, vec![(2, vec![2]), (5, vec![4]), (9, vec![3])]);
}

#[test]
fn transactions_are_signed_where_a_key_is_given() {
    let initiator = InitiatorAddr::AccountHash(AccountHash([1; 32]));
    let both = InitiatorAddrAndSecretKey::Both { initiator_addr: initiator, secret_key: secret() };
    assert_eq!(both.initiator_addr(), initiator);
    assert_eq!(both.secret_key(), Some(secret()));
    let only_initiator = InitiatorAddrAndSecretKey::InitiatorAddr(initiator);
    assert_eq!(only_initiator.secret_key(), None);
    let only_key = InitiatorAddrAndSecretKey::SecretKey(secret());
    assert_eq!(only_key.initiator_addr(), InitiatorAddr::PublicKey(secret().public_key));

    let signed = build_transaction(
        "net".to_string(),
        now(),
        TimeDiff(1),
        default_pricing_mode(),
        Fields::new(),
        only_key,
    );
    assert_eq!(signed.approvals, vec![Approval { signer: secret().public_key }]);
    let unsigned = build_transaction(
        "net".to_string(),
        now(),
        TimeDiff(1),
        default_pricing_mode(),
        Fields::new(),
        only_initiator,
    );
    assert!(unsigned.approvals.is_empty());
}

#[test]
fn random_builders_build() {
    let mut rng = StdRng::seed_from_u64(5);
    let mut hashes = Vec::new();
    for _ in 0..20 {
        let builder = TransactionV1Builder::new_random(&mut rng);
        assert!(builder.ttl.0 >= 60_000 && builder.ttl.0 < MAX_TTL_MILLIS);
        let signer = builder.secret_key.unwrap().public_key;
        let transaction = builder.build().expect("a random transaction should build");
        assert_eq!(transaction.payload.initiator_addr, InitiatorAddr::PublicKey(signer));
        assert_eq!(transaction.approvals, vec![Approval { signer }]);
        hashes.push(transaction.hash);
    }
    hashes.sort();
    hashes.dedup();
    assert_eq!(hashes.len(), 20);
}

#[test]
fn drawn_numbers_stand_for_letters_operations_and_schedulings() {
    assert_eq!(letter(0), "a");
    assert_eq!(letter(25), "z");
    assert_eq!(letter(26), "a");
    assert_eq!(letter(27 + 26 * 5), "b");
    assert_eq!(drawn_text(&vec![]), "");
    assert_eq!(drawn_text(&vec![2, 0, 18, 15, 4, 17]), "casper");
    assert_eq!(drawn_text(&vec![25, 26, 51]), "zaz");

    let operations = [
        TransactionEntryPoint::Transfer,
        TransactionEntryPoint::AddBid,
        TransactionEntryPoint::WithdrawBid,
        TransactionEntryPoint::Delegate,
        TransactionEntryPoint::Undelegate,
        TransactionEntryPoint::Redelegate,
        TransactionEntryPoint::ActivateBid,
        TransactionEntryPoint::ChangeBidPublicKey,
    ];
    for (draw, operation) in operations.iter().enumerate() {
        assert_eq!(&drawn_entry_point(draw as u32), operation);
        assert_eq!(&drawn_entry_point(draw as u32 + 8), operation);
    }
    assert_eq!(drawn_scheduling(0, 7), TransactionScheduling::Standard);
    assert_eq!(drawn_scheduling(1, 7), TransactionScheduling::FutureEra(EraId(7)));
    assert_eq!(drawn_scheduling(2, 7), TransactionScheduling::FutureTimestamp(Timestamp(7)));
    assert_eq!(drawn_scheduling(3, 7), TransactionScheduling::Standard);

    assert_eq!(
        drawn_arg(&vec![8, 3], 0x0102),
        NamedArg { name: "id".to_string(), value: vec![2, 1, 0, 0, 0, 0, 0, 0] }
    );
}

#[test]
fn random_builders_differ_in_what_is_drawn() {
    let mut rng = StdRng::seed_from_u64(9);
    let mut entry_points = Vec::new();
    let mut schedulings = Vec::new();
    let mut names = Vec::new();
    let mut counts = Vec::new();
    for _ in 0..60 {
        let builder = TransactionV1Builder::new_random(&mut rng);
        assert_eq!(builder.target, TransactionTarget::Native);
        let name = builder.chain_name.clone().unwrap();
        assert!(name.len() >= 5 && name.len() < 10);
        assert!(name.chars().all(|c| c.is_ascii_lowercase()));
        let TransactionArgs::Named(args) = builder.args.clone() else {
            panic!("named arguments expected")
        };
        assert!(args.args.len() < 5);
        for arg in &args.args {
            assert!(arg.name.len() >= 2 && arg.name.len() < 8);
            assert_eq!(arg.value.len(), 8);
        }
        if !entry_points.contains(&builder.entry_point) {
            entry_points.push(builder.entry_point.clone());
        }
        if !schedulings.contains(&std::mem::discriminant(&builder.scheduling)) {
            schedulings.push(std::mem::discriminant(&builder.scheduling));
        }
        if !counts.contains(&args.args.len()) {
            counts.push(args.args.len());
        }
        names.push(name);
        builder.build().expect("a random transaction should build");
    }
    assert!(entry_points.len() > 3);
    assert_eq!(schedulings.len(), 3);
    assert!(counts.len() > 2);
    names.sort();
    names.dedup();
    assert!(names.len() > 50);
}
