use casper_node::contracts::vm2_trait::{
    perform_test, roles_name, same_address, AccessControl, AccessControlState, Counter, CounterState, HasTraits,
    Ownable, OwnableError, OwnableState, Trait1, GREET_RETURN_VALUE,
};
use casper_node::contracts::vm2_upgradable_v2::{UpgradableContractV1, UpgradableContractV2};

const ALICE: [u8; 32] = [100; 32];
const BOB: [u8; 32] = [101; 32];
const MINTER: [u8; 32] = [1; 32];
const PAUSER: [u8; 32] = [2; 32];

#[test]
fn unit_test() {
    let mut has_traits = HasTraits::new(0, ALICE);
    has_traits.increment();
    assert_eq!(has_traits.get_counter_value(), 1);
}

#[test]
fn foo_with_custom_constructor() {
    let has_traits = HasTraits::new(5, ALICE);
    let value = has_traits.get_counter_value();
    assert_eq!(value, 5);
}

#[test]
fn foo() {
    let mut contract = HasTraits::new(0, ALICE);

    {
        let greet_result: u64 = contract.greet("World".into());
        assert_eq!(greet_result, GREET_RETURN_VALUE);
    }

    {
        let () = contract.abstract_greet();
    }

    {
        let result: u64 = HasTraits::adder(1111, 2222);
        assert_eq!(result, 1111 + 2222);
    }

    //
    // Counter trait
    //

    {
        let counter_value = contract.get_counter_value();
        assert_eq!(counter_value, 0);

        // call increase
        let () = contract.increment();

        // get value
        let counter_value = contract.get_counter_value();

        // check that the value increased
        assert_eq!(counter_value, 1);

        // call decrease
        let () = contract.decrement();

        // get value and compare the difference
        let counter_value = contract.get_counter_value();
        assert_eq!(counter_value, 0);
    }

    let contract = perform_test(BOB);
    assert_eq!(contract.get_counter_value(), 0);
    assert_eq!(contract.owner(), Some(BOB));
    assert!(!contract.has_role(BOB, MINTER));
}

#[test]
fn greeting_is_the_fixed_value() {
    assert_eq!(GREET_RETURN_VALUE, 123456789);
    assert_eq!(HasTraits::new(9, BOB).greet(String::new()), 123456789);
}

#[test]
fn counter_state_follows_the_counter() {
    let mut contract = HasTraits::new(41, ALICE);
    contract.increment();
    assert_eq!(contract.get_counter_state(), CounterState { value: 42 });
    assert_eq!(*contract.counter_state(), CounterState { value: 42 });
    assert_eq!(contract.foobar(), 42);
    contract.set_counter_state(CounterState::default());
    assert_eq!(contract.get_counter_value(), 0);
}

#[test]
fn only_the_owner_is_authorized() {
    let mut contract = HasTraits::new(0, ALICE);
    assert_eq!(contract.owner(), Some(ALICE));
    assert_eq!(contract.only_owner(ALICE), Ok(()));
    assert_eq!(contract.only_owner(BOB), Err(OwnableError::NotAuthorized));
    assert_eq!(contract.only_for_owner(ALICE), Ok(()));
    assert_eq!(contract.only_for_owner(BOB), Err(OwnableError::NotAuthorized));
    assert_eq!(*contract.state(), OwnableState::new(ALICE));
}

#[test]
fn ownership_is_transferred_by_the_owner_only() {
    let mut contract = HasTraits::new(0, ALICE);
    assert_eq!(contract.transfer_ownership(BOB, BOB), Err(OwnableError::NotAuthorized));
    assert_eq!(contract.owner(), Some(ALICE));
    assert_eq!(contract.transfer_ownership(ALICE, BOB), Ok(()));
    assert_eq!(contract.owner(), Some(BOB));
    assert_eq!(contract.only_owner(ALICE), Err(OwnableError::NotAuthorized));
    assert_eq!(contract.only_owner(BOB), Ok(()));
}

#[test]
fn a_renounced_contract_refuses_everyone() {
    let mut contract = HasTraits::new(0, ALICE);
    assert_eq!(contract.renounce_ownership(BOB), Err(OwnableError::NotAuthorized));
    assert_eq!(contract.renounce_ownership(ALICE), Ok(()));
    assert_eq!(contract.owner(), None);
    assert_eq!(contract.only_owner(ALICE), Err(OwnableError::NotAuthorized));
    assert_eq!(contract.renounce_ownership(ALICE), Err(OwnableError::NotAuthorized));
    contract.set_state(OwnableState { owner: Some(BOB) });
    assert_eq!(contract.only_owner(BOB), Ok(()));
}

#[test]
fn roles_are_granted_and_revoked() {
    let mut state = AccessControlState::default();
    assert!(!state.has_role(ALICE, MINTER));
    state.grant_role(ALICE, MINTER);
    assert!(state.has_role(ALICE, MINTER));
    assert!(!state.has_role(ALICE, PAUSER));
    assert!(!state.has_role(BOB, MINTER));

    // Granting again changes nothing.
    let before = state.clone();
    state.grant_role(ALICE, MINTER);
    assert_eq!(state, before);

    state.grant_role(ALICE, PAUSER);
    state.grant_role(BOB, PAUSER);
    assert!(state.has_role(ALICE, PAUSER));
    assert!(state.has_role(BOB, PAUSER));
    assert_eq!(state.entries.len(), 2);
    assert_eq!(state.entries[0].roles, vec![MINTER, PAUSER]);

    state.revoke_role(ALICE, MINTER);
    assert!(!state.has_role(ALICE, MINTER));
    assert!(state.has_role(ALICE, PAUSER));
    assert!(state.has_role(BOB, PAUSER));

    // Revoking what is not held changes nothing.
    let before = state.clone();
    state.revoke_role(BOB, MINTER);
    state.revoke_role([9; 32], MINTER);
    assert_eq!(state, before);
}

#[test]
fn roles_are_kept_under_the_hex_name_of_the_account() {
    let mut account = [0u8; 32];
    account[0] = 0xab;
    account[1] = 0x0f;
    account[31] = 0xf0;
    let name = roles_name(&account);
    assert_eq!(name, format!("roles-ab0f{}f0", "00".repeat(29)));
    assert_eq!(name.len(), 6 + 64);
    let mut state = AccessControlState::default();
    state.grant_role(account, MINTER);
    assert_eq!(state.entries[0].name, name);
    assert_eq!(state.entries[0].account, account);
}

#[test]
fn the_contract_controls_access() {
    let mut contract = HasTraits::new(0, ALICE);
    assert!(!contract.has_role(BOB, MINTER));
    contract.grant_role(BOB, MINTER);
    assert!(contract.has_role(BOB, MINTER));
    contract.revoke_role(BOB, MINTER);
    assert!(!contract.has_role(BOB, MINTER));
}

#[test]
fn addresses_compare_by_their_bytes() {
    let mut other = ALICE;
    assert!(same_address(&ALICE, &other));
    other[17] = 0;
    assert!(!same_address(&ALICE, &other));
}

#[test]
fn upgradable_contract_counts_as_it_does() {
    let mut contract = UpgradableContractV2::new(7);
    assert_eq!(contract.get(), 7);
    assert_eq!(contract.version(), "v2");
    // The value becomes the increment added to itself.
    contract.increment_by(5);
    assert_eq!(contract.get(), 10);
    contract.increment();
    assert_eq!(contract.get(), 2);
    contract.increment_by(u64::MAX);
    assert_eq!(contract.get(), u64::MAX - 1);
    contract.increment_by(1 << 63);
    assert_eq!(contract.get(), 0);
    assert_eq!(UpgradableContractV2::default().get(), 0);
}

#[test]
fn migration_keeps_the_value() {
    assert_eq!(UpgradableContractV2::migrate(UpgradableContractV1::new(200)).get(), 200);
    assert_eq!(UpgradableContractV2::from(UpgradableContractV1::new(3)).get(), 3);
}
