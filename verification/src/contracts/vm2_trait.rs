//! A contract put together from traits: a greeter, a counter, ownership and access control.

use vstd::prelude::*;
use vstd::string::StringExecFns;

verus! {

/// What [`Trait1::greet`] returns.
pub const GREET_RETURN_VALUE: u64 = 123456789;

/// The address of an account or a contract.
pub type Address = [u8; 32];

/// The name of a role.
pub type Role = [u8; 32];

/// A greeter.
pub trait Trait1 {
    fn abstract_greet(&self);

    fn greet(&self, who: String) -> (greeting: u64)
        ensures
            greeting == GREET_RETURN_VALUE,
    ;

    fn adder(lhs: u64, rhs: u64) -> (sum: u64)
        requires
            lhs + rhs <= u64::MAX,
        ensures
            sum == lhs + rhs,
    ;
}

/// What a counter holds.
#[derive(Debug, Copy, Clone, PartialEq, Eq, Structural)]
pub struct CounterState {
    pub value: u64,
}

impl Default for CounterState {
    fn default() -> (state: CounterState)
        ensures
            state.value == 0,
    {
        CounterState { value: 0 }
    }
}

/// A counter.
pub trait Counter {
    spec fn counter(&self) -> CounterState;

    fn counter_state(&self) -> (state: &CounterState)
        ensures
            *state == self.counter(),
    ;

    fn set_counter_state(&mut self, state: CounterState)
        ensures
            final(self).counter() == state,
    ;

    fn increment(&mut self)
        requires
            old(self).counter().value < u64::MAX,
        ensures
            final(self).counter().value == old(self).counter().value + 1,
    ;

    fn decrement(&mut self)
        requires
            old(self).counter().value > 0,
        ensures
            final(self).counter().value == old(self).counter().value - 1,
    ;

    fn get_counter_value(&self) -> (value: u64)
        ensures
            value == self.counter().value,
    ;

    fn get_counter_state(&self) -> (state: CounterState)
        ensures
            state == self.counter(),
    ;
}

/// Who owns a contract.
#[derive(Debug, Clone, Copy, PartialEq, Eq)]
pub struct OwnableState {
    pub owner: Option<Address>,
}

impl OwnableState {
    /// The state of a contract owned by `caller`, who creates it.
    pub fn new(caller: Address) -> (state: OwnableState)
        ensures
            state.owner == Some(caller),
    {
        OwnableState { owner: Some(caller) }
    }
}

/// Why an action on an owned contract was refused.
#[derive(Debug, Clone, Copy, PartialEq, Eq, Structural)]
pub enum OwnableError {
    /// The caller is not authorized to perform the action.
    NotAuthorized,
}

/// Whether both addresses are the same.
pub fn same_address(first: &Address, second: &Address) -> (same: bool)
    ensures
        same == (*first == *second),
{
    let mut i: usize = 0;
    while i < 32
        invariant
            i <= 32,
            forall|j: int| 0 <= j < i ==> first@[j] == second@[j],
        decreases 32 - i,
    {
        if first[i] != second[i] {
            return false;
        }
        i = i + 1;
    }
    assert(*first =~= *second);
    true
}

/// Whether `caller` owns a contract in the state `state`.
pub open spec fn spec_is_owner(state: OwnableState, caller: Address) -> bool {
    state.owner == Some(caller)
}

/// A contract that has an owner. `caller` is who calls the entry point.
pub trait Ownable {
    spec fn ownable(&self) -> OwnableState;

    fn state(&self) -> (state: &OwnableState)
        ensures
            *state == self.ownable(),
    ;

    fn set_state(&mut self, state: OwnableState)
        ensures
            final(self).ownable() == state,
    ;

    /// Succeeds for the owner and for no one else; a contract without an owner refuses all.
    fn only_owner(&self, caller: Address) -> (r: Result<(), OwnableError>)
        ensures
            spec_is_owner(self.ownable(), caller) ==> r is Ok,
            !spec_is_owner(self.ownable(), caller) ==> r == Err::<(), OwnableError>(
                OwnableError::NotAuthorized,
            ),
    ;

    /// Hands the contract to `new_owner`, where the owner asks for it.
    fn transfer_ownership(&mut self, caller: Address, new_owner: Address) -> (r: Result<
        (),
        OwnableError,
    >)
        ensures
            spec_is_owner(old(self).ownable(), caller) ==> r is Ok && final(self).ownable().owner
                == Some(new_owner),
            !spec_is_owner(old(self).ownable(), caller) ==> r == Err::<(), OwnableError>(
                OwnableError::NotAuthorized,
            ) && final(self).ownable() == old(self).ownable(),
    ;

    fn owner(&self) -> (owner: Option<Address>)
        ensures
            owner == self.ownable().owner,
    ;

    /// Leaves the contract without an owner, where the owner asks for it.
    fn renounce_ownership(&mut self, caller: Address) -> (r: Result<(), OwnableError>)
        ensures
            spec_is_owner(old(self).ownable(), caller) ==> r is Ok && final(self).ownable().owner
                is None,
            !spec_is_owner(old(self).ownable(), caller) ==> r == Err::<(), OwnableError>(
                OwnableError::NotAuthorized,
            ) && final(self).ownable() == old(self).ownable(),
    ;
}

/// The lower-case hexadecimal digit of a value below sixteen.
pub open spec fn spec_hex_digit(nibble: u8) -> char {
    if nibble < 10 {
        (48 + nibble) as char
    } else {
        (87 + nibble) as char
    }
}

/// The base-16 encoding of `bytes` with lower-case digits: two digits for each byte, the
/// higher four bits first.
pub open spec fn spec_encode_lower(bytes: Seq<u8>) -> Seq<char> {
    Seq::new(
        2 * bytes.len(),
        |i: int|
            if i % 2 == 0 {
                spec_hex_digit(bytes[i / 2] / 16)
            } else {
                spec_hex_digit(bytes[i / 2] % 16)
            },
    )
}

/// Calls `base16::encode_lower` on `input`.
///
/// Trusted: the text returned holds, for each byte of `input` in order, its two hexadecimal
/// digits in lower case, the digit of the higher four bits first.
#[verifier::external_body]
fn encode_lower(input: &[u8]) -> (encoded: String)
    ensures
        encoded@ == spec_encode_lower(input@),
{
    base16::encode_lower(input)
}

/// The name under which the roles of `account` are kept.
pub open spec fn spec_roles_name(account: Address) -> Seq<char> {
    "roles-"@ + spec_encode_lower(account@)
}

/// The name under which the roles of `account` are kept.
pub fn roles_name(account: &Address) -> (name: String)
    ensures
        name@ == spec_roles_name(*account),
{
    let encoded: String = encode_lower(account.as_slice());
    String::from_str("roles-").concat(encoded.as_str())
}

/// The roles granted to one account.
#[derive(Debug, Clone, PartialEq, Eq)]
pub struct AccountRoles {
    pub account: Address,
    /// The name under which the roles are kept.
    pub name: String,
    /// The roles, each once.
    pub roles: Vec<Role>,
}

/// Who holds which role.
#[derive(Debug, Clone, PartialEq, Eq)]
pub struct AccessControlState {
    /// The accounts that were granted a role at some time, each once.
    pub entries: Vec<AccountRoles>,
}

impl Default for AccessControlState {
    fn default() -> (state: AccessControlState)
        ensures
            state.entries@.len() == 0,
            state.wf(),
    {
        AccessControlState { entries: Vec::new() }
    }
}

/// Whether `roles` holds `role`.
pub open spec fn spec_holds(roles: Seq<Role>, role: Role) -> bool {
    exists|i: int| 0 <= i < roles.len() && roles[i] == role
}

impl AccessControlState {
    /// No account stands twice, no role stands twice with an account, and each account's roles
    /// are kept under the name that goes with the account.
    pub open spec fn wf(&self) -> bool {
        &&& forall|i: int, j: int|
            0 <= i < j < self.entries@.len() ==> self.entries@[i].account
                != self.entries@[j].account
        &&& forall|i: int|
            0 <= i < self.entries@.len() ==> (#[trigger] self.entries@[i]).name@ == spec_roles_name(
                self.entries@[i].account,
            )
        &&& forall|i: int, a: int, b: int|
            0 <= i < self.entries@.len() && 0 <= a < b < self.entries@[i].roles@.len()
                ==> self.entries@[i].roles@[a] != self.entries@[i].roles@[b]
    }

    /// Whether `account` holds `role`.
    pub open spec fn spec_has_role(&self, account: Address, role: Role) -> bool {
        exists|i: int|
            0 <= i < self.entries@.len() && self.entries@[i].account == account && spec_holds(
                self.entries@[i].roles@,
                role,
            )
    }

    fn find(&self, account: &Address) -> (found: Option<usize>)
        ensures
            match found {
                Some(i) => i < self.entries@.len() && self.entries@[i as int].account == *account,
                None => forall|i: int|
                    0 <= i < self.entries@.len() ==> self.entries@[i].account != *account,
            },
    {
        let mut i: usize = 0;
        while i < self.entries.len()
            invariant
                i <= self.entries@.len(),
                forall|j: int| 0 <= j < i ==> self.entries@[j].account != *account,
            decreases self.entries@.len() - i,
        {
            if same_address(&self.entries[i].account, account) {
                return Some(i);
            }
            i = i + 1;
        }
        None
    }

    /// Whether `account` holds `role`.
    pub fn has_role(&self, account: Address, role: Role) -> (r: bool)
        requires
            self.wf(),
        ensures
            r == self.spec_has_role(account, role),
    {
        match self.find(&account) {
            Some(i) => {
                let found: bool = holds(&self.entries[i].roles, &role);
                proof {
                    lemma_roles_of(self, account, role, i);
                }
                found
            },
            None => false,
        }
    }

    /// Grants `role` to `account`; nothing changes where the account holds it already.
    pub fn grant_role(&mut self, account: Address, role: Role)
        requires
            old(self).wf(),
        ensures
            final(self).wf(),
            final(self).spec_has_role(account, role),
            forall|other: Address, any: Role|
                (other != account || any != role) ==> (final(self).spec_has_role(other, any)
                    == old(self).spec_has_role(other, any)),
            old(self).spec_has_role(account, role) ==> final(self).entries@ == old(self).entries@,
    {
        match self.find(&account) {
            Some(i) => {
                if holds(&self.entries[i].roles, &role) {
                    proof {
                        lemma_roles_of(self, account, role, i);
                    }
                    return ;
                }
                let ghost before = self.entries@;
                let mut entry: AccountRoles = self.entries.remove(i);
                entry.roles.push(role);
                self.entries.insert(i, entry);
                proof {
                    let after = self.entries@;
                    assert(after.len() == before.len());
                    assert forall|k: int| 0 <= k < after.len() && k != i implies after[k]
                        == before[k] by {}
                    assert(after[i as int].account == account);
                    assert(after[i as int].name == before[i as int].name);
                    assert(after[i as int].roles@ == before[i as int].roles@.push(role));
                    assert(after[i as int].roles@[before[i as int].roles@.len() as int] == role);
                    assert(spec_holds(after[i as int].roles@, role));
                    assert forall|other: Address, any: Role|
                        (other != account || any != role) implies (self.spec_has_role(other, any)
                        == old(self).spec_has_role(other, any)) by {
                        if old(self).spec_has_role(other, any) {
                            let k = choose|k: int|
                                0 <= k < before.len() && before[k].account == other && spec_holds(
                                    before[k].roles@,
                                    any,
                                );
                            let a = choose|a: int|
                                0 <= a < before[k].roles@.len() && before[k].roles@[a] == any;
                            if k == i {
                                assert(after[k].roles@[a] == any);
                            }
                            assert(spec_holds(after[k].roles@, any));
                        }
                        if self.spec_has_role(other, any) {
                            let k = choose|k: int|
                                0 <= k < after.len() && after[k].account == other && spec_holds(
                                    after[k].roles@,
                                    any,
                                );
                            let a = choose|a: int|
                                0 <= a < after[k].roles@.len() && after[k].roles@[a] == any;
                            if k == i {
                                assert(a < before[k].roles@.len());
                                assert(before[k].roles@[a] == any);
                            }
                            assert(spec_holds(before[k].roles@, any));
                        }
                    }
                }
            },
            None => {
                let ghost before = self.entries@;
                let mut roles: Vec<Role> = Vec::new();
                roles.push(role);
                let name: String = roles_name(&account);
                self.entries.push(AccountRoles { account, name, roles });
                proof {
                    let after = self.entries@;
                    let last = before.len() as int;
                    assert(after[last].roles@[0] == role);
                    assert(spec_holds(after[last].roles@, role));
                    assert forall|other: Address, any: Role|
                        (other != account || any != role) implies (self.spec_has_role(other, any)
                        == old(self).spec_has_role(other, any)) by {
                        if old(self).spec_has_role(other, any) {
                            let k = choose|k: int|
                                0 <= k < before.len() && before[k].account == other && spec_holds(
                                    before[k].roles@,
                                    any,
                                );
                            assert(after[k] == before[k]);
                        }
                        if self.spec_has_role(other, any) {
                            let k = choose|k: int|
                                0 <= k < after.len() && after[k].account == other && spec_holds(
                                    after[k].roles@,
                                    any,
                                );
                            if k == last {
                                let a = choose|a: int|
                                    0 <= a < after[k].roles@.len() && after[k].roles@[a] == any;
                                assert(a == 0);
                            } else {
                                assert(after[k] == before[k]);
                            }
                        }
                    }
                }
            },
        }
    }

    /// Takes `role` from `account`.
    pub fn revoke_role(&mut self, account: Address, role: Role)
        requires
            old(self).wf(),
        ensures
            final(self).wf(),
            !final(self).spec_has_role(account, role),
            forall|other: Address, any: Role|
                (other != account || any != role) ==> (final(self).spec_has_role(other, any)
                    == old(self).spec_has_role(other, any)),
    {
        match self.find(&account) {
            Some(i) => {
                let ghost before = self.entries@;
                let mut entry: AccountRoles = self.entries.remove(i);
                let ghost held = entry.roles@;
                let mut kept: Vec<Role> = Vec::new();
                let mut j: usize = 0;
                while j < entry.roles.len()
                    invariant
                        j <= entry.roles@.len(),
                        entry.roles@ == held,
                        forall|a: int, b: int| 0 <= a < b < held.len() ==> held[a] != held[b],
                        forall|a: int, b: int| 0 <= a < b < kept@.len() ==> kept@[a] != kept@[b],
                        forall|a: int| 0 <= a < kept@.len() ==> kept@[a] != role,
                        forall|a: int|
                            0 <= a < kept@.len() ==> exists|b: int|
                                0 <= b < j && held[b] == #[trigger] kept@[a],
                        forall|b: int|
                            0 <= b < j && held[b] != role ==> exists|a: int|
                                0 <= a < kept@.len() && kept@[a] == #[trigger] held[b],
                    decreases entry.roles@.len() - j,
                {
                    let candidate: Role = entry.roles[j];
                    if !same_address(&candidate, &role) {
                        let ghost earlier = kept@;
                        kept.push(candidate);
                        proof {
                            assert forall|a: int, b: int| 0 <= a < b < kept@.len() implies kept@[a]
                                != kept@[b] by {
                                if b == earlier.len() {
                                    let c = choose|c: int| 0 <= c < j && held[c] == earlier[a];
                                    assert(held[c] != held[j as int]);
                                }
                            }
                            assert forall|a: int| 0 <= a < kept@.len() implies exists|b: int|
                                0 <= b < j + 1 && held[b] == #[trigger] kept@[a] by {
                                if a < earlier.len() {
                                    let c = choose|c: int| 0 <= c < j && held[c] == earlier[a];
                                    assert(held[c] == kept@[a]);
                                } else {
                                    assert(held[j as int] == kept@[a]);
                                }
                            }
                            assert forall|b: int| 0 <= b < j + 1 && held[b] != role implies exists|
                                a: int,
                            |
                                0 <= a < kept@.len() && kept@[a] == #[trigger] held[b] by {
                                if b < j {
                                    let c = choose|c: int|
                                        0 <= c < earlier.len() && earlier[c] == held[b];
                                    assert(kept@[c] == held[b]);
                                } else {
                                    assert(kept@[earlier.len() as int] == held[b]);
                                }
                            }
                        }
                    }
                    j = j + 1;
                }
                entry.roles = kept;
                self.entries.insert(i, entry);
                proof {
                    let after = self.entries@;
                    assert(after.len() == before.len());
                    assert forall|k: int| 0 <= k < after.len() && k != i implies after[k]
                        == before[k] by {}
                    assert(after[i as int].account == account);
                    assert(after[i as int].name == before[i as int].name);
                    assert(before[i as int].roles@ == held);
                    assert(!self.spec_has_role(account, role)) by {
                        if self.spec_has_role(account, role) {
                            let k = choose|k: int|
                                0 <= k < after.len() && after[k].account == account && spec_holds(
                                    after[k].roles@,
                                    role,
                                );
                            assert(k == i);
                        }
                    }
                    assert forall|other: Address, any: Role|
                        (other != account || any != role) implies (self.spec_has_role(other, any)
                        == old(self).spec_has_role(other, any)) by {
                        if old(self).spec_has_role(other, any) {
                            let k = choose|k: int|
                                0 <= k < before.len() && before[k].account == other && spec_holds(
                                    before[k].roles@,
                                    any,
                                );
                            if k == i {
                                let b = choose|b: int| 0 <= b < held.len() && held[b] == any;
                                assert(held[b] != role);
                                let a = choose|a: int|
                                    0 <= a < after[k].roles@.len() && after[k].roles@[a] == held[b];
                                assert(spec_holds(after[k].roles@, any));
                            } else {
                                assert(after[k] == before[k]);
                            }
                        }
                        if self.spec_has_role(other, any) {
                            let k = choose|k: int|
                                0 <= k < after.len() && after[k].account == other && spec_holds(
                                    after[k].roles@,
                                    any,
                                );
                            if k == i {
                                let a = choose|a: int|
                                    0 <= a < after[k].roles@.len() && after[k].roles@[a] == any;
                                let b = choose|b: int|
                                    0 <= b < held.len() && held[b] == after[k].roles@[a];
                                assert(spec_holds(before[k].roles@, any));
                            } else {
                                assert(after[k] == before[k]);
                            }
                        }
                    }
                }
            },
            None => {},
        }
    }
}

/// Whether `roles` holds `role`.
fn holds(roles: &Vec<Role>, role: &Role) -> (r: bool)
    ensures
        r == spec_holds(roles@, *role),
{
    let mut i: usize = 0;
    while i < roles.len()
        invariant
            i <= roles@.len(),
            forall|j: int| 0 <= j < i ==> roles@[j] != *role,
        decreases roles@.len() - i,
    {
        if same_address(&roles[i], role) {
            return true;
        }
        i = i + 1;
    }
    false
}

proof fn lemma_roles_of(state: &AccessControlState, account: Address, role: Role, i: usize)
    requires
        state.wf(),
        i < state.entries@.len(),
        state.entries@[i as int].account == account,
    ensures
        state.spec_has_role(account, role) == spec_holds(state.entries@[i as int].roles@, role),
{
    if state.spec_has_role(account, role) {
        let k = choose|k: int|
            0 <= k < state.entries@.len() && state.entries@[k].account == account && spec_holds(
                state.entries@[k].roles@,
                role,
            );
        assert(k == i);
    }
}

/// A contract with access control.
pub trait AccessControl {
    spec fn access(&self) -> AccessControlState;

    fn has_role(&self, account: Address, role: Role) -> (r: bool)
        requires
            self.access().wf(),
        ensures
            r == self.access().spec_has_role(account, role),
    ;

    fn grant_role(&mut self, account: Address, role: Role)
        requires
            old(self).access().wf(),
        ensures
            final(self).access().wf(),
            final(self).access().spec_has_role(account, role),
    ;

    fn revoke_role(&mut self, account: Address, role: Role)
        requires
            old(self).access().wf(),
        ensures
            final(self).access().wf(),
            !final(self).access().spec_has_role(account, role),
    ;
}

/// A contract that greets, counts, has an owner and controls access.
#[derive(Debug, Clone)]
pub struct HasTraits {
    counter_state: CounterState,
    ownable_state: OwnableState,
    access_control_state: AccessControlState,
}

impl Trait1 for HasTraits {
    fn abstract_greet(&self) {
    }

    fn greet(&self, who: String) -> (greeting: u64) {
        GREET_RETURN_VALUE
    }

    fn adder(lhs: u64, rhs: u64) -> (sum: u64) {
        lhs + rhs
    }
}

impl Counter for HasTraits {
    closed spec fn counter(&self) -> CounterState {
        self.counter_state
    }

    fn counter_state(&self) -> (state: &CounterState) {
        &self.counter_state
    }

    fn set_counter_state(&mut self, state: CounterState) {
        self.counter_state = state;
    }

    fn increment(&mut self)
        ensures
            final(self).ownable() == old(self).ownable(),
            final(self).access() == old(self).access(),
    {
        self.counter_state.value = self.counter_state.value + 1;
    }

    fn decrement(&mut self)
        ensures
            final(self).ownable() == old(self).ownable(),
            final(self).access() == old(self).access(),
    {
        self.counter_state.value = self.counter_state.value - 1;
    }

    fn get_counter_value(&self) -> (value: u64) {
        self.counter_state.value
    }

    fn get_counter_state(&self) -> (state: CounterState) {
        self.counter_state
    }
}

impl Ownable for HasTraits {
    closed spec fn ownable(&self) -> OwnableState {
        self.ownable_state
    }

    fn state(&self) -> (state: &OwnableState) {
        &self.ownable_state
    }

    fn set_state(&mut self, state: OwnableState) {
        self.ownable_state = state;
    }

    fn only_owner(&self, caller: Address) -> (r: Result<(), OwnableError>) {
        match self.ownable_state.owner {
            Some(owner) => {
                if same_address(&caller, &owner) {
                    Ok(())
                } else {
                    Err(OwnableError::NotAuthorized)
                }
            },
            None => Err(OwnableError::NotAuthorized),
        }
    }

    fn transfer_ownership(&mut self, caller: Address, new_owner: Address) -> (r: Result<
        (),
        OwnableError,
    >) {
        match self.only_owner(caller) {
            Ok(()) => {
                self.ownable_state.owner = Some(new_owner);
                Ok(())
            },
            Err(e) => Err(e),
        }
    }

    fn owner(&self) -> (owner: Option<Address>) {
        self.ownable_state.owner
    }

    fn renounce_ownership(&mut self, caller: Address) -> (r: Result<(), OwnableError>) {
        match self.only_owner(caller) {
            Ok(()) => {
                self.ownable_state.owner = None;
                Ok(())
            },
            Err(e) => Err(e),
        }
    }
}

impl AccessControl for HasTraits {
    closed spec fn access(&self) -> AccessControlState {
        self.access_control_state
    }

    fn has_role(&self, account: Address, role: Role) -> (r: bool) {
        self.access_control_state.has_role(account, role)
    }

    fn grant_role(&mut self, account: Address, role: Role) {
        self.access_control_state.grant_role(account, role);
    }

    fn revoke_role(&mut self, account: Address, role: Role) {
        self.access_control_state.revoke_role(account, role);
    }
}

impl HasTraits {
    /// The contract as `caller` creates it, counting from `counter_value`.
    pub fn new(counter_value: u64, caller: Address) -> (contract: HasTraits)
        ensures
            contract.counter().value == counter_value,
            contract.ownable().owner == Some(caller),
            contract.access().entries@.len() == 0,
            contract.access().wf(),
    {
        HasTraits {
            counter_state: CounterState { value: counter_value },
            ownable_state: OwnableState::new(caller),
            access_control_state: AccessControlState::default(),
        }
    }

    /// The value of the counter, as the contract reports it.
    pub fn foobar(&self) -> (value: u64)
        ensures
            value == self.counter().value,
    {
        let counter_state = self.counter_state();
        counter_state.value
    }

    /// Succeeds for the owner and for no one else.
    pub fn only_for_owner(&mut self, caller: Address) -> (r: Result<(), OwnableError>)
        ensures
            final(self).counter() == old(self).counter(),
            final(self).ownable() == old(self).ownable(),
            spec_is_owner(old(self).ownable(), caller) ==> r is Ok,
            !spec_is_owner(old(self).ownable(), caller) ==> r == Err::<(), OwnableError>(
                OwnableError::NotAuthorized,
            ),
    {
        self.only_owner(caller)
    }
}

/// Runs a contract through its traits: it is created by `caller` with its counter at zero,
/// greets, adds, and counts up and down again. Hands back the contract as the run leaves it.
pub fn perform_test(caller: Address) -> (contract: HasTraits)
    ensures
        contract.counter().value == 0,
        contract.ownable().owner == Some(caller),
        contract.access().entries@.len() == 0,
{
    let mut contract = HasTraits::new(0, caller);

    let greet_result: u64 = contract.greet("World".to_owned());
    assert(greet_result == GREET_RETURN_VALUE);

    contract.abstract_greet();

    let result: u64 = HasTraits::adder(1111, 2222);
    assert(result == 1111 + 2222);

    let counter_value: u64 = contract.get_counter_value();
    assert(counter_value == 0);

    // call increase
    contract.increment();

    // check that the value increased
    let counter_value: u64 = contract.get_counter_value();
    assert(counter_value == 1);

    // call decrease
    contract.decrement();

    // get value and compare the difference
    let counter_value: u64 = contract.get_counter_value();
    assert(counter_value == 0);
    contract
}

} // verus!
