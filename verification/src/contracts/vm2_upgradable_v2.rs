//! The second version of a contract that can be upgraded, and its migration from the first.

use vstd::prelude::*;

verus! {

/// The state of the first version of the contract.
#[derive(Debug)]
pub struct UpgradableContractV1 {
    /// The current state of the flipper.
    value: u8,
}

/// The state of the second version of the contract.
#[derive(Debug)]
pub struct UpgradableContractV2 {
    /// The current state of the flipper.
    value: u64,
}

impl View for UpgradableContractV1 {
    type V = u8;

    closed spec fn view(&self) -> u8 {
        self.value
    }
}

impl View for UpgradableContractV2 {
    type V = u64;

    closed spec fn view(&self) -> u64 {
        self.value
    }
}

impl UpgradableContractV1 {
    /// The state of a first version that holds `value`.
    pub fn new(value: u8) -> (state: UpgradableContractV1)
        ensures
            state@ == value,
    {
        UpgradableContractV1 { value }
    }
}

impl From<UpgradableContractV1> for UpgradableContractV2 {
    fn from(old: UpgradableContractV1) -> (new: UpgradableContractV2)
        ensures
            new@ == old@,
    {
        UpgradableContractV2 { value: old.value as u64 }
    }
}

impl vstd::std_specs::convert::FromSpecImpl<UpgradableContractV1> for UpgradableContractV2 {
    open spec fn obeys_from_spec() -> bool {
        true
    }

    closed spec fn from_spec(old: UpgradableContractV1) -> UpgradableContractV2 {
        UpgradableContractV2 { value: old.value as u64 }
    }
}

/// The version that [`UpgradableContractV2::version`] names, as text.
pub open spec fn spec_current_version() -> Seq<char> {
    "v2"@
}

impl UpgradableContractV2 {
    /// The contract with the value `initial_value`.
    pub fn new(initial_value: u64) -> (state: UpgradableContractV2)
        ensures
            state@ == initial_value,
    {
        UpgradableContractV2 { value: initial_value }
    }

    /// The contract with the value zero.
    pub fn default() -> (state: UpgradableContractV2)
        ensures
            state@ == 0,
    {
        Self::new(0)
    }

    /// Sets the value as [`Self::increment_by`] does for one.
    pub fn increment(&mut self)
        ensures
            final(self)@ == 2,
    {
        self.increment_by(1);
    }

    /// Sets the value to `value` added to itself, wrapping around at the largest `u64`.
    pub fn increment_by(&mut self, value: u64)
        ensures
            final(self)@ == (2 * value) % 0x1_0000_0000_0000_0000,
    {
        self.value = value.wrapping_add(value);
    }

    /// The value.
    pub fn get(&self) -> (value: u64)
        ensures
            value == self@,
    {
        self.value
    }

    /// The version of the contract.
    pub fn version(&self) -> (version: &'static str)
        ensures
            version@ == spec_current_version(),
    {
        "v2"
    }

    /// The state of this version that the state `old` of the first version migrates to: the
    /// same value.
    pub fn migrate(old: UpgradableContractV1) -> (new: UpgradableContractV2)
        ensures
            new@ == old@,
    {
        UpgradableContractV2::from(old)
    }
}

} // verus!
