//! Plain value types shared by every component: digests, identities, eras and amounts.

use vstd::prelude::*;

verus! {

/// Number of bytes in a [`Digest`].
pub const DIGEST_LENGTH: usize = 32;

/// A 32-byte cryptographic digest; identifies, among other things, a snapshot of global state.
#[derive(Clone, Copy, Debug, PartialEq, Eq, PartialOrd, Ord, Hash)]
pub struct Digest {
    pub bytes: [u8; 32],
}

impl View for Digest {
    type V = Seq<u8>;

    open spec fn view(&self) -> Seq<u8> {
        self.bytes@
    }
}

/// Two digests with the same bytes are the same digest.
pub proof fn lemma_digest_ext(a: Digest, b: Digest)
    requires
        a@ == b@,
    ensures
        a == b,
{
    assert(a.bytes =~= b.bytes);
}

impl Digest {
    /// The digest whose bytes are all zero.
    pub fn zero() -> (d: Digest)
        ensures
            d@ == Seq::new(32, |i: int| 0u8),
    {
        let d = Digest { bytes: [0u8; 32] };
        assert(d@ =~= Seq::new(32, |i: int| 0u8));
        d
    }

    /// Wraps 32 raw bytes.
    pub fn new(bytes: [u8; 32]) -> (d: Digest)
        ensures
            d.bytes == bytes,
    {
        Digest { bytes }
    }

    /// Whether both digests hold the same bytes.
    pub fn same(&self, other: &Digest) -> (r: bool)
        ensures
            r == (*self == *other),
    {
        let mut i: usize = 0;
        while i < 32
            invariant
                i <= 32,
                forall|j: int| 0 <= j < i ==> self.bytes@[j] == other.bytes@[j],
            decreases 32 - i,
        {
            if self.bytes[i] != other.bytes[i] {
                return false;
            }
            i = i + 1;
        }
        proof {
            assert(self.bytes@ =~= other.bytes@);
            lemma_digest_ext(*self, *other);
        }
        true
    }

    /// The digest's bytes as a vector.
    pub fn to_vec(&self) -> (v: Vec<u8>)
        ensures
            v@ == self@,
    {
        let mut v: Vec<u8> = Vec::new();
        let mut i: usize = 0;
        while i < 32
            invariant
                i <= 32,
                v@ == self@.subrange(0, i as int),
            decreases 32 - i,
        {
            v.push(self.bytes[i]);
            assert(v@ =~= self@.subrange(0, i + 1));
            i = i + 1;
        }
        assert(v@ =~= self@);
        v
    }
}

/// Identifies an era of the chain.
#[derive(Clone, Copy, Debug, PartialEq, Eq, Structural, PartialOrd, Ord, Hash)]
pub struct EraId(pub u64);

impl EraId {
    /// The era that follows this one; the last representable era is its own successor.
    pub fn successor(&self) -> (next: EraId)
        ensures
            next == self.spec_successor(),
    {
        if self.0 == u64::MAX {
            EraId(u64::MAX)
        } else {
            EraId(self.0 + 1)
        }
    }

    pub open spec fn spec_successor(&self) -> EraId {
        if self.0 == u64::MAX {
            EraId(u64::MAX)
        } else {
            EraId((self.0 + 1) as u64)
        }
    }

    /// The era's number.
    pub fn value(&self) -> (v: u64)
        ensures
            v == self.0,
    {
        self.0
    }
}

/// The hash of a block.
#[derive(Clone, Copy, Debug, PartialEq, Eq, PartialOrd, Ord, Hash)]
pub struct BlockHash(pub Digest);

/// The hash of a transaction.
#[derive(Clone, Copy, Debug, PartialEq, Eq, PartialOrd, Ord, Hash)]
pub struct TransactionHash(pub Digest);

/// A point in time, in milliseconds since the epoch.
#[derive(Clone, Copy, Debug, PartialEq, Eq, Structural, PartialOrd, Ord, Hash)]
pub struct Timestamp(pub u64);

/// A span of time, in milliseconds.
#[derive(Clone, Copy, Debug, PartialEq, Eq, Structural, PartialOrd, Ord, Hash)]
pub struct TimeDiff(pub u64);

impl Timestamp {
    /// Milliseconds since the epoch.
    pub fn millis(&self) -> (m: u64)
        ensures
            m == self.0,
    {
        self.0
    }

    /// This time moved forward by `diff`, stopping at the last representable instant.
    pub fn saturating_add(&self, diff: TimeDiff) -> (t: Timestamp)
        ensures
            t.0 == if self.0 + diff.0 > u64::MAX { u64::MAX } else { (self.0 + diff.0) as u64 },
    {
        if self.0 > u64::MAX - diff.0 {
            Timestamp(u64::MAX)
        } else {
            Timestamp(self.0 + diff.0)
        }
    }

    /// Time elapsed since `earlier`; zero when `earlier` lies in the future.
    pub fn saturating_diff(&self, earlier: Timestamp) -> (d: TimeDiff)
        ensures
            d.0 == if self.0 >= earlier.0 { (self.0 - earlier.0) as u64 } else { 0 },
    {
        if self.0 >= earlier.0 {
            TimeDiff(self.0 - earlier.0)
        } else {
            TimeDiff(0)
        }
    }
}

impl TimeDiff {
    /// A span of `seconds` seconds.
    pub fn from_seconds(seconds: u32) -> (d: TimeDiff)
        ensures
            d.0 == seconds * 1000,
    {
        TimeDiff((seconds as u64) * 1000)
    }

    /// A span of `millis` milliseconds.
    pub fn from_millis(millis: u64) -> (d: TimeDiff)
        ensures
            d.0 == millis,
    {
        TimeDiff(millis)
    }

    /// The span in milliseconds.
    pub fn millis(&self) -> (m: u64)
        ensures
            m == self.0,
    {
        self.0
    }
}

/// The protocol version of the chain: major, minor, patch.
#[derive(Clone, Copy, Debug, PartialEq, Eq, Structural, PartialOrd, Ord, Hash)]
pub struct ProtocolVersion {
    pub major: u32,
    pub minor: u32,
    pub patch: u32,
}

/// An amount of the chain's token, in its smallest unit.
#[derive(Clone, Copy, Debug, PartialEq, Eq, Structural, PartialOrd, Ord, Hash)]
pub struct Motes(pub u128);

/// An amount of computation.
#[derive(Clone, Copy, Debug, PartialEq, Eq, Structural, PartialOrd, Ord, Hash)]
pub struct Gas(pub u128);

impl Motes {
    pub fn zero() -> (m: Motes)
        ensures
            m.0 == 0,
    {
        Motes(0)
    }

    /// What `gas` costs at `price` per unit, or `None` where the product is not representable.
    pub fn from_gas(gas: Gas, price: u8) -> (m: Option<Motes>)
        ensures
            m == Self::spec_from_gas(gas, price),
    {
        match gas.0.checked_mul(price as u128) {
            Some(value) => Some(Motes(value)),
            None => None,
        }
    }

    pub open spec fn spec_from_gas(gas: Gas, price: u8) -> Option<Motes> {
        if gas.0 * price <= u128::MAX {
            Some(Motes((gas.0 * price) as u128))
        } else {
            None
        }
    }

    /// This amount less `other`, or zero where `other` is the larger.
    pub fn saturating_sub(&self, other: Motes) -> (m: Motes)
        ensures
            m.0 == if self.0 >= other.0 { (self.0 - other.0) as u128 } else { 0 },
    {
        if self.0 >= other.0 {
            Motes(self.0 - other.0)
        } else {
            Motes(0)
        }
    }

    /// This amount plus `other`, stopping at the largest representable amount.
    pub fn saturating_add(&self, other: Motes) -> (m: Motes)
        ensures
            m.0 == if self.0 + other.0 > u128::MAX { u128::MAX } else { (self.0 + other.0) as u128 },
    {
        if self.0 > u128::MAX - other.0 {
            Motes(u128::MAX)
        } else {
            Motes(self.0 + other.0)
        }
    }
}

impl Gas {
    pub fn zero() -> (g: Gas)
        ensures
            g.0 == 0,
    {
        Gas(0)
    }

    /// This amount plus `other`, stopping at the largest representable amount.
    pub fn saturating_add(&self, other: Gas) -> (g: Gas)
        ensures
            g == self.spec_saturating_add(other),
    {
        if self.0 > u128::MAX - other.0 {
            Gas(u128::MAX)
        } else {
            Gas(self.0 + other.0)
        }
    }

    pub open spec fn spec_saturating_add(&self, other: Gas) -> Gas {
        if self.0 + other.0 > u128::MAX {
            Gas(u128::MAX)
        } else {
            Gas((self.0 + other.0) as u128)
        }
    }
}

} // verus!
