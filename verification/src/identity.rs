//! Who acts on the chain: public keys, the account hashes derived from them, and entities.

use crate::digest::blake2b_256;
use crate::primitives::Digest;
use vstd::prelude::*;

verus! {

/// A validator's or an account's public key.
#[derive(Clone, Copy, Debug, PartialEq, Eq, PartialOrd, Ord, Hash)]
pub enum PublicKey {
    /// The key of the system itself.
    System,
    /// An Ed25519 key.
    Ed25519([u8; 32]),
    /// A secp256k1 key in compressed form.
    Secp256k1([u8; 33]),
}

/// The hash that names an account.
#[derive(Clone, Copy, Debug, PartialEq, Eq, PartialOrd, Ord, Hash)]
pub struct AccountHash(pub [u8; 32]);

/// The address of an entity that can own a purse.
#[derive(Clone, Copy, Debug, PartialEq, Eq, PartialOrd, Ord, Hash)]
pub enum EntityAddr {
    /// A system contract.
    System([u8; 32]),
    /// An account.
    Account([u8; 32]),
    /// A smart contract.
    SmartContract([u8; 32]),
}

/// Who initiated a transaction.
#[derive(Clone, Copy, Debug, PartialEq, Eq, PartialOrd, Ord, Hash)]
pub enum InitiatorAddr {
    /// The initiator is named by public key.
    PublicKey(PublicKey),
    /// The initiator is named by account hash.
    AccountHash(AccountHash),
}

/// The lower-case name of the key's algorithm, as bytes.
pub open spec fn spec_algorithm_name(key: PublicKey) -> Seq<u8> {
    match key {
        PublicKey::System => seq![115u8, 121u8, 115u8, 116u8, 101u8, 109u8],
        PublicKey::Ed25519(_) => seq![101u8, 100u8, 50u8, 53u8, 53u8, 49u8, 57u8],
        PublicKey::Secp256k1(_) => seq![
            115u8,
            101u8,
            99u8,
            112u8,
            50u8,
            53u8,
            54u8,
            107u8,
            49u8,
        ],
    }
}

/// The raw bytes of the key; the system key has none.
pub open spec fn spec_key_bytes(key: PublicKey) -> Seq<u8> {
    match key {
        PublicKey::System => Seq::empty(),
        PublicKey::Ed25519(bytes) => bytes@,
        PublicKey::Secp256k1(bytes) => bytes@,
    }
}

/// What is hashed to name the account of `key`: the algorithm's name, a zero byte, the key.
pub open spec fn spec_account_preimage(key: PublicKey) -> Seq<u8> {
    spec_algorithm_name(key) + seq![0u8] + spec_key_bytes(key)
}

impl PublicKey {
    /// Whether both keys are the same key.
    pub fn same(&self, other: &PublicKey) -> (r: bool)
        ensures
            r == (*self == *other),
    {
        match (self, other) {
            (PublicKey::System, PublicKey::System) => true,
            (PublicKey::Ed25519(a), PublicKey::Ed25519(b)) => {
                let mut i: usize = 0;
                while i < 32
                    invariant
                        i <= 32,
                        *self == PublicKey::Ed25519(*a),
                        *other == PublicKey::Ed25519(*b),
                        forall|j: int| 0 <= j < i ==> a@[j] == b@[j],
                    decreases 32 - i,
                {
                    if a[i] != b[i] {
                        return false;
                    }
                    i = i + 1;
                }
                assert(*a =~= *b);
                true
            },
            (PublicKey::Secp256k1(a), PublicKey::Secp256k1(b)) => {
                let mut i: usize = 0;
                while i < 33
                    invariant
                        i <= 33,
                        *self == PublicKey::Secp256k1(*a),
                        *other == PublicKey::Secp256k1(*b),
                        forall|j: int| 0 <= j < i ==> a@[j] == b@[j],
                    decreases 33 - i,
                {
                    if a[i] != b[i] {
                        return false;
                    }
                    i = i + 1;
                }
                assert(*a =~= *b);
                true
            },
            _ => false,
        }
    }

    /// The hash that names the account of this key.
    pub fn to_account_hash(&self) -> (hash: AccountHash)
        ensures
            hash.0@ == blake2b_256(spec_account_preimage(*self)),
            hash == spec_account_hash(InitiatorAddr::PublicKey(*self)),
    {
        let mut preimage: Vec<u8> = Vec::new();
        match self {
            PublicKey::System => {
                let name: [u8; 6] = [115u8, 121u8, 115u8, 116u8, 101u8, 109u8];
                crate::bytesrepr::write_bytes(&mut preimage, name.as_slice());
                preimage.push(0u8);
                assert(preimage@ =~= spec_account_preimage(*self));
            },
            PublicKey::Ed25519(bytes) => {
                let name: [u8; 7] = [101u8, 100u8, 50u8, 53u8, 53u8, 49u8, 57u8];
                crate::bytesrepr::write_bytes(&mut preimage, name.as_slice());
                preimage.push(0u8);
                crate::bytesrepr::write_bytes(&mut preimage, bytes.as_slice());
                assert(preimage@ =~= spec_account_preimage(*self));
            },
            PublicKey::Secp256k1(bytes) => {
                let name: [u8; 9] = [115u8, 101u8, 99u8, 112u8, 50u8, 53u8, 54u8, 107u8, 49u8];
                crate::bytesrepr::write_bytes(&mut preimage, name.as_slice());
                preimage.push(0u8);
                crate::bytesrepr::write_bytes(&mut preimage, bytes.as_slice());
                assert(preimage@ =~= spec_account_preimage(*self));
            },
        }
        let digest: Digest = Digest::hash(preimage.as_slice());
        let hash = AccountHash(digest.bytes);
        proof {
            lemma_account_hash_is(InitiatorAddr::PublicKey(*self), hash);
        }
        hash
    }
}

impl InitiatorAddr {
    /// The account hash of the initiator.
    pub fn account_hash(&self) -> (hash: AccountHash)
        ensures
            hash.0@ == spec_initiator_account_hash(*self),
            hash == spec_account_hash(*self),
    {
        match self {
            InitiatorAddr::PublicKey(key) => key.to_account_hash(),
            InitiatorAddr::AccountHash(hash) => {
                proof {
                    lemma_account_hash_is(*self, *hash);
                }
                *hash
            },
        }
    }
}

/// The bytes of the account hash of `initiator`.
pub open spec fn spec_initiator_account_hash(initiator: InitiatorAddr) -> Seq<u8> {
    match initiator {
        InitiatorAddr::PublicKey(key) => blake2b_256(spec_account_preimage(key)),
        InitiatorAddr::AccountHash(hash) => hash.0@,
    }
}

/// The account hash of `initiator`: the one whose bytes are
/// [`spec_initiator_account_hash`].
pub open spec fn spec_account_hash(initiator: InitiatorAddr) -> AccountHash {
    choose|hash: AccountHash| hash.0@ == spec_initiator_account_hash(initiator)
}

/// An account hash with the bytes of the account hash of `initiator` is that account hash.
pub proof fn lemma_account_hash_is(initiator: InitiatorAddr, hash: AccountHash)
    requires
        hash.0@ == spec_initiator_account_hash(initiator),
    ensures
        hash == spec_account_hash(initiator),
{
    let chosen = spec_account_hash(initiator);
    assert(chosen.0@ == spec_initiator_account_hash(initiator));
    assert(chosen.0 =~= hash.0);
}

} // verus!
