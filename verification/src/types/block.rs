//! Block headers and the finality signatures that go with them.

use crate::arith::product_le;
use crate::contract_runtime::config::Ratio;
use crate::contract_runtime::types::{spec_keys_once, ValidatorWeights};
use crate::identity::PublicKey;
use crate::primitives::{BlockHash, EraId, Motes};
use vstd::prelude::*;

verus! {

/// What is read of the header of a block.
#[derive(Clone, Debug, PartialEq, Eq)]
pub struct BlockHeader {
    /// The hash that names the block.
    pub block_hash: BlockHash,
    pub parent_hash: BlockHash,
    pub era_id: EraId,
    pub height: u64,
    /// The weights of the validators of the next era; there on the last block of an era only.
    pub next_era_validator_weights: Option<ValidatorWeights>,
}

impl BlockHeader {
    pub fn block_hash(&self) -> (hash: BlockHash)
        ensures
            hash == self.block_hash,
    {
        self.block_hash
    }

    pub fn parent_hash(&self) -> (hash: &BlockHash)
        ensures
            *hash == self.parent_hash,
    {
        &self.parent_hash
    }

    pub fn era_id(&self) -> (era_id: EraId)
        ensures
            era_id == self.era_id,
    {
        self.era_id
    }

    pub fn height(&self) -> (height: u64)
        ensures
            height == self.height,
    {
        self.height
    }

    /// Whether the block is the last of its era.
    pub open spec fn spec_is_switch_block(&self) -> bool {
        self.next_era_validator_weights is Some
    }

    /// Whether the block is the last of its era.
    pub fn is_switch_block(&self) -> (r: bool)
        ensures
            r == self.spec_is_switch_block(),
    {
        self.next_era_validator_weights.is_some()
    }

    /// Whether the block is the first of the chain.
    pub open spec fn spec_is_genesis(&self) -> bool {
        self.era_id.0 == 0 && self.height == 0
    }

    /// Whether the block is the first of the chain.
    pub fn is_genesis(&self) -> (r: bool)
        ensures
            r == self.spec_is_genesis(),
    {
        self.era_id.0 == 0 && self.height == 0
    }

    /// The weights of the validators of the next era, on the last block of an era.
    pub fn next_era_validator_weights(&self) -> (weights: Option<&ValidatorWeights>)
        ensures
            match weights {
                Some(weights) => self.next_era_validator_weights == Some(*weights),
                None => self.next_era_validator_weights is None,
            },
    {
        self.next_era_validator_weights.as_ref()
    }

    /// The era of the block that follows: the next era after the last block of an era.
    pub open spec fn spec_next_block_era_id(&self) -> EraId {
        if self.spec_is_switch_block() {
            self.era_id.spec_successor()
        } else {
            self.era_id
        }
    }

    /// The era of the block that follows.
    pub fn next_block_era_id(&self) -> (era_id: EraId)
        ensures
            era_id == self.spec_next_block_era_id(),
    {
        if self.is_switch_block() {
            self.era_id.successor()
        } else {
            self.era_id
        }
    }
}

/// A finality signature, as far as it is read: its kind.
#[derive(Clone, Copy, Debug, PartialEq, Eq, Structural, PartialOrd, Ord, Hash)]
pub enum Signature {
    System,
    Ed25519,
    Secp256k1,
}

/// The finality signatures of a block.
#[derive(Clone, Debug, PartialEq, Eq)]
pub struct BlockSignatures {
    /// The block that is signed.
    pub block_hash: BlockHash,
    /// The era in which the block was signed.
    pub era_id: EraId,
    /// Who signed, each with its signature.
    pub proofs: Vec<(PublicKey, Signature)>,
}

impl BlockSignatures {
    /// Signatures of the block `block_hash` in the era `era_id`, none as yet.
    pub fn new(block_hash: BlockHash, era_id: EraId) -> (signatures: BlockSignatures)
        ensures
            signatures.block_hash == block_hash,
            signatures.era_id == era_id,
            signatures.proofs@.len() == 0,
    {
        BlockSignatures { block_hash, era_id, proofs: Vec::new() }
    }

    /// Adds the signature of `public_key`.
    pub fn insert_proof(&mut self, public_key: PublicKey, signature: Signature)
        ensures
            final(self).block_hash == old(self).block_hash,
            final(self).era_id == old(self).era_id,
            final(self).proofs@ == old(self).proofs@.push((public_key, signature)),
    {
        self.proofs.push((public_key, signature));
    }
}

/// Why a header and its signatures do not go together.
#[derive(Clone, Copy, Debug, PartialEq, Eq)]
pub enum BlockHeaderWithMetadataValidationError {
    /// The signatures are of another block.
    SignaturesHashMismatch { actual_block_hash: BlockHash, expected_block_hash: BlockHash },
    /// The signatures are of another era.
    SignaturesEraIdMismatch { actual_era_id: EraId, expected_era_id: EraId },
}

/// A header with the finality signatures of its block.
#[derive(Clone, Debug, PartialEq, Eq)]
pub struct BlockHeaderWithMetadata {
    pub block_header: BlockHeader,
    pub block_signatures: BlockSignatures,
}

impl BlockHeaderWithMetadata {
    /// Whether the signatures are of the header's block and era, and if not, how they differ.
    pub open spec fn spec_validate(&self) -> Result<(), BlockHeaderWithMetadataValidationError> {
        if self.block_header.block_hash != self.block_signatures.block_hash {
            Err(
                BlockHeaderWithMetadataValidationError::SignaturesHashMismatch {
                    actual_block_hash: self.block_signatures.block_hash,
                    expected_block_hash: self.block_header.block_hash,
                },
            )
        } else if self.block_header.era_id != self.block_signatures.era_id {
            Err(
                BlockHeaderWithMetadataValidationError::SignaturesEraIdMismatch {
                    actual_era_id: self.block_signatures.era_id,
                    expected_era_id: self.block_header.era_id,
                },
            )
        } else {
            Ok(())
        }
    }

    /// Checks that the signatures are of the header's block and era.
    pub fn validate(&self) -> (r: Result<(), BlockHeaderWithMetadataValidationError>)
        ensures
            r == self.spec_validate(),
    {
        if !self.block_header.block_hash.0.same(&self.block_signatures.block_hash.0) {
            return Err(
                BlockHeaderWithMetadataValidationError::SignaturesHashMismatch {
                    actual_block_hash: self.block_signatures.block_hash,
                    expected_block_hash: self.block_header.block_hash,
                },
            );
        }
        if self.block_header.era_id.0 != self.block_signatures.era_id.0 {
            return Err(
                BlockHeaderWithMetadataValidationError::SignaturesEraIdMismatch {
                    actual_era_id: self.block_signatures.era_id,
                    expected_era_id: self.block_header.era_id,
                },
            );
        }
        Ok(())
    }
}

/// The weights of the validators of one era, with the share of them that may be faulty.
#[derive(Clone, Debug, PartialEq, Eq)]
pub struct EraValidatorWeights {
    era_id: EraId,
    validator_weights: ValidatorWeights,
    finality_threshold_fraction: Ratio,
}

impl EraValidatorWeights {
    pub closed spec fn spec_era_id(&self) -> EraId {
        self.era_id
    }

    pub closed spec fn spec_weights(&self) -> Seq<(PublicKey, Motes)> {
        self.validator_weights.entries@
    }

    pub closed spec fn spec_fraction(&self) -> Ratio {
        self.finality_threshold_fraction
    }

    /// The weights are those of a set of validators: no key occurs twice.
    pub closed spec fn wf(&self) -> bool {
        self.validator_weights.wf()
    }

    pub fn new(
        era_id: EraId,
        validator_weights: ValidatorWeights,
        finality_threshold_fraction: Ratio,
    ) -> (weights: EraValidatorWeights)
        ensures
            weights.spec_era_id() == era_id,
            weights.spec_weights() == validator_weights.entries@,
            weights.spec_fraction() == finality_threshold_fraction,
            weights.wf() == validator_weights.wf(),
    {
        EraValidatorWeights { era_id, validator_weights, finality_threshold_fraction }
    }

    pub fn era_id(&self) -> (era_id: EraId)
        ensures
            era_id == self.spec_era_id(),
    {
        self.era_id
    }

    pub fn validator_weights(&self) -> (weights: &ValidatorWeights)
        ensures
            weights.entries@ == self.spec_weights(),
            weights.wf() == self.wf(),
    {
        &self.validator_weights
    }

    pub fn finality_threshold_fraction(&self) -> (fraction: Ratio)
        ensures
            fraction == self.spec_fraction(),
    {
        self.finality_threshold_fraction
    }
}

/// Why the signatures of a block do not make it final.
#[derive(Clone, Debug, PartialEq, Eq)]
pub enum BlockSignatureError {
    /// Some who signed are no validators of the era.
    BogusValidators { bogus_validators: Vec<PublicKey> },
    /// The weight of those who signed is not enough.
    InsufficientWeightForFinality {
        signature_weight: Option<Motes>,
        total_validator_weight: Motes,
        fault_tolerance_fraction: Ratio,
    },
}

/// A [`BlockSignatureError`] as plain values.
pub enum SignatureFault {
    BogusValidators { bogus_validators: Seq<PublicKey> },
    InsufficientWeightForFinality {
        signature_weight: Option<Motes>,
        total_validator_weight: Motes,
        fault_tolerance_fraction: Ratio,
    },
}

impl View for BlockSignatureError {
    type V = SignatureFault;

    open spec fn view(&self) -> SignatureFault {
        match self {
            BlockSignatureError::BogusValidators { bogus_validators } => SignatureFault::BogusValidators {
                bogus_validators: bogus_validators@,
            },
            BlockSignatureError::InsufficientWeightForFinality {
                signature_weight,
                total_validator_weight,
                fault_tolerance_fraction,
            } => SignatureFault::InsufficientWeightForFinality {
                signature_weight: *signature_weight,
                total_validator_weight: *total_validator_weight,
                fault_tolerance_fraction: *fault_tolerance_fraction,
            },
        }
    }
}

/// The weight of the first entry for `key` among `weights`, where there is one.
pub open spec fn spec_weight_of(weights: Seq<(PublicKey, Motes)>, key: PublicKey) -> Option<Motes>
    decreases weights.len(),
{
    if weights.len() == 0 {
        None
    } else if weights[0].0 == key {
        Some(weights[0].1)
    } else {
        spec_weight_of(weights.skip(1), key)
    }
}

/// The sum of two weights, or the largest weight there is where the sum is more.
pub open spec fn spec_add_weights(a: u128, b: u128) -> u128 {
    if a + b > u128::MAX {
        u128::MAX
    } else {
        (a + b) as u128
    }
}

/// The weight of all of `weights` together.
pub open spec fn spec_total_weight(weights: Seq<(PublicKey, Motes)>) -> u128
    decreases weights.len(),
{
    if weights.len() == 0 {
        0
    } else {
        spec_add_weights(spec_total_weight(weights.drop_last()), weights.last().1.0)
    }
}

/// Those who signed and have no weight, in the order in which they signed.
pub open spec fn spec_bogus_validators(
    weights: Seq<(PublicKey, Motes)>,
    proofs: Seq<(PublicKey, Signature)>,
) -> Seq<PublicKey>
    decreases proofs.len(),
{
    if proofs.len() == 0 {
        Seq::empty()
    } else {
        let earlier = spec_bogus_validators(weights, proofs.drop_last());
        if spec_weight_of(weights, proofs.last().0) is None {
            earlier.push(proofs.last().0)
        } else {
            earlier
        }
    }
}

/// The weight of those who signed, together.
pub open spec fn spec_signature_weight(
    weights: Seq<(PublicKey, Motes)>,
    proofs: Seq<(PublicKey, Signature)>,
) -> u128
    decreases proofs.len(),
{
    if proofs.len() == 0 {
        0
    } else {
        let earlier = spec_signature_weight(weights, proofs.drop_last());
        match spec_weight_of(weights, proofs.last().0) {
            Some(weight) => spec_add_weights(earlier, weight.0),
            None => earlier,
        }
    }
}

/// Whether the weight `signed` out of `total` is more than the half of the whole and of the
/// share `fraction` that may be faulty: `signed / total > (fraction + 1) / 2`.
pub open spec fn spec_is_sufficient(signed: u128, total: u128, fraction: Ratio) -> bool {
    signed * (2 * fraction.denom) > total * (fraction.numer + fraction.denom)
}

/// What [`check_sufficient_block_signatures`] finds.
pub open spec fn spec_check_sufficient_block_signatures(
    weights: Seq<(PublicKey, Motes)>,
    fraction: Ratio,
    signatures: Option<BlockSignatures>,
) -> Result<(), SignatureFault> {
    let proofs = match signatures {
        Some(signatures) => signatures.proofs@,
        None => Seq::empty(),
    };
    let bogus = spec_bogus_validators(weights, proofs);
    let signed = spec_signature_weight(weights, proofs);
    let total = spec_total_weight(weights);
    if bogus.len() > 0 {
        Err(SignatureFault::BogusValidators { bogus_validators: bogus })
    } else if !spec_is_sufficient(signed, total, fraction) {
        Err(
            SignatureFault::InsufficientWeightForFinality {
                signature_weight: if signatures is Some {
                    Some(Motes(signed))
                } else {
                    None
                },
                total_validator_weight: Motes(total),
                fault_tolerance_fraction: fraction,
            },
        )
    } else {
        Ok(())
    }
}

/// The weight of `key` among `weights`.
pub fn weight_of(weights: &Vec<(PublicKey, Motes)>, key: &PublicKey) -> (weight: Option<Motes>)
    ensures
        weight == spec_weight_of(weights@, *key),
{
    let mut i: usize = 0;
    assert(weights@.skip(0) =~= weights@);
    while i < weights.len()
        invariant
            i <= weights@.len(),
            spec_weight_of(weights@, *key) == spec_weight_of(weights@.skip(i as int), *key),
        decreases weights@.len() - i,
    {
        assert(weights@.skip(i as int)[0] == weights@[i as int]);
        if weights[i].0.same(key) {
            return Some(weights[i].1);
        }
        assert(weights@.skip(i as int).skip(1) =~= weights@.skip(i + 1));
        i = i + 1;
    }
    None
}

fn add_weights(a: u128, b: u128) -> (sum: u128)
    ensures
        sum == spec_add_weights(a, b),
{
    if a > u128::MAX - b {
        u128::MAX
    } else {
        a + b
    }
}

/// Checks that the signatures make their block final under the validators with the weights
/// `trusted_validator_weights`: that all who signed are validators, and that they weigh more
/// than the half of all validators and of the share `fault_tolerance_fraction` of them.
///
/// The weights are those of a set of validators, each key once, so that the weight of all is
/// the sum of what each weighs.
pub fn check_sufficient_block_signatures(
    trusted_validator_weights: &ValidatorWeights,
    fault_tolerance_fraction: Ratio,
    maybe_block_signatures: Option<&BlockSignatures>,
) -> (r: Result<(), BlockSignatureError>)
    requires
        trusted_validator_weights.wf(),
    ensures
        match r {
            Ok(()) => spec_check_sufficient_block_signatures(
                trusted_validator_weights.entries@,
                fault_tolerance_fraction,
                match maybe_block_signatures {
                    Some(signatures) => Some(*signatures),
                    None => None,
                },
            ) is Ok,
            Err(error) => spec_check_sufficient_block_signatures(
                trusted_validator_weights.entries@,
                fault_tolerance_fraction,
                match maybe_block_signatures {
                    Some(signatures) => Some(*signatures),
                    None => None,
                },
            ) == Err::<(), SignatureFault>(error@),
        },
{
    let weights: &Vec<(PublicKey, Motes)> = &trusted_validator_weights.entries;
    let mut total: u128 = 0;
    let mut i: usize = 0;
    while i < weights.len()
        invariant
            i <= weights@.len(),
            total == spec_total_weight(weights@.take(i as int)),
        decreases weights@.len() - i,
    {
        proof {
            let next = weights@.take(i + 1);
            assert(next.drop_last() =~= weights@.take(i as int));
            assert(next.last() == weights@[i as int]);
        }
        total = add_weights(total, weights[i].1.0);
        i = i + 1;
    }
    assert(weights@.take(i as int) =~= weights@);
    let mut signed: u128 = 0;
    let mut bogus_validators: Vec<PublicKey> = Vec::new();
    let ghost proofs = match maybe_block_signatures {
        Some(signatures) => signatures.proofs@,
        None => Seq::empty(),
    };
    if let Some(block_signatures) = maybe_block_signatures {
        let mut j: usize = 0;
        while j < block_signatures.proofs.len()
            invariant
                j <= block_signatures.proofs@.len(),
                proofs == block_signatures.proofs@,
                signed == spec_signature_weight(weights@, proofs.take(j as int)),
                bogus_validators@ == spec_bogus_validators(weights@, proofs.take(j as int)),
            decreases block_signatures.proofs@.len() - j,
        {
            proof {
                let next = proofs.take(j + 1);
                assert(next.drop_last() =~= proofs.take(j as int));
                assert(next.last() == proofs[j as int]);
            }
            match weight_of(weights, &block_signatures.proofs[j].0) {
                None => {
                    bogus_validators.push(block_signatures.proofs[j].0);
                },
                Some(weight) => {
                    signed = add_weights(signed, weight.0);
                },
            }
            j = j + 1;
        }
        assert(proofs.take(j as int) =~= proofs);
    }
    if bogus_validators.len() > 0 {
        return Err(BlockSignatureError::BogusValidators { bogus_validators });
    }
    let doubled: u128 = 2 * (fault_tolerance_fraction.denom as u128);
    let raised: u128 = (fault_tolerance_fraction.numer as u128)
        + (fault_tolerance_fraction.denom as u128);
    if product_le(signed, doubled, total, raised) {
        return Err(
            BlockSignatureError::InsufficientWeightForFinality {
                signature_weight: if maybe_block_signatures.is_some() {
                    Some(Motes(signed))
                } else {
                    None
                },
                total_validator_weight: Motes(total),
                fault_tolerance_fraction,
            },
        );
    }
    Ok(())
}

/// Among the weights of a set of validators, the weight of a key is the weight that stands
/// with it, wherever it stands.
pub proof fn lemma_weight_is_the_entry(weights: Seq<(PublicKey, Motes)>, i: int)
    requires
        spec_keys_once(weights),
        0 <= i < weights.len(),
    ensures
        spec_weight_of(weights, weights[i].0) == Some(weights[i].1),
    decreases i,
{
    if i > 0 {
        let rest = weights.skip(1);
        assert forall|a: int, b: int| 0 <= a < b < rest.len() implies rest[a].0 != rest[b].0 by {
            assert(rest[a] == weights[a + 1]);
            assert(rest[b] == weights[b + 1]);
        }
        assert(rest[i - 1] == weights[i]);
        lemma_weight_is_the_entry(rest, i - 1);
    }
}

} // verus!
