//! The headers and signatures that prove a later block to be on the chain of a trusted one.

use crate::contract_runtime::config::Ratio;
use crate::contract_runtime::types::ValidatorWeights;
use crate::identity::PublicKey;
use crate::primitives::{BlockHash, EraId, Motes, Timestamp};
use crate::types::block::{
    check_sufficient_block_signatures, spec_check_sufficient_block_signatures,
    BlockHeader, BlockHeaderWithMetadata, BlockHeaderWithMetadataValidationError,
    BlockSignatureError, BlockSignatures, EraValidatorWeights, SignatureFault,
};
use vstd::prelude::*;

verus! {

/// When a protocol version takes effect.
#[derive(Clone, Copy, Debug, PartialEq, Eq, Structural)]
pub enum ActivationPoint {
    /// At the start of an era.
    EraId(EraId),
    /// At the start of the chain.
    Genesis(Timestamp),
}

impl ActivationPoint {
    /// The era in which the protocol version takes effect; the first era, at genesis.
    pub open spec fn spec_era_id(&self) -> EraId {
        match self {
            ActivationPoint::EraId(era_id) => *era_id,
            ActivationPoint::Genesis(_) => EraId(0),
        }
    }

    /// The era in which the protocol version takes effect.
    pub fn era_id(&self) -> (era_id: EraId)
        ensures
            era_id == self.spec_era_id(),
    {
        match self {
            ActivationPoint::EraId(era_id) => *era_id,
            ActivationPoint::Genesis(_) => EraId(0),
        }
    }
}

/// What an upgrade changes in global state, as far as it is read here.
#[derive(Clone, Debug, PartialEq, Eq)]
pub struct GlobalStateUpdate {
    /// The validators after the upgrade, where it changes them.
    pub validators: Option<ValidatorWeights>,
}

/// What a sync leap is validated against.
#[derive(Clone, Debug, PartialEq, Eq)]
pub struct SyncLeapValidationMetaData {
    pub recent_era_count: u64,
    pub activation_point: ActivationPoint,
    pub global_state_update: Option<GlobalStateUpdate>,
    pub finality_threshold_fraction: Ratio,
}

impl SyncLeapValidationMetaData {
    pub fn new(
        recent_era_count: u64,
        activation_point: ActivationPoint,
        global_state_update: Option<GlobalStateUpdate>,
        finality_threshold_fraction: Ratio,
    ) -> (metadata: SyncLeapValidationMetaData)
        ensures
            metadata == (SyncLeapValidationMetaData {
                recent_era_count,
                activation_point,
                global_state_update,
                finality_threshold_fraction,
            }),
    {
        SyncLeapValidationMetaData {
            recent_era_count,
            activation_point,
            global_state_update,
            finality_threshold_fraction,
        }
    }

    /// The validators that the upgrade sets, where it sets any, are a set of validators.
    pub open spec fn wf(&self) -> bool {
        self.spec_updated_weights() matches Some(weights) ==> weights.wf()
    }

    /// The validators that the upgrade sets, where it sets any.
    pub open spec fn spec_updated_weights(&self) -> Option<ValidatorWeights> {
        match self.global_state_update {
            Some(update) => update.validators,
            None => None,
        }
    }
}

/// Why a signature could not be verified.
#[derive(Clone, Debug, PartialEq, Eq)]
pub struct CryptoError {
    pub reason: String,
}

/// Why a sync leap is refused.
#[derive(Clone, Debug, PartialEq, Eq)]
pub enum SyncLeapValidationError {
    /// No ancestors of the trusted block provided.
    MissingTrustedAncestors,
    /// The sync leap does not contain proof that all its headers are on the right chain.
    IncompleteProof,
    /// A header is not signed by enough of its validators.
    HeadersNotSufficientlySigned(BlockSignatureError),
    /// The block signatures are not cryptographically valid.
    Crypto(CryptoError),
    /// A header and its signatures do not go together.
    BlockWithMetadata(BlockHeaderWithMetadataValidationError),
    /// Too many switch blocks: leaping across that many eras is not allowed.
    TooManySwitchBlocks,
    /// Trusted ancestor headers must be in reverse chronological order.
    TrustedAncestorsNotSorted,
    /// Last trusted ancestor is not a switch block.
    MissingAncestorSwitchBlock,
    /// Only the last trusted ancestor is allowed to be a switch block or the genesis block.
    UnexpectedAncestorSwitchBlock,
    /// Signed block headers present despite trusted_ancestor_only flag.
    UnexpectedSignedBlockHeaders,
}

/// A [`SyncLeapValidationError`] as plain values.
pub enum SyncLeapFault {
    MissingTrustedAncestors,
    IncompleteProof,
    HeadersNotSufficientlySigned(SignatureFault),
    Crypto(CryptoError),
    BlockWithMetadata(BlockHeaderWithMetadataValidationError),
    TooManySwitchBlocks,
    TrustedAncestorsNotSorted,
    MissingAncestorSwitchBlock,
    UnexpectedAncestorSwitchBlock,
    UnexpectedSignedBlockHeaders,
}

impl View for SyncLeapValidationError {
    type V = SyncLeapFault;

    open spec fn view(&self) -> SyncLeapFault {
        match self {
            SyncLeapValidationError::MissingTrustedAncestors => SyncLeapFault::MissingTrustedAncestors,
            SyncLeapValidationError::IncompleteProof => SyncLeapFault::IncompleteProof,
            SyncLeapValidationError::HeadersNotSufficientlySigned(error) => SyncLeapFault::HeadersNotSufficientlySigned(
                error@,
            ),
            SyncLeapValidationError::Crypto(error) => SyncLeapFault::Crypto(*error),
            SyncLeapValidationError::BlockWithMetadata(error) => SyncLeapFault::BlockWithMetadata(
                *error,
            ),
            SyncLeapValidationError::TooManySwitchBlocks => SyncLeapFault::TooManySwitchBlocks,
            SyncLeapValidationError::TrustedAncestorsNotSorted => SyncLeapFault::TrustedAncestorsNotSorted,
            SyncLeapValidationError::MissingAncestorSwitchBlock => SyncLeapFault::MissingAncestorSwitchBlock,
            SyncLeapValidationError::UnexpectedAncestorSwitchBlock => SyncLeapFault::UnexpectedAncestorSwitchBlock,
            SyncLeapValidationError::UnexpectedSignedBlockHeaders => SyncLeapFault::UnexpectedSignedBlockHeaders,
        }
    }
}

/// Identifier for a SyncLeap.
#[derive(Debug, Copy, Clone, Hash, PartialEq, Eq)]
pub struct SyncLeapIdentifier {
    /// The block hash of the initial trusted block.
    block_hash: BlockHash,
    /// If true, signed_block_headers are not required.
    trusted_ancestor_only: bool,
}

impl SyncLeapIdentifier {
    pub closed spec fn spec_block_hash(&self) -> BlockHash {
        self.block_hash
    }

    pub closed spec fn spec_trusted_ancestor_only(&self) -> bool {
        self.trusted_ancestor_only
    }

    /// Identifies a leap to the tip of the chain: signed block headers are asked for.
    pub fn sync_to_tip(block_hash: BlockHash) -> (id: SyncLeapIdentifier)
        ensures
            id.spec_block_hash() == block_hash,
            !id.spec_trusted_ancestor_only(),
    {
        SyncLeapIdentifier { block_hash, trusted_ancestor_only: false }
    }

    /// Identifies a leap into history: only the trusted ancestors are asked for.
    pub fn sync_to_historical(block_hash: BlockHash) -> (id: SyncLeapIdentifier)
        ensures
            id.spec_block_hash() == block_hash,
            id.spec_trusted_ancestor_only(),
    {
        SyncLeapIdentifier { block_hash, trusted_ancestor_only: true }
    }

    pub fn block_hash(&self) -> (hash: BlockHash)
        ensures
            hash == self.spec_block_hash(),
    {
        self.block_hash
    }

    pub fn trusted_ancestor_only(&self) -> (r: bool)
        ensures
            r == self.spec_trusted_ancestor_only(),
    {
        self.trusted_ancestor_only
    }
}

/// Headers and signatures required to prove that if a given trusted block hash is on the correct
/// chain, then so is a later header, which should be the most recent one according to the sender.
#[derive(Debug, Clone, PartialEq, Eq)]
pub struct SyncLeap {
    /// Requester indicates if they want only the header and ancestor headers,
    /// of if they want everything.
    pub trusted_ancestor_only: bool,
    /// The header of the trusted block specified by hash by the requester.
    pub trusted_block_header: BlockHeader,
    /// The block headers of the trusted block's ancestors, back to the most recent switch block.
    pub trusted_ancestor_headers: Vec<BlockHeader>,
    /// The headers of all switch blocks known to the sender, after the trusted block but before
    /// their highest block, with signatures, plus the signed highest block.
    pub signed_block_headers: Vec<BlockHeaderWithMetadata>,
}

/// The headers of signed headers.
pub open spec fn spec_signed_headers(signed: Seq<BlockHeaderWithMetadata>) -> Seq<BlockHeader> {
    signed.map_values(|s: BlockHeaderWithMetadata| s.block_header)
}

/// The place of the last of `headers` with the height `height`.
pub open spec fn spec_is_highest(headers: Seq<BlockHeader>, at: int) -> bool {
    &&& 0 <= at < headers.len()
    &&& forall|i: int| 0 <= i < headers.len() ==> headers[i].height <= headers[at].height
    &&& forall|i: int| at < i < headers.len() ==> headers[i].height < headers[at].height
}

/// Whether one of `headers` is the last block of an era with the height `height`.
pub open spec fn spec_switch_block_at(headers: Seq<BlockHeader>, height: int) -> bool {
    exists|i: int|
        0 <= i < headers.len() && (#[trigger] headers[i]).spec_is_switch_block()
            && headers[i].height == height
}

/// Those of `headers`, in order, that end an era and are not followed at once by another block
/// that ends an era, among all of `all`.
pub open spec fn spec_weights_headers(all: Seq<BlockHeader>, headers: Seq<BlockHeader>) -> Seq<
    BlockHeader,
>
    decreases headers.len(),
{
    if headers.len() == 0 {
        Seq::empty()
    } else {
        let earlier = spec_weights_headers(all, headers.drop_last());
        let header = headers.last();
        if header.spec_is_switch_block() && !spec_switch_block_at(all, header.height + 1) {
            earlier.push(header)
        } else {
            earlier
        }
    }
}

/// The first of `headers` that ends an era and is the first block of the chain.
pub open spec fn spec_genesis_switch(headers: Seq<BlockHeader>) -> Option<BlockHeader>
    decreases headers.len(),
{
    if headers.len() == 0 {
        None
    } else if headers[0].spec_is_switch_block() && headers[0].spec_is_genesis() {
        Some(headers[0])
    } else {
        spec_genesis_switch(headers.skip(1))
    }
}

/// Those of `headers` that end an era, in order.
pub open spec fn spec_switch_blocks(headers: Seq<BlockHeader>) -> Seq<BlockHeader>
    decreases headers.len(),
{
    if headers.len() == 0 {
        Seq::empty()
    } else if headers.last().spec_is_switch_block() {
        spec_switch_blocks(headers.drop_last()).push(headers.last())
    } else {
        spec_switch_blocks(headers.drop_last())
    }
}

/// Whether two neighbours among `ancestors` are not child and parent.
pub open spec fn spec_unsorted(ancestors: Seq<BlockHeader>) -> bool {
    exists|i: int|
        0 <= i < ancestors.len() - 1 && (#[trigger] ancestors[i]).parent_hash != ancestors[i
            + 1].block_hash
}

/// Whether one of `ancestors` but the last ends an era.
pub open spec fn spec_switch_before_last(ancestors: Seq<BlockHeader>) -> bool {
    exists|i: int| 0 <= i < ancestors.len() - 1 && (#[trigger] ancestors[i]).spec_is_switch_block()
}

/// The places of those of `all` before `n` that no later header shares its hash with: where
/// headers share a hash, the last counts.
pub open spec fn spec_kept(all: Seq<BlockHeader>, n: int) -> Seq<usize>
    decreases n,
{
    if n <= 0 {
        Seq::empty()
    } else {
        let earlier = spec_kept(all, n - 1);
        if spec_has_later(all, n - 1) {
            earlier
        } else {
            earlier.push((n - 1) as usize)
        }
    }
}

/// Whether a header after the place `at` has the hash of the header at `at`.
pub open spec fn spec_has_later(all: Seq<BlockHeader>, at: int) -> bool {
    exists|j: int| at < j < all.len() && (#[trigger] all[j]).block_hash == all[at].block_hash
}

/// The first place in `remaining` of a header with the hash `hash`.
pub open spec fn spec_find(all: Seq<BlockHeader>, remaining: Seq<usize>, hash: BlockHash) -> Option<
    int,
>
    decreases remaining.len(),
{
    if remaining.len() == 0 {
        None
    } else if all[remaining[0] as int].block_hash == hash {
        Some(0)
    } else {
        match spec_find(all, remaining.skip(1), hash) {
            Some(place) => Some(place + 1),
            None => None,
        }
    }
}

/// Those of `signatures`, in order, that were made in the era `era`.
pub open spec fn spec_of_era(
    signed: Seq<BlockHeaderWithMetadata>,
    signatures: Seq<usize>,
    era: EraId,
) -> Seq<usize>
    decreases signatures.len(),
{
    if signatures.len() == 0 {
        Seq::empty()
    } else {
        let earlier = spec_of_era(signed, signatures.drop_last(), era);
        if signed[signatures.last() as int].block_signatures.era_id == era {
            earlier.push(signatures.last())
        } else {
            earlier
        }
    }
}

/// Those of `signatures`, in order, that were not made in the era `era`.
pub open spec fn spec_not_of_era(
    signed: Seq<BlockHeaderWithMetadata>,
    signatures: Seq<usize>,
    era: EraId,
) -> Seq<usize>
    decreases signatures.len(),
{
    if signatures.len() == 0 {
        Seq::empty()
    } else {
        let earlier = spec_not_of_era(signed, signatures.drop_last(), era);
        if signed[signatures.last() as int].block_signatures.era_id == era {
            earlier
        } else {
            earlier.push(signatures.last())
        }
    }
}

/// The signatures of one era and the others are all the signatures.
pub proof fn lemma_era_split(
    signed: Seq<BlockHeaderWithMetadata>,
    signatures: Seq<usize>,
    era: EraId,
)
    ensures
        spec_of_era(signed, signatures, era).len() + spec_not_of_era(signed, signatures, era).len()
            == signatures.len(),
    decreases signatures.len(),
{
    if signatures.len() > 0 {
        lemma_era_split(signed, signatures.drop_last(), era);
    }
}

/// Checks the signatures at `group` one after the other against `weights`: the hashes of the
/// blocks they sign, where all of them suffice, else what the first that does not suffice
/// lacks.
pub open spec fn spec_check_group(
    signed: Seq<BlockHeaderWithMetadata>,
    group: Seq<usize>,
    weights: Seq<(PublicKey, Motes)>,
    fraction: Ratio,
) -> Result<Seq<BlockHash>, SignatureFault>
    decreases group.len(),
{
    if group.len() == 0 {
        Ok(Seq::empty())
    } else {
        let signatures = signed[group[0] as int].block_signatures;
        match spec_check_sufficient_block_signatures(weights, fraction, Some(signatures)) {
            Err(fault) => Err(fault),
            Ok(()) => match spec_check_group(signed, group.skip(1), weights, fraction) {
                Err(fault) => Err(fault),
                Ok(hashes) => Ok(seq![signatures.block_hash] + hashes),
            },
        }
    }
}

/// As many hashes come of a group as it has signatures.
pub proof fn lemma_check_group_len(
    signed: Seq<BlockHeaderWithMetadata>,
    group: Seq<usize>,
    weights: Seq<(PublicKey, Motes)>,
    fraction: Ratio,
)
    ensures
        spec_check_group(signed, group, weights, fraction) matches Ok(hashes) ==> hashes.len()
            == group.len(),
    decreases group.len(),
{
    if group.len() > 0 {
        lemma_check_group_len(signed, group.skip(1), weights, fraction);
    }
}

/// The weights that the signatures of the era after `header` are checked against: those that
/// the header names, unless the era after it is the one in which the protocol version was
/// activated and the upgrade sets validators: then those.
pub open spec fn spec_trusted_weights(
    header: BlockHeader,
    metadata: SyncLeapValidationMetaData,
) -> Seq<(PublicKey, Motes)> {
    match (header.next_era_validator_weights, metadata.spec_updated_weights()) {
        (Some(_), Some(updated)) if header.spec_next_block_era_id()
            == metadata.activation_point.spec_era_id() => updated.entries@,
        (Some(named), _) => named.entries@,
        (None, _) => Seq::empty(),
    }
}

/// Walks from the hashes on `stack` along parents and signatures.
///
/// The last hash is taken off the stack. Where a header with that hash remains, it is taken
/// off the remaining headers and its parent's hash is put on the stack; where it ends an era
/// and signatures of the next era remain, these are checked against the validators of that
/// era, taken off the remaining signatures, and the hashes they sign are put on the stack.
/// The walk ends where the stack is empty, with what remains, or where signatures do not
/// suffice.
pub open spec fn spec_walk(
    all: Seq<BlockHeader>,
    signed: Seq<BlockHeaderWithMetadata>,
    metadata: SyncLeapValidationMetaData,
    remaining: Seq<usize>,
    signatures: Seq<usize>,
    stack: Seq<BlockHash>,
) -> Result<(Seq<usize>, Seq<usize>), SignatureFault>
    decreases 2 * remaining.len() + signatures.len() + stack.len(),
{
    if stack.len() == 0 {
        Ok((remaining, signatures))
    } else {
        let rest = stack.drop_last();
        match spec_find(all, remaining, stack.last()) {
            Some(place) if 0 <= place < remaining.len() => {
                let header = all[remaining[place] as int];
                let left = remaining.remove(place);
                let next = rest.push(header.parent_hash);
                let era = header.spec_next_block_era_id();
                let group = spec_of_era(signed, signatures, era);
                let others = spec_not_of_era(signed, signatures, era);
                if header.spec_is_switch_block() && group.len() > 0 {
                    match spec_check_group(
                        signed,
                        group,
                        spec_trusted_weights(header, metadata),
                        metadata.finality_threshold_fraction,
                    ) {
                        Err(fault) => Err(fault),
                        Ok(hashes) => {
                            if others.len() + hashes.len() <= signatures.len() {
                                spec_walk(all, signed, metadata, left, others, next + hashes)
                            } else {
                                Ok((left, others))
                            }
                        },
                    }
                } else {
                    spec_walk(all, signed, metadata, left, signatures, next)
                }
            },
            _ => spec_walk(all, signed, metadata, remaining, signatures, rest),
        }
    }
}

/// Whether the validators that `header` names for the next era, where it names any, are a set
/// of validators.
pub open spec fn spec_names_a_set(header: BlockHeader) -> bool {
    header.next_era_validator_weights matches Some(weights) ==> weights.wf()
}

impl SyncLeap {
    /// Every header that names validators names a set of them, each key once.
    pub open spec fn wf(&self) -> bool {
        forall|i: int|
            0 <= i < self.spec_headers().len() ==> spec_names_a_set(#[trigger] self.spec_headers()[i])
    }

    /// All the headers: the trusted one, its ancestors, and the signed ones.
    pub open spec fn spec_headers(&self) -> Seq<BlockHeader> {
        seq![self.trusted_block_header] + self.trusted_ancestor_headers@ + spec_signed_headers(
            self.signed_block_headers@,
        )
    }

    /// The number of headers.
    pub open spec fn spec_header_count(&self) -> nat {
        1 + self.trusted_ancestor_headers@.len() + self.signed_block_headers@.len()
    }

    fn header_count(&self) -> (n: usize)
        requires
            self.spec_header_count() <= usize::MAX,
        ensures
            n == self.spec_headers().len(),
    {
        1 + self.trusted_ancestor_headers.len() + self.signed_block_headers.len()
    }

    fn header_at(&self, i: usize) -> (header: &BlockHeader)
        requires
            i < self.spec_headers().len(),
        ensures
            *header == self.spec_headers()[i as int],
    {
        if i == 0 {
            &self.trusted_block_header
        } else if i - 1 < self.trusted_ancestor_headers.len() {
            &self.trusted_ancestor_headers[i - 1]
        } else {
            &self.signed_block_headers[i - 1 - self.trusted_ancestor_headers.len()].block_header
        }
    }

    /// All the headers: the trusted one, its ancestors, and the signed ones.
    pub fn headers(&self) -> (headers: Vec<&BlockHeader>)
        ensures
            headers@.len() == self.spec_headers().len(),
            forall|i: int| 0 <= i < headers@.len() ==> *headers@[i] == self.spec_headers()[i],
    {
        let mut headers: Vec<&BlockHeader> = Vec::new();
        headers.push(&self.trusted_block_header);
        let mut i: usize = 0;
        while i < self.trusted_ancestor_headers.len()
            invariant
                i <= self.trusted_ancestor_headers@.len(),
                headers@.len() == 1 + i,
                forall|k: int| 0 <= k < headers@.len() ==> *headers@[k] == self.spec_headers()[k],
            decreases self.trusted_ancestor_headers@.len() - i,
        {
            headers.push(&self.trusted_ancestor_headers[i]);
            i = i + 1;
        }
        let mut j: usize = 0;
        while j < self.signed_block_headers.len()
            invariant
                j <= self.signed_block_headers@.len(),
                headers@.len() == 1 + self.trusted_ancestor_headers@.len() + j,
                forall|k: int| 0 <= k < headers@.len() ==> *headers@[k] == self.spec_headers()[k],
            decreases self.signed_block_headers@.len() - j,
        {
            headers.push(&self.signed_block_headers[j].block_header);
            j = j + 1;
        }
        headers
    }

    /// The headers that end an era, in order.
    pub fn switch_blocks_headers(&self) -> (headers: Vec<&BlockHeader>)
        ensures
            headers@.len() == spec_switch_blocks(self.spec_headers()).len(),
            forall|i: int|
                0 <= i < headers@.len() ==> *headers@[i] == spec_switch_blocks(
                    self.spec_headers(),
                )[i],
    {
        let all: Vec<&BlockHeader> = self.headers();
        let ghost every = self.spec_headers();
        let mut headers: Vec<&BlockHeader> = Vec::new();
        let mut i: usize = 0;
        while i < all.len()
            invariant
                i <= all@.len(),
                all@.len() == every.len(),
                forall|k: int| 0 <= k < all@.len() ==> *all@[k] == every[k],
                headers@.len() == spec_switch_blocks(every.take(i as int)).len(),
                forall|k: int|
                    0 <= k < headers@.len() ==> *headers@[k] == spec_switch_blocks(
                        every.take(i as int),
                    )[k],
            decreases all@.len() - i,
        {
            proof {
                let next = every.take(i + 1);
                assert(next.drop_last() =~= every.take(i as int));
                assert(next.last() == every[i as int]);
            }
            if all[i].is_switch_block() {
                headers.push(all[i]);
            }
            i = i + 1;
        }
        assert(every.take(i as int) =~= every);
        headers
    }

    fn highest(&self) -> (at: usize)
        requires
            self.spec_header_count() <= usize::MAX,
        ensures
            spec_is_highest(self.spec_headers(), at as int),
    {
        let n: usize = self.header_count();
        let mut at: usize = 0;
        let mut i: usize = 1;
        while i < n
            invariant
                1 <= i <= n,
                n == self.spec_headers().len(),
                at < i,
                forall|k: int|
                    0 <= k < i ==> self.spec_headers()[k].height <= self.spec_headers()[at as int].height,
                forall|k: int|
                    at < k < i ==> self.spec_headers()[k].height < self.spec_headers()[at as int].height,
            decreases n - i,
        {
            if self.header_at(i).height >= self.header_at(at).height {
                at = i;
            }
            i = i + 1;
        }
        at
    }

    /// The height of the highest header.
    pub fn highest_block_height(&self) -> (height: u64)
        requires
            self.spec_header_count() <= usize::MAX,
        ensures
            exists|at: int|
                spec_is_highest(self.spec_headers(), at) && height == self.spec_headers()[at].height,
    {
        let at: usize = self.highest();
        self.header_at(at).height
    }

    /// The highest header, the last of them where several are as high, and the signatures of
    /// the first signed header of that height, where there is one.
    pub fn highest_block_header_and_signatures(&self) -> (r: (
        &BlockHeader,
        Option<&BlockSignatures>,
    ))
        requires
            self.spec_header_count() <= usize::MAX,
        ensures
            exists|at: int|
                spec_is_highest(self.spec_headers(), at) && *r.0 == self.spec_headers()[at],
            match r.1 {
                Some(signatures) => exists|i: int|
                    {
                        &&& 0 <= i < self.signed_block_headers@.len()
                        &&& self.signed_block_headers@[i].block_header.height == r.0.height
                        &&& *signatures == self.signed_block_headers@[i].block_signatures
                        &&& forall|j: int|
                            0 <= j < i ==> self.signed_block_headers@[j].block_header.height
                                != r.0.height
                    },
                None => forall|i: int|
                    0 <= i < self.signed_block_headers@.len()
                        ==> self.signed_block_headers@[i].block_header.height != r.0.height,
            },
    {
        let at: usize = self.highest();
        let header: &BlockHeader = self.header_at(at);
        let mut i: usize = 0;
        while i < self.signed_block_headers.len()
            invariant
                i <= self.signed_block_headers@.len(),
                spec_is_highest(self.spec_headers(), at as int),
                *header == self.spec_headers()[at as int],
                forall|j: int|
                    0 <= j < i ==> self.signed_block_headers@[j].block_header.height
                        != header.height,
            decreases self.signed_block_headers@.len() - i,
        {
            if self.signed_block_headers[i].block_header.height == header.height {
                return (header, Some(&self.signed_block_headers[i].block_signatures));
            }
            i = i + 1;
        }
        (header, None)
    }

    /// The hash of the highest header.
    pub fn highest_block_hash(&self) -> (hash: BlockHash)
        requires
            self.spec_header_count() <= usize::MAX,
        ensures
            exists|at: int|
                spec_is_highest(self.spec_headers(), at) && hash
                    == self.spec_headers()[at].block_hash,
    {
        self.highest_block_header_and_signatures().0.block_hash()
    }

    /// What identifies the sync leap.
    pub fn fetch_id(&self) -> (id: SyncLeapIdentifier)
        ensures
            id.spec_block_hash() == self.trusted_block_header.block_hash,
            id.spec_trusted_ancestor_only() == self.trusted_ancestor_only,
    {
        SyncLeapIdentifier {
            block_hash: self.trusted_block_header.block_hash(),
            trusted_ancestor_only: self.trusted_ancestor_only,
        }
    }
}


/// The weights of the validators of the eras after the headers of a sync leap, each with the
/// era it is for: first those of the first era, where the first block of the chain is among the
/// headers that end an era; then, for every header that ends an era and is not followed at once
/// by another that does, those of the era after it.
pub open spec fn spec_era_validator_weights(leap: SyncLeap) -> Seq<(EraId, Seq<(PublicKey, Motes)>)> {
    let all = leap.spec_headers();
    let first = match spec_genesis_switch(all) {
        Some(header) => seq![(EraId(0), spec_named_weights(header))],
        None => Seq::empty(),
    };
    first + spec_weights_headers(all, all).map_values(
        |header: BlockHeader| (header.spec_next_block_era_id(), spec_named_weights(header)),
    )
}

/// The weights that `header` names for the next era; none where it does not end an era.
pub open spec fn spec_named_weights(header: BlockHeader) -> Seq<(PublicKey, Motes)> {
    match header.next_era_validator_weights {
        Some(weights) => weights.entries@,
        None => Seq::empty(),
    }
}

/// The most signed headers that a sync leap may hold: one more than the eras that count as
/// recent.
pub open spec fn spec_max_signed_headers(recent_era_count: u64) -> int {
    if recent_era_count == u64::MAX {
        u64::MAX as int
    } else {
        recent_era_count + 1
    }
}

/// What is wrong with the shape of a sync leap, where anything is.
pub open spec fn spec_structure_fault(leap: SyncLeap, metadata: SyncLeapValidationMetaData) -> Option<
    SyncLeapFault,
> {
    let ancestors = leap.trusted_ancestor_headers@;
    if ancestors.len() == 0 && leap.trusted_block_header.height > 0 {
        Some(SyncLeapFault::MissingTrustedAncestors)
    } else if leap.signed_block_headers@.len() > spec_max_signed_headers(
        metadata.recent_era_count,
    ) {
        Some(SyncLeapFault::TooManySwitchBlocks)
    } else if spec_unsorted(ancestors) {
        Some(SyncLeapFault::TrustedAncestorsNotSorted)
    } else if ancestors.len() > 0 && !ancestors.last().spec_is_switch_block()
        && !ancestors.last().spec_is_genesis() {
        Some(SyncLeapFault::MissingAncestorSwitchBlock)
    } else if spec_switch_before_last(ancestors) {
        Some(SyncLeapFault::UnexpectedAncestorSwitchBlock)
    } else if leap.trusted_ancestor_only && leap.signed_block_headers@.len() > 0 {
        Some(SyncLeapFault::UnexpectedSignedBlockHeaders)
    } else {
        None
    }
}

/// The places `0`, `1`, up to `n`.
pub open spec fn spec_places(n: int) -> Seq<usize> {
    Seq::new(n as nat, |i: int| i as usize)
}

/// How the first signed header whose signatures do not go with it differs from them.
pub open spec fn spec_first_mismatch(signed: Seq<BlockHeaderWithMetadata>) -> Option<
    BlockHeaderWithMetadataValidationError,
>
    decreases signed.len(),
{
    if signed.len() == 0 {
        None
    } else {
        match signed[0].spec_validate() {
            Err(error) => Some(error),
            Ok(()) => spec_first_mismatch(signed.skip(1)),
        }
    }
}

/// What is wrong with a sync leap as a proof, where anything is, before any signature is
/// verified cryptographically.
///
/// After the checks of its shape, the headers and signatures are walked from the trusted
/// block: every header and every signature must be reached, and every signature reached must
/// suffice. Last, every signed header must go with its signatures.
pub open spec fn spec_proof_fault(leap: SyncLeap, metadata: SyncLeapValidationMetaData) -> Option<
    SyncLeapFault,
> {
    match spec_structure_fault(leap, metadata) {
        Some(fault) => Some(fault),
        None => {
            let all = leap.spec_headers();
            match spec_walk(
                all,
                leap.signed_block_headers@,
                metadata,
                spec_kept(all, all.len() as int),
                spec_places(leap.signed_block_headers@.len() as int),
                seq![leap.trusted_block_header.block_hash],
            ) {
                Err(fault) => Some(SyncLeapFault::HeadersNotSufficientlySigned(fault)),
                Ok((remaining, signatures)) => {
                    if remaining.len() > 0 || signatures.len() > 0 {
                        Some(SyncLeapFault::IncompleteProof)
                    } else {
                        match spec_first_mismatch(leap.signed_block_headers@) {
                            Some(error) => Some(SyncLeapFault::BlockWithMetadata(error)),
                            None => None,
                        }
                    }
                },
            }
        },
    }
}

fn unsorted(ancestors: &Vec<BlockHeader>) -> (r: bool)
    ensures
        r == spec_unsorted(ancestors@),
{
    if ancestors.len() < 2 {
        return false;
    }
    let mut i: usize = 0;
    while i < ancestors.len() - 1
        invariant
            ancestors@.len() >= 2,
            i <= ancestors@.len() - 1,
            forall|k: int|
                0 <= k < i ==> (#[trigger] ancestors@[k]).parent_hash == ancestors@[k
                    + 1].block_hash,
        decreases ancestors@.len() - i,
    {
        if !ancestors[i].parent_hash.0.same(&ancestors[i + 1].block_hash.0) {
            return true;
        }
        i = i + 1;
    }
    false
}

fn switch_before_last(ancestors: &Vec<BlockHeader>) -> (r: bool)
    ensures
        r == spec_switch_before_last(ancestors@),
{
    if ancestors.len() < 2 {
        return false;
    }
    let mut i: usize = 0;
    while i < ancestors.len() - 1
        invariant
            ancestors@.len() >= 2,
            i <= ancestors@.len() - 1,
            forall|k: int| 0 <= k < i ==> !(#[trigger] ancestors@[k]).spec_is_switch_block(),
        decreases ancestors@.len() - i,
    {
        if ancestors[i].is_switch_block() {
            return true;
        }
        i = i + 1;
    }
    false
}

fn copy_weights(weights: &ValidatorWeights) -> (copy: ValidatorWeights)
    ensures
        copy.entries@ == weights.entries@,
        copy.wf() == weights.wf(),
{
    let mut entries: Vec<(PublicKey, Motes)> = Vec::new();
    let mut i: usize = 0;
    while i < weights.entries.len()
        invariant
            i <= weights.entries@.len(),
            entries@ == weights.entries@.subrange(0, i as int),
        decreases weights.entries@.len() - i,
    {
        let entry: (PublicKey, Motes) = weights.entries[i];
        entries.push(entry);
        assert(entries@ =~= weights.entries@.subrange(0, i + 1));
        i = i + 1;
    }
    assert(entries@ =~= weights.entries@);
    ValidatorWeights { entries }
}

fn trusted_weights<'a>(header: &'a BlockHeader, metadata: &'a SyncLeapValidationMetaData) -> (weights:
    Option<&'a ValidatorWeights>)
    requires
        spec_names_a_set(*header),
        metadata.wf(),
    ensures
        match weights {
            Some(weights) => header.spec_is_switch_block() && weights.entries@
                == spec_trusted_weights(*header, *metadata) && weights.wf(),
            None => !header.spec_is_switch_block(),
        },
{
    match &header.next_era_validator_weights {
        None => None,
        Some(named) => {
            if header.next_block_era_id().0 == metadata.activation_point.era_id().0 {
                match &metadata.global_state_update {
                    Some(update) => match &update.validators {
                        Some(updated) => Some(updated),
                        None => Some(named),
                    },
                    None => Some(named),
                }
            } else {
                Some(named)
            }
        },
    }
}

impl SyncLeap {
    fn switch_block_at(&self, height: u64) -> (r: bool)
        requires
            self.spec_header_count() <= usize::MAX,
        ensures
            r == spec_switch_block_at(self.spec_headers(), height + 1),
    {
        if height == u64::MAX {
            return false;
        }
        let n: usize = self.header_count();
        let mut i: usize = 0;
        while i < n
            invariant
                i <= n,
                n == self.spec_headers().len(),
                height < u64::MAX,
                forall|k: int|
                    0 <= k < i ==> !((#[trigger] self.spec_headers()[k]).spec_is_switch_block()
                        && self.spec_headers()[k].height == height + 1),
            decreases n - i,
        {
            let header: &BlockHeader = self.header_at(i);
            if header.is_switch_block() && header.height == height + 1 {
                return true;
            }
            i = i + 1;
        }
        false
    }

    /// The weights of the validators of the eras after the headers that end an era.
    ///
    /// The weights named by a header that is followed at once by another header that ends an
    /// era are left out: an upgrade may have changed them.
    pub fn era_validator_weights(&self, fault_tolerance_fraction: Ratio) -> (weights: Vec<
        EraValidatorWeights,
    >)
        requires
            self.spec_header_count() <= usize::MAX,
        ensures
            weights@.len() == spec_era_validator_weights(*self).len(),
            forall|i: int|
                0 <= i < weights@.len() ==> {
                    &&& (#[trigger] weights@[i]).spec_era_id() == spec_era_validator_weights(
                        *self,
                    )[i].0
                    &&& weights@[i].spec_weights() == spec_era_validator_weights(*self)[i].1
                    &&& weights@[i].spec_fraction() == fault_tolerance_fraction
                },
            self.wf() ==> forall|i: int| 0 <= i < weights@.len() ==> (#[trigger] weights@[i]).wf(),
    {
        let ghost all = self.spec_headers();
        let n: usize = self.header_count();
        let mut weights: Vec<EraValidatorWeights> = Vec::new();
        match self.genesis_switch() {
            Some(at) => {
                match self.header_at(at).next_era_validator_weights() {
                    Some(named) => {
                        weights.push(
                            EraValidatorWeights::new(
                                EraId(0),
                                copy_weights(named),
                                fault_tolerance_fraction,
                            ),
                        );
                    },
                    None => {},
                }
            },
            None => {},
        }
        let ghost first = match spec_genesis_switch(all) {
            Some(header) => seq![(EraId(0), spec_named_weights(header))],
            None => Seq::empty(),
        };
        assert(weights@.len() == first.len());
        let mut i: usize = 0;
        while i < n
            invariant
                i <= n,
                n == all.len(),
                self.wf() ==> forall|k: int| 0 <= k < weights@.len() ==> (#[trigger] weights@[k]).wf(),
                all == self.spec_headers(),
                self.spec_header_count() <= usize::MAX,
                first.len() <= 1,
                weights@.len() == first.len() + spec_weights_headers(all, all.take(i as int)).len(),
                forall|k: int|
                    0 <= k < first.len() ==> {
                        &&& (#[trigger] weights@[k]).spec_era_id() == first[k].0
                        &&& weights@[k].spec_weights() == first[k].1
                        &&& weights@[k].spec_fraction() == fault_tolerance_fraction
                    },
                forall|k: int|
                    first.len() <= k < weights@.len() ==> {
                        let header = spec_weights_headers(all, all.take(i as int))[k - first.len()];
                        &&& (#[trigger] weights@[k]).spec_era_id()
                            == header.spec_next_block_era_id()
                        &&& weights@[k].spec_weights() == spec_named_weights(header)
                        &&& weights@[k].spec_fraction() == fault_tolerance_fraction
                    },
            decreases n - i,
        {
            let header: &BlockHeader = self.header_at(i);
            proof {
                let next = all.take(i + 1);
                assert(next.drop_last() =~= all.take(i as int));
                assert(next.last() == all[i as int]);
            }
            if header.is_switch_block() && !self.switch_block_at(header.height) {
                match header.next_era_validator_weights() {
                    Some(named) => {
                        weights.push(
                            EraValidatorWeights::new(
                                header.next_block_era_id(),
                                copy_weights(named),
                                fault_tolerance_fraction,
                            ),
                        );
                    },
                    None => {},
                }
            }
            i = i + 1;
        }
        assert(all.take(i as int) =~= all);
        weights
    }

    fn genesis_switch(&self) -> (at: Option<usize>)
        requires
            self.spec_header_count() <= usize::MAX,
        ensures
            match at {
                Some(at) => at < self.spec_headers().len() && spec_genesis_switch(
                    self.spec_headers(),
                ) == Some(self.spec_headers()[at as int]) && self.spec_headers()[at as int].spec_is_switch_block(),
                None => spec_genesis_switch(self.spec_headers()) is None,
            },
    {
        let ghost all = self.spec_headers();
        let n: usize = self.header_count();
        let mut g: usize = 0;
        assert(all.skip(0) =~= all);
        while g < n
            invariant
                g <= n,
                n == all.len(),
                all == self.spec_headers(),
                spec_genesis_switch(all) == spec_genesis_switch(all.skip(g as int)),
            decreases n - g,
        {
            let header: &BlockHeader = self.header_at(g);
            assert(all.skip(g as int)[0] == all[g as int]);
            if header.is_switch_block() && header.is_genesis() {
                return Some(g);
            }
            assert(all.skip(g as int).skip(1) =~= all.skip(g + 1));
            g = g + 1;
        }
        None
    }

    fn kept(&self) -> (remaining: Vec<usize>)
        requires
            self.spec_header_count() <= usize::MAX,
        ensures
            remaining@ == spec_kept(self.spec_headers(), self.spec_headers().len() as int),
            forall|k: int| 0 <= k < remaining@.len() ==> remaining@[k] < self.spec_headers().len(),
    {
        let ghost all = self.spec_headers();
        let n: usize = self.header_count();
        let mut remaining: Vec<usize> = Vec::new();
        let mut i: usize = 0;
        while i < n
            invariant
                i <= n,
                n == all.len(),
                all == self.spec_headers(),
                remaining@ == spec_kept(all, i as int),
                forall|k: int| 0 <= k < remaining@.len() ==> remaining@[k] < n,
            decreases n - i,
        {
            let hash: BlockHash = self.header_at(i).block_hash;
            let mut later: bool = false;
            let mut j: usize = i + 1;
            while j < n
                invariant
                    i < j <= n,
                    n == all.len(),
                    all == self.spec_headers(),
                    hash == all[i as int].block_hash,
                    later == exists|k: int|
                        i < k < j && (#[trigger] all[k]).block_hash == all[i as int].block_hash,
                decreases n - j,
            {
                if self.header_at(j).block_hash.0.same(&hash.0) {
                    later = true;
                }
                j = j + 1;
            }
            if !later {
                remaining.push(i);
            }
            i = i + 1;
        }
        remaining
    }

    fn find(&self, remaining: &Vec<usize>, hash: &BlockHash) -> (place: Option<usize>)
        requires
            forall|k: int| 0 <= k < remaining@.len() ==> remaining@[k] < self.spec_headers().len(),
        ensures
            match place {
                Some(place) => place < remaining@.len() && spec_find(
                    self.spec_headers(),
                    remaining@,
                    *hash,
                ) == Some(place as int),
                None => spec_find(self.spec_headers(), remaining@, *hash) is None,
            },
    {
        let ghost all = self.spec_headers();
        let mut i: usize = 0;
        assert(remaining@.skip(0) =~= remaining@);
        while i < remaining.len()
            invariant
                i <= remaining@.len(),
                all == self.spec_headers(),
                forall|k: int| 0 <= k < remaining@.len() ==> remaining@[k] < all.len(),
                spec_find(all, remaining@, *hash) == match spec_find(
                    all,
                    remaining@.skip(i as int),
                    *hash,
                ) {
                    Some(place) => Some(place + i),
                    None => None,
                },
            decreases remaining@.len() - i,
        {
            assert(remaining@.skip(i as int)[0] == remaining@[i as int]);
            if self.header_at(remaining[i]).block_hash.0.same(&hash.0) {
                return Some(i);
            }
            assert(remaining@.skip(i as int).skip(1) =~= remaining@.skip(i + 1));
            i = i + 1;
        }
        None
    }

    fn split_era(&self, signatures: &Vec<usize>, era: EraId) -> (r: (Vec<usize>, Vec<usize>))
        requires
            forall|k: int|
                0 <= k < signatures@.len() ==> signatures@[k] < self.signed_block_headers@.len(),
        ensures
            r.0@ == spec_of_era(self.signed_block_headers@, signatures@, era),
            r.1@ == spec_not_of_era(self.signed_block_headers@, signatures@, era),
            forall|k: int| 0 <= k < r.0@.len() ==> r.0@[k] < self.signed_block_headers@.len(),
            forall|k: int| 0 <= k < r.1@.len() ==> r.1@[k] < self.signed_block_headers@.len(),
            r.0@.len() + r.1@.len() == signatures@.len(),
    {
        let mut group: Vec<usize> = Vec::new();
        let mut others: Vec<usize> = Vec::new();
        let mut i: usize = 0;
        while i < signatures.len()
            invariant
                i <= signatures@.len(),
                forall|k: int|
                    0 <= k < signatures@.len() ==> signatures@[k]
                        < self.signed_block_headers@.len(),
                group@ == spec_of_era(self.signed_block_headers@, signatures@.take(i as int), era),
                others@ == spec_not_of_era(
                    self.signed_block_headers@,
                    signatures@.take(i as int),
                    era,
                ),
                forall|k: int| 0 <= k < group@.len() ==> group@[k] < self.signed_block_headers@.len(),
                forall|k: int|
                    0 <= k < others@.len() ==> others@[k] < self.signed_block_headers@.len(),
                group@.len() + others@.len() == i,
            decreases signatures@.len() - i,
        {
            proof {
                let next = signatures@.take(i + 1);
                assert(next.drop_last() =~= signatures@.take(i as int));
                assert(next.last() == signatures@[i as int]);
            }
            let at: usize = signatures[i];
            if self.signed_block_headers[at].block_signatures.era_id.0 == era.0 {
                group.push(at);
            } else {
                others.push(at);
            }
            i = i + 1;
        }
        assert(signatures@.take(i as int) =~= signatures@);
        (group, others)
    }

    fn check_group(
        &self,
        group: &Vec<usize>,
        weights: &ValidatorWeights,
        fraction: Ratio,
    ) -> (r: Result<Vec<BlockHash>, BlockSignatureError>)
        requires
            weights.wf(),
            forall|k: int| 0 <= k < group@.len() ==> group@[k] < self.signed_block_headers@.len(),
        ensures
            match r {
                Ok(hashes) => spec_check_group(
                    self.signed_block_headers@,
                    group@,
                    weights.entries@,
                    fraction,
                ) == Ok::<Seq<BlockHash>, SignatureFault>(hashes@) && hashes@.len() == group@.len(),
                Err(error) => spec_check_group(
                    self.signed_block_headers@,
                    group@,
                    weights.entries@,
                    fraction,
                ) == Err::<Seq<BlockHash>, SignatureFault>(error@),
            },
    {
        let ghost signed = self.signed_block_headers@;
        let ghost whole = spec_check_group(signed, group@, weights.entries@, fraction);
        let mut hashes: Vec<BlockHash> = Vec::new();
        let mut i: usize = 0;
        assert(group@.skip(0) =~= group@);
        while i < group.len()
            invariant
                i <= group@.len(),
                signed == self.signed_block_headers@,
                forall|k: int| 0 <= k < group@.len() ==> group@[k] < signed.len(),
                hashes@.len() == i,
                weights.wf(),
                whole == spec_check_group(signed, group@, weights.entries@, fraction),
                whole == match spec_check_group(
                    signed,
                    group@.skip(i as int),
                    weights.entries@,
                    fraction,
                ) {
                    Err(fault) => Err(fault),
                    Ok(rest) => Ok(hashes@ + rest),
                },
            decreases group@.len() - i,
        {
            assert(group@.skip(i as int)[0] == group@[i as int]);
            assert(group@.skip(i as int).skip(1) =~= group@.skip(i + 1));
            let signatures: &BlockSignatures = &self.signed_block_headers[group[i]].block_signatures;
            match check_sufficient_block_signatures(weights, fraction, Some(signatures)) {
                Err(error) => {
                    assert(spec_check_group(
                        signed,
                        group@.skip(i as int),
                        weights.entries@,
                        fraction,
                    ) == Err::<Seq<BlockHash>, SignatureFault>(error@));
                    return Err(error);
                },
                Ok(()) => {
                    let ghost before = hashes@;
                    hashes.push(signatures.block_hash);
                    proof {
                        match spec_check_group(
                            signed,
                            group@.skip(i + 1),
                            weights.entries@,
                            fraction,
                        ) {
                            Ok(rest) => {
                                assert(before + (seq![signatures.block_hash] + rest) =~= hashes@
                                    + rest);
                            },
                            Err(_) => {},
                        }
                    }
                },
            }
            i = i + 1;
        }
        assert(hashes@ + Seq::<BlockHash>::empty() =~= hashes@);
        Ok(hashes)
    }

    fn structure(&self, metadata: &SyncLeapValidationMetaData) -> (r: Result<
        (),
        SyncLeapValidationError,
    >)
        ensures
            match r {
                Ok(()) => spec_structure_fault(*self, *metadata) is None,
                Err(error) => spec_structure_fault(*self, *metadata) == Some(error@),
            },
    {
        let ancestors: &Vec<BlockHeader> = &self.trusted_ancestor_headers;
        if ancestors.len() == 0 && self.trusted_block_header.height() > 0 {
            return Err(SyncLeapValidationError::MissingTrustedAncestors);
        }
        let most: u64 = if metadata.recent_era_count == u64::MAX {
            u64::MAX
        } else {
            metadata.recent_era_count + 1
        };
        if self.signed_block_headers.len() as u64 > most {
            return Err(SyncLeapValidationError::TooManySwitchBlocks);
        }
        if unsorted(ancestors) {
            return Err(SyncLeapValidationError::TrustedAncestorsNotSorted);
        }
        if ancestors.len() > 0 {
            let last: &BlockHeader = &ancestors[ancestors.len() - 1];
            if !last.is_switch_block() && !last.is_genesis() {
                return Err(SyncLeapValidationError::MissingAncestorSwitchBlock);
            }
        }
        if switch_before_last(ancestors) {
            return Err(SyncLeapValidationError::UnexpectedAncestorSwitchBlock);
        }
        if self.trusted_ancestor_only && self.signed_block_headers.len() > 0 {
            return Err(SyncLeapValidationError::UnexpectedSignedBlockHeaders);
        }
        Ok(())
    }

    fn first_mismatch(&self) -> (r: Option<BlockHeaderWithMetadataValidationError>)
        ensures
            r == spec_first_mismatch(self.signed_block_headers@),
    {
        let ghost signed = self.signed_block_headers@;
        let mut i: usize = 0;
        assert(signed.skip(0) =~= signed);
        while i < self.signed_block_headers.len()
            invariant
                i <= signed.len(),
                signed == self.signed_block_headers@,
                spec_first_mismatch(signed) == spec_first_mismatch(signed.skip(i as int)),
            decreases signed.len() - i,
        {
            assert(signed.skip(i as int)[0] == signed[i as int]);
            assert(signed.skip(i as int).skip(1) =~= signed.skip(i + 1));
            match self.signed_block_headers[i].validate() {
                Err(error) => {
                    return Some(error);
                },
                Ok(()) => {},
            }
            i = i + 1;
        }
        None
    }

    fn walk_step(
        &self,
        metadata: &SyncLeapValidationMetaData,
        remaining: &mut Vec<usize>,
        signatures: &mut Vec<usize>,
        stack: &mut Vec<BlockHash>,
    ) -> (r: Result<(), BlockSignatureError>)
        requires
            self.spec_header_count() <= usize::MAX,
            self.wf(),
            metadata.wf(),
            old(stack)@.len() > 0,
            forall|k: int|
                0 <= k < old(remaining)@.len() ==> old(remaining)@[k] < self.spec_headers().len(),
            forall|k: int|
                0 <= k < old(signatures)@.len() ==> old(signatures)@[k]
                    < self.signed_block_headers@.len(),
        ensures
            match r {
                Ok(()) => {
                    &&& spec_walk(
                        self.spec_headers(),
                        self.signed_block_headers@,
                        *metadata,
                        old(remaining)@,
                        old(signatures)@,
                        old(stack)@,
                    ) == spec_walk(
                        self.spec_headers(),
                        self.signed_block_headers@,
                        *metadata,
                        final(remaining)@,
                        final(signatures)@,
                        final(stack)@,
                    )
                    &&& 2 * final(remaining)@.len() + final(signatures)@.len() + final(stack)@.len()
                        < 2 * old(remaining)@.len() + old(signatures)@.len() + old(stack)@.len()
                    &&& forall|k: int|
                        0 <= k < final(remaining)@.len() ==> final(remaining)@[k]
                            < self.spec_headers().len()
                    &&& forall|k: int|
                        0 <= k < final(signatures)@.len() ==> final(signatures)@[k]
                            < self.signed_block_headers@.len()
                },
                Err(error) => spec_walk(
                    self.spec_headers(),
                    self.signed_block_headers@,
                    *metadata,
                    old(remaining)@,
                    old(signatures)@,
                    old(stack)@,
                ) == Err::<(Seq<usize>, Seq<usize>), SignatureFault>(error@),
            },
    {
        let ghost all = self.spec_headers();
        let ghost signed = self.signed_block_headers@;
        let ghost before = stack@;
        let hash: BlockHash = stack.pop().unwrap();
        assert(stack@ == before.drop_last());
        assert(hash == before.last());
        match self.find(remaining, &hash) {
            None => Ok(()),
            Some(place) => {
                let at: usize = remaining[place];
                let header: &BlockHeader = self.header_at(at);
                let ghost held = remaining@;
                remaining.remove(place);
                assert(remaining@ == held.remove(place as int));
                assert forall|k: int| 0 <= k < remaining@.len() implies remaining@[k]
                    < all.len() by {
                    if k < place {
                        assert(remaining@[k] == held[k]);
                    } else {
                        assert(remaining@[k] == held[k + 1]);
                    }
                }
                stack.push(header.parent_hash);
                let era: EraId = header.next_block_era_id();
                match trusted_weights(header, metadata) {
                    None => Ok(()),
                    Some(weights) => {
                        let (group, others) = self.split_era(signatures, era);
                        if group.len() > 0 {
                            match self.check_group(
                                &group,
                                weights,
                                metadata.finality_threshold_fraction,
                            ) {
                                Err(error) => Err(error),
                                Ok(hashes) => {
                                    let mut hashes = hashes;
                                    *signatures = others;
                                    stack.append(&mut hashes);
                                    Ok(())
                                },
                            }
                        } else {
                            Ok(())
                        }
                    },
                }
            },
        }
    }

    /// Checks all of the sync leap but the cryptographic validity of its signatures.
    pub fn validate_proof(&self, metadata: &SyncLeapValidationMetaData) -> (r: Result<
        (),
        SyncLeapValidationError,
    >)
        requires
            self.spec_header_count() <= usize::MAX,
            self.wf(),
            metadata.wf(),
        ensures
            match r {
                Ok(()) => spec_proof_fault(*self, *metadata) is None,
                Err(error) => spec_proof_fault(*self, *metadata) == Some(error@),
            },
    {
        match self.structure(metadata) {
            Err(error) => {
                return Err(error);
            },
            Ok(()) => {},
        }
        let ghost all = self.spec_headers();
        let ghost signed = self.signed_block_headers@;
        let mut remaining: Vec<usize> = self.kept();
        let mut signatures: Vec<usize> = Vec::new();
        let mut s: usize = 0;
        while s < self.signed_block_headers.len()
            invariant
                s <= signed.len(),
                signed == self.signed_block_headers@,
                signatures@ == spec_places(s as int),
            decreases signed.len() - s,
        {
            signatures.push(s);
            assert(signatures@ =~= spec_places(s + 1));
            s = s + 1;
        }
        let mut stack: Vec<BlockHash> = Vec::new();
        stack.push(self.trusted_block_header.block_hash());
        assert(stack@ =~= seq![self.trusted_block_header.block_hash]);
        let ghost whole = spec_walk(all, signed, *metadata, remaining@, signatures@, stack@);
        while stack.len() > 0
            invariant
                all == self.spec_headers(),
                signed == self.signed_block_headers@,
                self.spec_header_count() <= usize::MAX,
                self.wf(),
                metadata.wf(),
                forall|k: int| 0 <= k < remaining@.len() ==> remaining@[k] < all.len(),
                forall|k: int| 0 <= k < signatures@.len() ==> signatures@[k] < signed.len(),
                spec_structure_fault(*self, *metadata) is None,
                whole == spec_walk(
                    all,
                    signed,
                    *metadata,
                    spec_kept(all, all.len() as int),
                    spec_places(signed.len() as int),
                    seq![self.trusted_block_header.block_hash],
                ),
                whole == spec_walk(all, signed, *metadata, remaining@, signatures@, stack@),
            decreases 2 * remaining@.len() + signatures@.len() + stack@.len(),
        {
            match self.walk_step(metadata, &mut remaining, &mut signatures, &mut stack) {
                Err(error) => {
                    return Err(SyncLeapValidationError::HeadersNotSufficientlySigned(error));
                },
                Ok(()) => {},
            }
        }
        if remaining.len() > 0 || signatures.len() > 0 {
            return Err(SyncLeapValidationError::IncompleteProof);
        }
        match self.first_mismatch() {
            Some(error) => Err(SyncLeapValidationError::BlockWithMetadata(error)),
            None => Ok(()),
        }
    }

    /// Validates the sync leap: all that [`Self::validate_proof`] checks, and then, for each
    /// signed header in order, what `verify` finds of its signatures.
    ///
    /// The signatures are verified last, and none is verified where anything else is wrong.
    pub fn validate<F: Fn(&BlockSignatures) -> Result<(), CryptoError>>(
        &self,
        validation_metadata: &SyncLeapValidationMetaData,
        verify: F,
    ) -> (r: Result<(), SyncLeapValidationError>)
        requires
            self.spec_header_count() <= usize::MAX,
            self.wf(),
            validation_metadata.wf(),
            forall|signatures: &BlockSignatures| call_requires(verify, (signatures,)),
        ensures
            spec_proof_fault(*self, *validation_metadata) matches Some(fault) ==> r is Err
                && r->Err_0@ == fault,
            spec_proof_fault(*self, *validation_metadata) is None ==> match r {
                Ok(()) => forall|i: int|
                    0 <= i < self.signed_block_headers@.len() ==> call_ensures(
                        verify,
                        (&self.signed_block_headers@[i].block_signatures,),
                        Ok(()),
                    ),
                Err(SyncLeapValidationError::Crypto(error)) => exists|i: int|
                    {
                        &&& 0 <= i < self.signed_block_headers@.len()
                        &&& call_ensures(
                            verify,
                            (&self.signed_block_headers@[i].block_signatures,),
                            Err(error),
                        )
                        &&& forall|j: int|
                            0 <= j < i ==> call_ensures(
                                verify,
                                (&self.signed_block_headers@[j].block_signatures,),
                                Ok(()),
                            )
                    },
                Err(_) => false,
            },
    {
        match self.validate_proof(validation_metadata) {
            Err(error) => {
                return Err(error);
            },
            Ok(()) => {},
        }
        // defer cryptographic verification until last to avoid unnecessary computation
        let mut i: usize = 0;
        while i < self.signed_block_headers.len()
            invariant
                i <= self.signed_block_headers@.len(),
                spec_proof_fault(*self, *validation_metadata) is None,
                forall|signatures: &BlockSignatures| call_requires(verify, (signatures,)),
                forall|j: int|
                    0 <= j < i ==> call_ensures(
                        verify,
                        (&self.signed_block_headers@[j].block_signatures,),
                        Ok(()),
                    ),
            decreases self.signed_block_headers@.len() - i,
        {
            let signatures: &BlockSignatures = &self.signed_block_headers[i].block_signatures;
            let verdict: Result<(), CryptoError> = verify(signatures);
            assert(call_ensures(
                verify,
                (&self.signed_block_headers@[i as int].block_signatures,),
                verdict,
            ));
            match verdict {
                Err(error) => {
                    return Err(SyncLeapValidationError::Crypto(error));
                },
                Ok(done) => {
                    assert(verdict == Ok::<(), CryptoError>(()));
                },
            }
            i = i + 1;
        }
        Ok(())
    }
}

} // verus!
