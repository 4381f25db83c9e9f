//! The checksums that a block writes into global state: one over the approvals of its
//! transactions, one over its execution results.

use crate::bytesrepr::{
    spec_byte_string, spec_text, write_byte_string, write_bytes, write_length, write_text,
    write_u128, write_u32, write_u8, Error,
};
use crate::contract_runtime::artifact::{artifact_views, ArtifactView, ExecutionArtifact, Settlement};
use crate::contract_runtime::error::{
    ArtifactError, BlockExecutionError, InvalidTransaction, Operation,
};
use crate::contract_runtime::types::{
    Effects, Transaction, Transform, TransformKind, TransformView,
};
use crate::digest::{blake2b_256, spec_hash_into_chunks_if_necessary};
use crate::identity::{spec_key_bytes, InitiatorAddr, PublicKey};
use crate::primitives::Digest;
use vstd::bytes::{spec_u128_to_le_bytes, spec_u32_to_le_bytes, spec_u64_to_le_bytes};
use vstd::prelude::*;

verus! {

/// The byte that stands for the algorithm of a key.
pub open spec fn spec_key_tag(key: PublicKey) -> u8 {
    match key {
        PublicKey::System => 0,
        PublicKey::Ed25519(_) => 1,
        PublicKey::Secp256k1(_) => 2,
    }
}

/// The byte representation of a key: the byte of its algorithm, then its raw bytes.
pub open spec fn spec_key_repr(key: PublicKey) -> Seq<u8> {
    seq![spec_key_tag(key)] + spec_key_bytes(key)
}

/// Appends the byte representation of `key` to `out`.
pub fn write_key(out: &mut Vec<u8>, key: &PublicKey)
    ensures
        final(out)@ == old(out)@ + spec_key_repr(*key),
{
    match key {
        PublicKey::System => {
            write_u8(out, 0);
        },
        PublicKey::Ed25519(bytes) => {
            write_u8(out, 1);
            write_bytes(out, bytes.as_slice());
        },
        PublicKey::Secp256k1(bytes) => {
            write_u8(out, 2);
            write_bytes(out, bytes.as_slice());
        },
    }
    assert(out@ =~= old(out)@ + spec_key_repr(*key));
}

/// The byte representation of an initiator.
pub open spec fn spec_initiator_repr(initiator: InitiatorAddr) -> Seq<u8> {
    match initiator {
        InitiatorAddr::PublicKey(key) => seq![0u8] + spec_key_repr(key),
        InitiatorAddr::AccountHash(hash) => seq![1u8] + hash.0@,
    }
}

/// Appends the byte representation of `initiator` to `out`.
pub fn write_initiator(out: &mut Vec<u8>, initiator: &InitiatorAddr)
    ensures
        final(out)@ == old(out)@ + spec_initiator_repr(*initiator),
{
    match initiator {
        InitiatorAddr::PublicKey(key) => {
            write_u8(out, 0);
            write_key(out, key);
        },
        InitiatorAddr::AccountHash(hash) => {
            write_u8(out, 1);
            write_bytes(out, hash.0.as_slice());
        },
    }
    assert(out@ =~= old(out)@ + spec_initiator_repr(*initiator));
}

/// Whether the lengths within a change can be counted.
pub open spec fn spec_transform_countable(transform: TransformView) -> bool {
    transform.key.len() <= u64::MAX && transform.value.len() <= u64::MAX
}

/// Whether the length of the reason of `error`, where it has one, can be counted.
pub open spec fn spec_error_countable(error: Option<ArtifactError>) -> bool {
    match error {
        Some(ArtifactError::Failed { reason, .. }) => vstd::utf8::encode_utf8(reason@).len()
            <= u64::MAX,
        _ => true,
    }
}

/// Whether the lengths within an artifact can be counted: which holds of every artifact that
/// is held in memory, as whoever writes one finds.
pub open spec fn spec_countable(artifact: ArtifactView) -> bool {
    &&& artifact.effects.len() <= u64::MAX
    &&& forall|i: int|
        0 <= i < artifact.effects.len() ==> spec_transform_countable(#[trigger] artifact.effects[i])
    &&& spec_error_countable(artifact.error)
}

/// The byte that stands for an operation.
pub open spec fn spec_operation_tag(operation: Operation) -> u8 {
    match operation {
        Operation::SetRefundPurse => 0,
        Operation::InitialBalance => 1,
        Operation::PayerResolution => 2,
        Operation::Payment => 3,
        Operation::PenaltyTransfer => 4,
        Operation::ProcessingHold => 5,
        Operation::Transfer => 6,
        Operation::AuctionMethod => 7,
        Operation::Bidding => 8,
        Operation::SessionRequest => 9,
        Operation::Execution => 10,
        Operation::ClearHolds => 11,
        Operation::Refund => 12,
        Operation::GasHold => 13,
        Operation::Fee => 14,
        Operation::ClearRefundPurse => 15,
    }
}

/// The byte that stands for `operation`.
pub fn operation_tag(operation: Operation) -> (tag: u8)
    ensures
        tag == spec_operation_tag(operation),
{
    match operation {
        Operation::SetRefundPurse => 0,
        Operation::InitialBalance => 1,
        Operation::PayerResolution => 2,
        Operation::Payment => 3,
        Operation::PenaltyTransfer => 4,
        Operation::ProcessingHold => 5,
        Operation::Transfer => 6,
        Operation::AuctionMethod => 7,
        Operation::Bidding => 8,
        Operation::SessionRequest => 9,
        Operation::Execution => 10,
        Operation::ClearHolds => 11,
        Operation::Refund => 12,
        Operation::GasHold => 13,
        Operation::Fee => 14,
        Operation::ClearRefundPurse => 15,
    }
}

/// The byte that stands for a reason of invalidity.
pub open spec fn spec_invalid_tag(reason: InvalidTransaction) -> u8 {
    match reason {
        InvalidTransaction::PricingModeNotSupported => 0,
        InvalidTransaction::EntryPointCannotBeCall => 1,
        InvalidTransaction::NoNativeCost => 2,
        InvalidTransaction::NoLaneMatch => 3,
        InvalidTransaction::UnableToCalculateGasCost => 4,
    }
}

/// The byte that stands for `reason`.
pub fn invalid_tag(reason: InvalidTransaction) -> (tag: u8)
    ensures
        tag == spec_invalid_tag(reason),
{
    match reason {
        InvalidTransaction::PricingModeNotSupported => 0,
        InvalidTransaction::EntryPointCannotBeCall => 1,
        InvalidTransaction::NoNativeCost => 2,
        InvalidTransaction::NoLaneMatch => 3,
        InvalidTransaction::UnableToCalculateGasCost => 4,
    }
}

/// The byte representation of the error of an artifact.
pub open spec fn spec_error_repr(error: Option<ArtifactError>) -> Seq<u8> {
    match error {
        None => seq![0u8],
        Some(ArtifactError::InvalidTransaction(reason)) => seq![1u8, 0u8, spec_invalid_tag(reason)],
        Some(ArtifactError::InsufficientBalance { available, required }) => seq![1u8, 1u8]
            + spec_u128_to_le_bytes(available.0) + spec_u128_to_le_bytes(required.0),
        Some(ArtifactError::Failed { operation, reason }) => seq![
            1u8,
            2u8,
            spec_operation_tag(operation),
        ] + spec_text(reason@),
    }
}

/// Appends the byte representation of `error` to `out`.
pub fn write_error(out: &mut Vec<u8>, error: &Option<ArtifactError>)
    ensures
        final(out)@ == old(out)@ + spec_error_repr(*error),
        spec_error_countable(*error),
{
    match error {
        None => {
            write_u8(out, 0);
        },
        Some(ArtifactError::InvalidTransaction(reason)) => {
            write_u8(out, 1);
            write_u8(out, 0);
            write_u8(out, invalid_tag(*reason));
        },
        Some(ArtifactError::InsufficientBalance { available, required }) => {
            write_u8(out, 1);
            write_u8(out, 1);
            write_u128(out, available.0);
            write_u128(out, required.0);
        },
        Some(ArtifactError::Failed { operation, reason }) => {
            write_u8(out, 1);
            write_u8(out, 2);
            write_u8(out, operation_tag(*operation));
            write_text(out, reason);
        },
    }
    assert(out@ =~= old(out)@ + spec_error_repr(*error));
}

/// The byte representation of how a cost was settled: what was settled, the refund, the fee.
pub open spec fn spec_settlement_repr(settlement: Option<Settlement>) -> Seq<u8> {
    match settlement {
        None => seq![0u8],
        Some(settlement) => seq![1u8] + spec_u128_to_le_bytes(settlement.cost.0)
            + spec_u128_to_le_bytes(settlement.refund.0) + spec_u128_to_le_bytes(
            settlement.fee.0,
        ),
    }
}

/// Appends the byte representation of `settlement` to `out`.
pub fn write_settlement(out: &mut Vec<u8>, settlement: &Option<Settlement>)
    ensures
        final(out)@ == old(out)@ + spec_settlement_repr(*settlement),
{
    match settlement {
        None => {
            write_u8(out, 0);
        },
        Some(settlement) => {
            write_u8(out, 1);
            write_u128(out, settlement.cost.0);
            write_u128(out, settlement.refund.0);
            write_u128(out, settlement.fee.0);
        },
    }
    assert(out@ =~= old(out)@ + spec_settlement_repr(*settlement));
}

/// The byte that stands for a kind of change.
pub open spec fn spec_kind_tag(kind: TransformKind) -> u8 {
    match kind {
        TransformKind::Identity => 0,
        TransformKind::Write => 1,
        TransformKind::Add => 2,
    }
}

/// The byte representation of one change: its key, the byte of its kind, its value.
pub open spec fn spec_transform_repr(transform: TransformView) -> Seq<u8> {
    spec_byte_string(transform.key) + seq![spec_kind_tag(transform.kind)] + spec_byte_string(
        transform.value,
    )
}

/// Appends the byte representation of `transform` to `out`.
pub fn write_transform(out: &mut Vec<u8>, transform: &Transform)
    ensures
        final(out)@ == old(out)@ + spec_transform_repr(transform@),
        spec_transform_countable(transform@),
{
    write_byte_string(out, transform.key.as_slice());
    let tag: u8 = match transform.kind {
        TransformKind::Identity => 0,
        TransformKind::Write => 1,
        TransformKind::Add => 2,
    };
    write_u8(out, tag);
    write_byte_string(out, transform.value.as_slice());
    assert(out@ =~= old(out)@ + spec_transform_repr(transform@));
    assert(spec_transform_countable(transform@)) by {
        vstd::std_specs::vec::axiom_spec_len(&transform.key);
        vstd::std_specs::vec::axiom_spec_len(&transform.value);
    }
}

/// The byte representations of `transforms`, one after the other.
pub open spec fn spec_transforms_repr(transforms: Seq<TransformView>) -> Seq<u8>
    decreases transforms.len(),
{
    if transforms.len() == 0 {
        Seq::empty()
    } else {
        spec_transforms_repr(transforms.drop_last()) + spec_transform_repr(transforms.last())
    }
}

/// The byte representation of effects: their number, then each.
pub open spec fn spec_effects_repr(transforms: Seq<TransformView>) -> Seq<u8> {
    spec_u64_to_le_bytes(transforms.len() as u64) + spec_transforms_repr(transforms)
}

/// Appends the byte representation of `effects` to `out`.
pub fn write_effects(out: &mut Vec<u8>, effects: &Effects)
    ensures
        final(out)@ == old(out)@ + spec_effects_repr(effects@),
        effects@.len() <= u64::MAX,
        forall|i: int| 0 <= i < effects@.len() ==> spec_transform_countable(#[trigger] effects@[i]),
{
    let n: usize = effects.transforms.len();
    write_length(out, n);
    let ghost base = out@;
    let mut i: usize = 0;
    while i < n
        invariant
            n == effects@.len(),
            i <= n,
            out@ == base + spec_transforms_repr(effects@.take(i as int)),
            forall|k: int| 0 <= k < i ==> spec_transform_countable(#[trigger] effects@[k]),
        decreases n - i,
    {
        write_transform(out, &effects.transforms[i]);
        proof {
            let next = effects@.take(i + 1);
            assert(next.drop_last() =~= effects@.take(i as int));
            assert(next.last() == effects.transforms@[i as int]@);
            assert(effects@[i as int] == effects.transforms@[i as int]@);
            assert(out@ =~= base + spec_transforms_repr(next));
        }
        i = i + 1;
    }
    assert(effects@.take(n as int) =~= effects@);
    assert(out@ =~= old(out)@ + spec_effects_repr(effects@));
}

/// The byte representation of the result of one transaction: who initiated it, the error, the
/// gas limit, the gas consumed, the cost, how it was settled, and the effects.
pub open spec fn spec_result_repr(artifact: ArtifactView) -> Seq<u8> {
    spec_initiator_repr(artifact.initiator) + spec_error_repr(artifact.error)
        + spec_u128_to_le_bytes(artifact.gas_limit.0) + spec_u128_to_le_bytes(artifact.consumed.0)
        + spec_u128_to_le_bytes(artifact.cost.0) + spec_settlement_repr(artifact.settlement)
        + spec_effects_repr(artifact.effects)
}

/// Appends the byte representation of the result of `artifact` to `out`.
pub fn write_result(out: &mut Vec<u8>, artifact: &ExecutionArtifact)
    ensures
        final(out)@ == old(out)@ + spec_result_repr(artifact@),
        spec_countable(artifact@),
{
    write_initiator(out, &artifact.initiator);
    write_error(out, &artifact.error);
    write_u128(out, artifact.gas_limit.0);
    write_u128(out, artifact.consumed.0);
    write_u128(out, artifact.cost.0);
    write_settlement(out, &artifact.settlement);
    write_effects(out, &artifact.effects);
    assert(out@ =~= old(out)@ + spec_result_repr(artifact@));
}

/// The byte representations of the results of `artifacts`, one after the other.
pub open spec fn spec_results_repr(artifacts: Seq<ArtifactView>) -> Seq<u8>
    decreases artifacts.len(),
{
    if artifacts.len() == 0 {
        Seq::empty()
    } else {
        spec_results_repr(artifacts.drop_last()) + spec_result_repr(artifacts.last())
    }
}

/// The execution results of a block as bytes: their number as a little-endian `u32`, then
/// each in order.
pub open spec fn spec_serialized_results(artifacts: Seq<ArtifactView>) -> Seq<u8> {
    spec_u32_to_le_bytes(artifacts.len() as u32) + spec_results_repr(artifacts)
}

/// The checksum of the execution results: the digest of their bytes, chunked where they are
/// many.
pub open spec fn spec_execution_results_checksum(artifacts: Seq<ArtifactView>) -> Seq<u8> {
    spec_hash_into_chunks_if_necessary(spec_serialized_results(artifacts))
}

/// The execution results of `artifacts` as bytes.
pub fn serialize_results(artifacts: &Vec<ExecutionArtifact>) -> (bytes: Vec<u8>)
    requires
        artifacts@.len() <= u32::MAX,
    ensures
        bytes@ == spec_serialized_results(artifact_views(artifacts@)),
        forall|i: int|
            0 <= i < artifacts@.len() ==> spec_countable(#[trigger] artifact_views(artifacts@)[i]),
{
    let n: usize = artifacts.len();
    let mut out: Vec<u8> = Vec::new();
    write_u32(&mut out, n as u32);
    let ghost base = out@;
    let ghost views = artifact_views(artifacts@);
    let mut i: usize = 0;
    while i < n
        invariant
            n == artifacts@.len(),
            views == artifact_views(artifacts@),
            i <= n,
            out@ == base + spec_results_repr(views.take(i as int)),
            forall|k: int| 0 <= k < i ==> spec_countable(#[trigger] views[k]),
        decreases n - i,
    {
        write_result(&mut out, &artifacts[i]);
        proof {
            let next = views.take(i + 1);
            assert(next.drop_last() =~= views.take(i as int));
            assert(next.last() == artifacts@[i as int]@);
            assert(views[i as int] == artifacts@[i as int]@);
            assert(out@ =~= base + spec_results_repr(next));
        }
        i = i + 1;
    }
    assert(views.take(n as int) =~= views);
    assert(out@ =~= spec_serialized_results(views));
    out
}

/// Computes the checksum of the given execution results.
///
/// This is the digest of the serialized results where they fit one chunk, else the Merkle root
/// over the digests of their chunks. It fails only where the results are too many to count.
/// The lengths within the results that it takes can all be counted, so that different lists of
/// results have different bytes hashed.
pub fn compute_execution_results_checksum(artifacts: &Vec<ExecutionArtifact>) -> (r: Result<
    Digest,
    BlockExecutionError,
>)
    ensures
        artifacts@.len() <= u32::MAX ==> r is Ok && r->Ok_0@ == spec_execution_results_checksum(
            artifact_views(artifacts@),
        ),
        artifacts@.len() <= u32::MAX ==> forall|i: int|
            0 <= i < artifacts@.len() ==> spec_countable(#[trigger] artifact_views(artifacts@)[i]),
        artifacts@.len() > u32::MAX ==> r == Err::<Digest, BlockExecutionError>(
            BlockExecutionError::FailedToComputeApprovalsChecksum(Error::NotRepresentable),
        ),
{
    if artifacts.len() > u32::MAX as usize {
        return Err(BlockExecutionError::FailedToComputeApprovalsChecksum(Error::NotRepresentable));
    }
    let serialized: Vec<u8> = serialize_results(artifacts);
    Ok(Digest::hash_into_chunks_if_necessary(serialized.as_slice()))
}

/// What identifies each of `transactions`, one after the other: its hash, then the hash of its
/// approvals.
pub open spec fn spec_ids_repr(transactions: Seq<Transaction>) -> Seq<u8>
    decreases transactions.len(),
{
    if transactions.len() == 0 {
        Seq::empty()
    } else {
        spec_ids_repr(transactions.drop_last()) + transactions.last().hash.0@
            + transactions.last().approvals_hash@
    }
}

/// The checksum of the approvals of `transactions`: the digest of their number, as a
/// little-endian `u32`, and what identifies each.
pub open spec fn spec_approvals_checksum(transactions: Seq<Transaction>) -> Seq<u8> {
    blake2b_256(spec_u32_to_le_bytes(transactions.len() as u32) + spec_ids_repr(transactions))
}

/// Computes the checksum of the approvals of `transactions`; fails only where they are too
/// many to count.
pub fn compute_approvals_checksum(transactions: &Vec<Transaction>) -> (r: Result<Digest, Error>)
    ensures
        transactions@.len() <= u32::MAX ==> r is Ok && r->Ok_0@ == spec_approvals_checksum(
            transactions@,
        ),
        transactions@.len() > u32::MAX ==> r == Err::<Digest, Error>(Error::NotRepresentable),
{
    let n: usize = transactions.len();
    if n > u32::MAX as usize {
        return Err(Error::NotRepresentable);
    }
    let mut out: Vec<u8> = Vec::new();
    write_u32(&mut out, n as u32);
    let ghost base = out@;
    let mut i: usize = 0;
    while i < n
        invariant
            n == transactions@.len(),
            i <= n,
            out@ == base + spec_ids_repr(transactions@.take(i as int)),
        decreases n - i,
    {
        write_bytes(&mut out, transactions[i].hash.0.bytes.as_slice());
        write_bytes(&mut out, transactions[i].approvals_hash.bytes.as_slice());
        proof {
            let next = transactions@.take(i + 1);
            assert(next.drop_last() =~= transactions@.take(i as int));
            assert(next.last() == transactions@[i as int]);
            assert(out@ =~= base + spec_ids_repr(next));
        }
        i = i + 1;
    }
    assert(transactions@.take(n as int) =~= transactions@);
    Ok(Digest::hash(out.as_slice()))
}

/// The hashes of the approvals of `transactions`, in order.
pub fn approvals_hashes(transactions: &Vec<Transaction>) -> (hashes: Vec<Digest>)
    ensures
        hashes@.len() == transactions@.len(),
        forall|i: int| 0 <= i < hashes@.len() ==> hashes@[i] == transactions@[i].approvals_hash,
{
    let mut hashes: Vec<Digest> = Vec::new();
    let mut i: usize = 0;
    while i < transactions.len()
        invariant
            i <= transactions@.len(),
            hashes@.len() == i,
            forall|j: int| 0 <= j < i ==> hashes@[j] == transactions@[j].approvals_hash,
        decreases transactions@.len() - i,
    {
        hashes.push(transactions[i].approvals_hash);
        i = i + 1;
    }
    hashes
}

/// The name under which the checksum of the approvals is registered, as bytes.
pub open spec fn spec_approvals_checksum_name() -> Seq<u8> {
    seq![
        97u8, 112u8, 112u8, 114u8, 111u8, 118u8, 97u8, 108u8, 115u8, 95u8, 99u8, 104u8, 101u8,
        99u8, 107u8, 115u8, 117u8, 109u8,
    ]
}

/// The name under which the checksum of the execution results is registered, as bytes.
pub open spec fn spec_execution_results_checksum_name() -> Seq<u8> {
    seq![
        101u8, 120u8, 101u8, 99u8, 117u8, 116u8, 105u8, 111u8, 110u8, 95u8, 114u8, 101u8, 115u8,
        117u8, 108u8, 116u8, 115u8, 95u8, 99u8, 104u8, 101u8, 99u8, 107u8, 115u8, 117u8, 109u8,
    ]
}

/// The key of the checksum registry in global state.
pub open spec fn spec_checksum_registry_key() -> Seq<u8> {
    seq![23u8]
}

/// The checksum registry as bytes: the number of its entries, then each name with its
/// checksum, in the order of the names.
pub open spec fn spec_registry_repr(approvals: Seq<u8>, results: Seq<u8>) -> Seq<u8> {
    spec_u32_to_le_bytes(2) + spec_byte_string(spec_approvals_checksum_name()) + approvals
        + spec_byte_string(spec_execution_results_checksum_name()) + results
}

/// The single effect that writes the checksum registry holding the two checksums.
pub open spec fn spec_checksum_registry_effects(approvals: Seq<u8>, results: Seq<u8>) -> Seq<
    TransformView,
> {
    seq![
        TransformView {
            key: spec_checksum_registry_key(),
            kind: TransformKind::Write,
            value: spec_registry_repr(approvals, results),
        },
    ]
}

/// The single effect that writes the checksum registry holding the two checksums.
pub fn checksum_registry_effects(approvals: &Digest, results: &Digest) -> (effects: Effects)
    ensures
        effects@ == spec_checksum_registry_effects(approvals@, results@),
{
    let approvals_name: [u8; 18] = [
        97u8, 112u8, 112u8, 114u8, 111u8, 118u8, 97u8, 108u8, 115u8, 95u8, 99u8, 104u8, 101u8,
        99u8, 107u8, 115u8, 117u8, 109u8,
    ];
    let results_name: [u8; 26] = [
        101u8, 120u8, 101u8, 99u8, 117u8, 116u8, 105u8, 111u8, 110u8, 95u8, 114u8, 101u8, 115u8,
        117u8, 108u8, 116u8, 115u8, 95u8, 99u8, 104u8, 101u8, 99u8, 107u8, 115u8, 117u8, 109u8,
    ];
    assert(approvals_name@ =~= spec_approvals_checksum_name());
    assert(results_name@ =~= spec_execution_results_checksum_name());
    let mut value: Vec<u8> = Vec::new();
    write_u32(&mut value, 2);
    write_byte_string(&mut value, approvals_name.as_slice());
    write_bytes(&mut value, approvals.bytes.as_slice());
    write_byte_string(&mut value, results_name.as_slice());
    write_bytes(&mut value, results.bytes.as_slice());
    assert(value@ =~= spec_registry_repr(approvals@, results@));
    let mut key: Vec<u8> = Vec::new();
    key.push(23u8);
    assert(key@ =~= spec_checksum_registry_key());
    let mut transforms: Vec<Transform> = Vec::new();
    transforms.push(Transform { key, kind: TransformKind::Write, value });
    let effects = Effects { transforms };
    assert(effects@ =~= spec_checksum_registry_effects(approvals@, results@));
    effects
}

/// The checksum of the execution results depends on nothing but the results and their order.
pub proof fn lemma_checksum_is_a_function_of_the_results(
    first: Seq<ArtifactView>,
    second: Seq<ArtifactView>,
)
    requires
        first == second,
    ensures
        spec_serialized_results(first) == spec_serialized_results(second),
        spec_execution_results_checksum(first) == spec_execution_results_checksum(second),
{
}

} // verus!
