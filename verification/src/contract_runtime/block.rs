//! The hash of the block that execution produces.
//!
//! A block is named by the digest of its header. The header holds the fixed fields of the
//! block, the digest of its body (the transactions by lane and the rewarded signatures) and,
//! on the last block of an era, the digest of the data at the end of the era.

use crate::bytesrepr::{
    spec_byte_string, write_byte_string, write_bytes, write_length, write_u128, write_u32,
    write_u64, write_u8,
};
use crate::contract_runtime::checksum::{spec_key_repr, write_key};
use crate::contract_runtime::types::{
    Block, EraEnd, Rewards, RewardedSignatures, TransactionMap, ValidatorWeights,
};
use crate::digest::blake2b_256;
use crate::identity::PublicKey;
use crate::primitives::{
    BlockHash, Digest, EraId, Motes, ProtocolVersion, Timestamp, TransactionHash,
};
use vstd::bytes::{spec_u128_to_le_bytes, spec_u32_to_le_bytes, spec_u64_to_le_bytes};
use vstd::prelude::*;

verus! {

/// The byte representations of `keys`, one after the other.
pub open spec fn spec_keys_items(keys: Seq<PublicKey>) -> Seq<u8>
    decreases keys.len(),
{
    if keys.len() == 0 {
        Seq::empty()
    } else {
        spec_keys_items(keys.drop_last()) + spec_key_repr(keys.last())
    }
}

/// The byte representation of a list of keys: their number, then each.
pub open spec fn spec_keys_repr(keys: Seq<PublicKey>) -> Seq<u8> {
    spec_u64_to_le_bytes(keys.len() as u64) + spec_keys_items(keys)
}

fn write_keys(out: &mut Vec<u8>, keys: &Vec<PublicKey>)
    ensures
        final(out)@ == old(out)@ + spec_keys_repr(keys@),
{
    let n: usize = keys.len();
    write_length(out, n);
    let ghost base = out@;
    let mut i: usize = 0;
    while i < n
        invariant
            n == keys@.len(),
            i <= n,
            out@ == base + spec_keys_items(keys@.take(i as int)),
        decreases n - i,
    {
        write_key(out, &keys[i]);
        proof {
            let next = keys@.take(i + 1);
            assert(next.drop_last() =~= keys@.take(i as int));
            assert(out@ =~= base + spec_keys_items(next));
        }
        i = i + 1;
    }
    assert(keys@.take(n as int) =~= keys@);
    assert(out@ =~= old(out)@ + spec_keys_repr(keys@));
}

/// The byte representations of weights, one after the other: each a key and an amount.
pub open spec fn spec_weights_items(entries: Seq<(PublicKey, Motes)>) -> Seq<u8>
    decreases entries.len(),
{
    if entries.len() == 0 {
        Seq::empty()
    } else {
        spec_weights_items(entries.drop_last()) + spec_key_repr(entries.last().0)
            + spec_u128_to_le_bytes(entries.last().1.0)
    }
}

/// The byte representation of the weights of validators: their number, then each.
pub open spec fn spec_weights_repr(entries: Seq<(PublicKey, Motes)>) -> Seq<u8> {
    spec_u64_to_le_bytes(entries.len() as u64) + spec_weights_items(entries)
}

fn write_weights(out: &mut Vec<u8>, weights: &ValidatorWeights)
    ensures
        final(out)@ == old(out)@ + spec_weights_repr(weights.entries@),
{
    let n: usize = weights.entries.len();
    write_length(out, n);
    let ghost base = out@;
    let mut i: usize = 0;
    while i < n
        invariant
            n == weights.entries@.len(),
            i <= n,
            out@ == base + spec_weights_items(weights.entries@.take(i as int)),
        decreases n - i,
    {
        write_key(out, &weights.entries[i].0);
        write_u128(out, weights.entries[i].1.0);
        proof {
            let next = weights.entries@.take(i + 1);
            assert(next.drop_last() =~= weights.entries@.take(i as int));
            assert(out@ =~= base + spec_weights_items(next));
        }
        i = i + 1;
    }
    assert(weights.entries@.take(n as int) =~= weights.entries@);
    assert(out@ =~= old(out)@ + spec_weights_repr(weights.entries@));
}

/// The byte representations of `amounts`, one after the other.
pub open spec fn spec_amounts_items(amounts: Seq<Motes>) -> Seq<u8>
    decreases amounts.len(),
{
    if amounts.len() == 0 {
        Seq::empty()
    } else {
        spec_amounts_items(amounts.drop_last()) + spec_u128_to_le_bytes(amounts.last().0)
    }
}

/// The byte representation of a list of amounts: their number, then each.
pub open spec fn spec_amounts_repr(amounts: Seq<Motes>) -> Seq<u8> {
    spec_u64_to_le_bytes(amounts.len() as u64) + spec_amounts_items(amounts)
}

fn write_amounts(out: &mut Vec<u8>, amounts: &Vec<Motes>)
    ensures
        final(out)@ == old(out)@ + spec_amounts_repr(amounts@),
{
    let n: usize = amounts.len();
    write_length(out, n);
    let ghost base = out@;
    let mut i: usize = 0;
    while i < n
        invariant
            n == amounts@.len(),
            i <= n,
            out@ == base + spec_amounts_items(amounts@.take(i as int)),
        decreases n - i,
    {
        write_u128(out, amounts[i].0);
        proof {
            let next = amounts@.take(i + 1);
            assert(next.drop_last() =~= amounts@.take(i as int));
            assert(out@ =~= base + spec_amounts_items(next));
        }
        i = i + 1;
    }
    assert(amounts@.take(n as int) =~= amounts@);
    assert(out@ =~= old(out)@ + spec_amounts_repr(amounts@));
}

/// The byte representations of rewards, one after the other: each a key and its amounts.
pub open spec fn spec_rewards_items(entries: Seq<(PublicKey, Vec<Motes>)>) -> Seq<u8>
    decreases entries.len(),
{
    if entries.len() == 0 {
        Seq::empty()
    } else {
        spec_rewards_items(entries.drop_last()) + spec_key_repr(entries.last().0)
            + spec_amounts_repr(entries.last().1@)
    }
}

/// The byte representation of rewards: their number, then each.
pub open spec fn spec_rewards_repr(entries: Seq<(PublicKey, Vec<Motes>)>) -> Seq<u8> {
    spec_u64_to_le_bytes(entries.len() as u64) + spec_rewards_items(entries)
}

fn write_rewards(out: &mut Vec<u8>, rewards: &Rewards)
    ensures
        final(out)@ == old(out)@ + spec_rewards_repr(rewards.entries@),
{
    let n: usize = rewards.entries.len();
    write_length(out, n);
    let ghost base = out@;
    let mut i: usize = 0;
    while i < n
        invariant
            n == rewards.entries@.len(),
            i <= n,
            out@ == base + spec_rewards_items(rewards.entries@.take(i as int)),
        decreases n - i,
    {
        write_key(out, &rewards.entries[i].0);
        write_amounts(out, &rewards.entries[i].1);
        proof {
            let next = rewards.entries@.take(i + 1);
            assert(next.drop_last() =~= rewards.entries@.take(i as int));
            assert(out@ =~= base + spec_rewards_items(next));
        }
        i = i + 1;
    }
    assert(rewards.entries@.take(n as int) =~= rewards.entries@);
    assert(out@ =~= old(out)@ + spec_rewards_repr(rewards.entries@));
}

/// The byte representation of the data at the end of an era: the equivocators, the inactive
/// validators, the weights of the next era's validators, the rewards, the next era's gas price.
pub open spec fn spec_era_end_repr(era_end: EraEnd) -> Seq<u8> {
    spec_keys_repr(era_end.equivocators@) + spec_keys_repr(era_end.inactive_validators@)
        + spec_weights_repr(era_end.next_era_validator_weights.entries@) + spec_rewards_repr(
        era_end.rewards.entries@,
    ) + seq![era_end.next_era_gas_price]
}

fn write_era_end(out: &mut Vec<u8>, era_end: &EraEnd)
    ensures
        final(out)@ == old(out)@ + spec_era_end_repr(*era_end),
{
    write_keys(out, &era_end.equivocators);
    write_keys(out, &era_end.inactive_validators);
    write_weights(out, &era_end.next_era_validator_weights);
    write_rewards(out, &era_end.rewards);
    write_u8(out, era_end.next_era_gas_price);
    assert(out@ =~= old(out)@ + spec_era_end_repr(*era_end));
}

/// The bytes of `hashes`, one after the other.
pub open spec fn spec_hashes_items(hashes: Seq<TransactionHash>) -> Seq<u8>
    decreases hashes.len(),
{
    if hashes.len() == 0 {
        Seq::empty()
    } else {
        spec_hashes_items(hashes.drop_last()) + hashes.last().0@
    }
}

/// The byte representation of a list of transaction hashes: their number, then each.
pub open spec fn spec_hashes_repr(hashes: Seq<TransactionHash>) -> Seq<u8> {
    spec_u64_to_le_bytes(hashes.len() as u64) + spec_hashes_items(hashes)
}

fn write_hashes(out: &mut Vec<u8>, hashes: &Vec<TransactionHash>)
    ensures
        final(out)@ == old(out)@ + spec_hashes_repr(hashes@),
{
    let n: usize = hashes.len();
    write_length(out, n);
    let ghost base = out@;
    let mut i: usize = 0;
    while i < n
        invariant
            n == hashes@.len(),
            i <= n,
            out@ == base + spec_hashes_items(hashes@.take(i as int)),
        decreases n - i,
    {
        write_bytes(out, hashes[i].0.bytes.as_slice());
        proof {
            let next = hashes@.take(i + 1);
            assert(next.drop_last() =~= hashes@.take(i as int));
            assert(out@ =~= base + spec_hashes_items(next));
        }
        i = i + 1;
    }
    assert(hashes@.take(n as int) =~= hashes@);
    assert(out@ =~= old(out)@ + spec_hashes_repr(hashes@));
}

/// The byte representations of lanes, one after the other: each its id and its hashes.
pub open spec fn spec_lanes_items(lanes: Seq<(u8, Vec<TransactionHash>)>) -> Seq<u8>
    decreases lanes.len(),
{
    if lanes.len() == 0 {
        Seq::empty()
    } else {
        spec_lanes_items(lanes.drop_last()) + seq![lanes.last().0] + spec_hashes_repr(
            lanes.last().1@,
        )
    }
}

/// The byte representation of the transactions by lane: the number of lanes, then each.
pub open spec fn spec_transaction_map_repr(lanes: Seq<(u8, Vec<TransactionHash>)>) -> Seq<u8> {
    spec_u64_to_le_bytes(lanes.len() as u64) + spec_lanes_items(lanes)
}

fn write_transaction_map(out: &mut Vec<u8>, map: &TransactionMap)
    ensures
        final(out)@ == old(out)@ + spec_transaction_map_repr(map.lanes@),
{
    let n: usize = map.lanes.len();
    write_length(out, n);
    let ghost base = out@;
    let mut i: usize = 0;
    while i < n
        invariant
            n == map.lanes@.len(),
            i <= n,
            out@ == base + spec_lanes_items(map.lanes@.take(i as int)),
        decreases n - i,
    {
        write_u8(out, map.lanes[i].0);
        write_hashes(out, &map.lanes[i].1);
        proof {
            let next = map.lanes@.take(i + 1);
            assert(next.drop_last() =~= map.lanes@.take(i as int));
            assert(out@ =~= base + spec_lanes_items(next));
        }
        i = i + 1;
    }
    assert(map.lanes@.take(n as int) =~= map.lanes@);
    assert(out@ =~= old(out)@ + spec_transaction_map_repr(map.lanes@));
}

/// The byte representations of bit fields, one after the other.
pub open spec fn spec_fields_items(fields: Seq<Vec<u8>>) -> Seq<u8>
    decreases fields.len(),
{
    if fields.len() == 0 {
        Seq::empty()
    } else {
        spec_fields_items(fields.drop_last()) + spec_byte_string(fields.last()@)
    }
}

/// The byte representation of the rewarded signatures: the number of fields, then each.
pub open spec fn spec_rewarded_signatures_repr(fields: Seq<Vec<u8>>) -> Seq<u8> {
    spec_u64_to_le_bytes(fields.len() as u64) + spec_fields_items(fields)
}

fn write_rewarded_signatures(out: &mut Vec<u8>, signatures: &RewardedSignatures)
    ensures
        final(out)@ == old(out)@ + spec_rewarded_signatures_repr(signatures.fields@),
{
    let n: usize = signatures.fields.len();
    write_length(out, n);
    let ghost base = out@;
    let mut i: usize = 0;
    while i < n
        invariant
            n == signatures.fields@.len(),
            i <= n,
            out@ == base + spec_fields_items(signatures.fields@.take(i as int)),
        decreases n - i,
    {
        write_byte_string(out, signatures.fields[i].as_slice());
        proof {
            let next = signatures.fields@.take(i + 1);
            assert(next.drop_last() =~= signatures.fields@.take(i as int));
            assert(out@ =~= base + spec_fields_items(next));
        }
        i = i + 1;
    }
    assert(signatures.fields@.take(n as int) =~= signatures.fields@);
    assert(out@ =~= old(out)@ + spec_rewarded_signatures_repr(signatures.fields@));
}

/// The digest of the body of a block.
pub open spec fn spec_body_hash(map: TransactionMap, signatures: RewardedSignatures) -> Seq<u8> {
    blake2b_256(
        spec_transaction_map_repr(map.lanes@) + spec_rewarded_signatures_repr(signatures.fields@),
    )
}

/// The seed that a block hands on: the digest of its parent's seed and its random bit.
pub open spec fn spec_accumulated_seed(parent_seed: Digest, random_bit: bool) -> Seq<u8> {
    blake2b_256(parent_seed@ + seq![spec_bit(random_bit)])
}

/// A bit as a byte.
pub open spec fn spec_bit(bit: bool) -> u8 {
    if bit {
        1
    } else {
        0
    }
}

/// The part of the header that stands for the end of the era.
pub open spec fn spec_era_end_part(era_end: Option<EraEnd>) -> Seq<u8> {
    match era_end {
        None => seq![0u8],
        Some(era_end) => seq![1u8] + blake2b_256(spec_era_end_repr(era_end)),
    }
}

/// The part of the header that stands for the last switch block.
pub open spec fn spec_switch_block_part(hash: Option<BlockHash>) -> Seq<u8> {
    match hash {
        None => seq![0u8],
        Some(hash) => seq![1u8] + hash.0@,
    }
}

/// The header of a block, as bytes.
pub open spec fn spec_header_repr(block: Block) -> Seq<u8> {
    block.parent_hash.0@ + block.state_root_hash@ + spec_body_hash(
        block.transaction_map,
        block.rewarded_signatures,
    ) + seq![spec_bit(block.random_bit)] + spec_accumulated_seed(
        block.parent_seed,
        block.random_bit,
    ) + spec_era_end_part(block.era_end) + spec_u64_to_le_bytes(block.timestamp.0)
        + spec_u64_to_le_bytes(block.era_id.0) + spec_u64_to_le_bytes(block.height)
        + spec_u32_to_le_bytes(block.protocol_version.major) + spec_u32_to_le_bytes(
        block.protocol_version.minor,
    ) + spec_u32_to_le_bytes(block.protocol_version.patch) + spec_key_repr(block.proposer)
        + seq![block.current_gas_price] + spec_switch_block_part(block.last_switch_block_hash)
}

/// The hash of a block: the digest of its header. It does not depend on the hash the block
/// holds.
pub open spec fn spec_block_hash(block: Block) -> Seq<u8> {
    blake2b_256(spec_header_repr(block))
}

impl Block {
    /// Whether the block holds the hash that its content has.
    pub open spec fn sealed(&self) -> bool {
        self.hash.0@ == spec_block_hash(*self)
    }

    /// Puts a block together and seals it with its hash.
    pub fn new(
        parent_hash: BlockHash,
        parent_seed: Digest,
        state_root_hash: Digest,
        random_bit: bool,
        era_end: Option<EraEnd>,
        timestamp: Timestamp,
        era_id: EraId,
        height: u64,
        protocol_version: ProtocolVersion,
        proposer: PublicKey,
        transaction_map: TransactionMap,
        rewarded_signatures: RewardedSignatures,
        current_gas_price: u8,
        last_switch_block_hash: Option<BlockHash>,
    ) -> (block: Block)
        ensures
            block.parent_hash == parent_hash,
            block.parent_seed == parent_seed,
            block.state_root_hash == state_root_hash,
            block.random_bit == random_bit,
            block.era_end == era_end,
            block.timestamp == timestamp,
            block.era_id == era_id,
            block.height == height,
            block.protocol_version == protocol_version,
            block.proposer == proposer,
            block.transaction_map == transaction_map,
            block.rewarded_signatures == rewarded_signatures,
            block.current_gas_price == current_gas_price,
            block.last_switch_block_hash == last_switch_block_hash,
            block.sealed(),
    {
        let bit: u8 = if random_bit {
            1
        } else {
            0
        };
        let mut body: Vec<u8> = Vec::new();
        write_transaction_map(&mut body, &transaction_map);
        write_rewarded_signatures(&mut body, &rewarded_signatures);
        assert(body@ =~= spec_transaction_map_repr(transaction_map.lanes@)
            + spec_rewarded_signatures_repr(rewarded_signatures.fields@));
        let body_hash: Digest = Digest::hash(body.as_slice());
        let mut seed_input: Vec<u8> = parent_seed.to_vec();
        seed_input.push(bit);
        assert(seed_input@ =~= parent_seed@ + seq![spec_bit(random_bit)]);
        let accumulated_seed: Digest = Digest::hash(seed_input.as_slice());
        let mut header: Vec<u8> = Vec::new();
        write_bytes(&mut header, parent_hash.0.bytes.as_slice());
        write_bytes(&mut header, state_root_hash.bytes.as_slice());
        write_bytes(&mut header, body_hash.bytes.as_slice());
        write_u8(&mut header, bit);
        write_bytes(&mut header, accumulated_seed.bytes.as_slice());
        match &era_end {
            None => {
                write_u8(&mut header, 0);
            },
            Some(era_end) => {
                let mut bytes: Vec<u8> = Vec::new();
                write_era_end(&mut bytes, era_end);
                assert(bytes@ =~= spec_era_end_repr(*era_end));
                let era_end_hash: Digest = Digest::hash(bytes.as_slice());
                write_u8(&mut header, 1);
                write_bytes(&mut header, era_end_hash.bytes.as_slice());
            },
        }
        assert(header@ =~= parent_hash.0@ + state_root_hash@ + spec_body_hash(
            transaction_map,
            rewarded_signatures,
        ) + seq![spec_bit(random_bit)] + spec_accumulated_seed(parent_seed, random_bit)
            + spec_era_end_part(era_end));
        let ghost front = header@;
        write_u64(&mut header, timestamp.0);
        write_u64(&mut header, era_id.0);
        write_u64(&mut header, height);
        write_u32(&mut header, protocol_version.major);
        write_u32(&mut header, protocol_version.minor);
        write_u32(&mut header, protocol_version.patch);
        write_key(&mut header, &proposer);
        write_u8(&mut header, current_gas_price);
        match &last_switch_block_hash {
            None => {
                write_u8(&mut header, 0);
            },
            Some(hash) => {
                write_u8(&mut header, 1);
                write_bytes(&mut header, hash.0.bytes.as_slice());
            },
        }
        let hash: Digest = Digest::hash(header.as_slice());
        let block = Block {
            hash: BlockHash(hash),
            parent_hash,
            parent_seed,
            state_root_hash,
            random_bit,
            era_end,
            timestamp,
            era_id,
            height,
            protocol_version,
            proposer,
            transaction_map,
            rewarded_signatures,
            current_gas_price,
            last_switch_block_hash,
        };
        assert(header@ =~= spec_header_repr(block));
        block
    }
}

} // verus!
