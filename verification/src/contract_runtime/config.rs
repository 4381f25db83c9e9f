//! The part of the chain's configuration that the engine reads.

use crate::chainspec::vm_config::SystemConfig;
use crate::primitives::{EraId, ProtocolVersion, TimeDiff};
use vstd::prelude::*;

verus! {

/// The lane of native transfers.
pub const MINT_LANE_ID: u8 = 0;

/// The lane of native auction operations.
pub const AUCTION_LANE_ID: u8 = 1;

/// The lane of installs and upgrades.
pub const INSTALL_UPGRADE_LANE_ID: u8 = 2;

/// The least that a payment must cover: what an initiator is charged when payment fails.
pub const MAX_PAYMENT_AMOUNT: u128 = 2_500_000_000;

/// A part to a whole.
#[derive(Clone, Copy, Debug, PartialEq, Eq, Structural)]
pub struct Ratio {
    pub numer: u64,
    pub denom: u64,
}

/// What becomes of the part of the cost that was not consumed.
#[derive(Clone, Copy, Debug, PartialEq, Eq, Structural)]
pub enum RefundHandling {
    /// A part of it is returned to the payer.
    Refund { refund_ratio: Ratio },
    /// A part of it is burned.
    Burn { refund_ratio: Ratio },
    /// Nothing is returned.
    NoRefund,
}

/// What becomes of the fee.
#[derive(Clone, Copy, Debug, PartialEq, Eq, Structural)]
pub enum FeeHandling {
    /// It is paid to the proposer of the block.
    PayToProposer,
    /// It is put aside for later distribution.
    Accumulate,
    /// It is burned.
    Burn,
    /// None is taken: the amount is held on the payer's purse for a time.
    NoFee,
}

impl FeeHandling {
    pub fn is_no_fee(&self) -> (r: bool)
        ensures
            r == (*self == FeeHandling::NoFee),
    {
        match self {
            FeeHandling::NoFee => true,
            _ => false,
        }
    }
}

/// A lane for transactions that run in the virtual machine.
#[derive(Clone, Copy, Debug, PartialEq, Eq, Structural)]
pub struct Lane {
    pub id: u8,
    /// The most gas a transaction of the lane may use.
    pub max_transaction_gas_limit: u64,
}

/// The chain's configuration, as far as the engine reads it.
#[derive(Clone, Debug, PartialEq, Eq)]
pub struct ChainConfig {
    pub protocol_version: ProtocolVersion,
    /// The era in which the current protocol version was activated.
    pub activation_point_era_id: EraId,
    /// The most eras whose state is pruned after one block.
    pub prune_batch_size: u64,
    pub enable_addressable_entity: bool,
    pub refund_handling: RefundHandling,
    pub fee_handling: FeeHandling,
    pub native_transfer_minimum_motes: u64,
    pub minimum_block_time: TimeDiff,
    pub system_costs: SystemConfig,
    /// The lanes of the virtual machine.
    pub wasm_lanes: Vec<Lane>,
}

impl ChainConfig {
    /// The first configured lane with the id `lane_id`, where there is one.
    pub open spec fn spec_lane(&self, lane_id: u8) -> Option<Lane> {
        spec_find_lane(self.wasm_lanes@, lane_id)
    }

    /// The first configured lane with the id `lane_id`, where there is one.
    pub fn lane(&self, lane_id: u8) -> (lane: Option<Lane>)
        ensures
            lane == self.spec_lane(lane_id),
    {
        let mut i: usize = 0;
        assert(self.wasm_lanes@.skip(0) =~= self.wasm_lanes@);
        while i < self.wasm_lanes.len()
            invariant
                i <= self.wasm_lanes@.len(),
                spec_find_lane(self.wasm_lanes@, lane_id) == spec_find_lane(
                    self.wasm_lanes@.skip(i as int),
                    lane_id,
                ),
            decreases self.wasm_lanes@.len() - i,
        {
            let lane: Lane = self.wasm_lanes[i];
            assert(self.wasm_lanes@.skip(i as int)[0] == lane);
            if lane.id == lane_id {
                return Some(lane);
            }
            assert(self.wasm_lanes@.skip(i as int).skip(1) =~= self.wasm_lanes@.skip(i + 1));
            i = i + 1;
        }
        None
    }

    /// Whether transactions of the lane `lane_id` are executed: the native lanes always are,
    /// another lane where it is configured.
    pub open spec fn spec_is_supported(&self, lane_id: u8) -> bool {
        lane_id == MINT_LANE_ID || lane_id == AUCTION_LANE_ID || self.spec_lane(lane_id) is Some
    }

    /// Whether transactions of the lane `lane_id` are executed.
    pub fn is_supported(&self, lane_id: u8) -> (r: bool)
        ensures
            r == self.spec_is_supported(lane_id),
    {
        if lane_id == MINT_LANE_ID || lane_id == AUCTION_LANE_ID {
            true
        } else {
            self.lane(lane_id).is_some()
        }
    }
}

/// The first of `lanes` with the id `lane_id`, where there is one.
pub open spec fn spec_find_lane(lanes: Seq<Lane>, lane_id: u8) -> Option<Lane>
    decreases lanes.len(),
{
    if lanes.len() == 0 {
        None
    } else if lanes[0].id == lane_id {
        Some(lanes[0])
    } else {
        spec_find_lane(lanes.skip(1), lane_id)
    }
}

} // verus!
