//! The gas limit of a transaction and what it costs.
//!
//! The limit is the most computation a transaction may use, and is reckoned at a price of one.
//! The cost is what is charged for it: the limit times the gas price of the block.

use crate::chainspec::vm_config::AuctionCosts;
use crate::contract_runtime::config::{ChainConfig, AUCTION_LANE_ID, MINT_LANE_ID};
use crate::contract_runtime::error::InvalidTransaction;
use crate::contract_runtime::types::{PricingMode, Transaction, TransactionEntryPoint};
use crate::primitives::{Gas, Motes};
use vstd::prelude::*;

verus! {

/// What the auction charges for `entry_point`; `Call`, `Custom` and `Transfer` are no entry
/// points of the auction.
pub open spec fn spec_auction_cost(costs: AuctionCosts, entry_point: TransactionEntryPoint) -> Result<
    u32,
    InvalidTransaction,
> {
    match entry_point {
        TransactionEntryPoint::Call => Err(InvalidTransaction::EntryPointCannotBeCall),
        TransactionEntryPoint::Custom(_) => Err(InvalidTransaction::NoNativeCost),
        TransactionEntryPoint::Transfer => Err(InvalidTransaction::NoNativeCost),
        TransactionEntryPoint::AddBid => Ok(costs.add_bid),
        TransactionEntryPoint::ActivateBid => Ok(costs.activate_bid),
        TransactionEntryPoint::WithdrawBid => Ok(costs.withdraw_bid),
        TransactionEntryPoint::Delegate => Ok(costs.delegate),
        TransactionEntryPoint::Undelegate => Ok(costs.undelegate),
        TransactionEntryPoint::Redelegate => Ok(costs.redelegate),
        TransactionEntryPoint::ChangeBidPublicKey => Ok(costs.add_bid),
    }
}

/// What the auction charges for `entry_point`.
pub fn auction_cost(costs: &AuctionCosts, entry_point: &TransactionEntryPoint) -> (r: Result<
    u32,
    InvalidTransaction,
>)
    ensures
        r == spec_auction_cost(*costs, *entry_point),
{
    match entry_point {
        TransactionEntryPoint::Call => Err(InvalidTransaction::EntryPointCannotBeCall),
        TransactionEntryPoint::Custom(_) => Err(InvalidTransaction::NoNativeCost),
        TransactionEntryPoint::Transfer => Err(InvalidTransaction::NoNativeCost),
        TransactionEntryPoint::AddBid => Ok(costs.add_bid),
        TransactionEntryPoint::ActivateBid => Ok(costs.activate_bid),
        TransactionEntryPoint::WithdrawBid => Ok(costs.withdraw_bid),
        TransactionEntryPoint::Delegate => Ok(costs.delegate),
        TransactionEntryPoint::Undelegate => Ok(costs.undelegate),
        TransactionEntryPoint::Redelegate => Ok(costs.redelegate),
        TransactionEntryPoint::ChangeBidPublicKey => Ok(costs.add_bid),
    }
}

/// The gas limit of `transaction` under `config`.
///
/// A transaction that names its payment is limited to that amount. One of fixed price is
/// limited by its lane: in the mint's lane to the cost of a transfer, in the auction's lane to
/// the cost of its entry point, in any other lane to what the lane allows; a lane that is not
/// configured makes the transaction invalid. Prepaid transactions are not supported.
pub open spec fn spec_gas_limit(transaction: Transaction, config: ChainConfig) -> Result<
    Gas,
    InvalidTransaction,
> {
    match transaction.pricing_mode {
        PricingMode::PaymentLimited { payment_amount, .. } => Ok(Gas(payment_amount as u128)),
        PricingMode::Fixed { .. } => {
            if transaction.lane_id == MINT_LANE_ID {
                Ok(Gas(config.system_costs@.mint_costs.transfer as u128))
            } else if transaction.lane_id == AUCTION_LANE_ID {
                match spec_auction_cost(config.system_costs@.auction_costs, transaction.entry_point) {
                    Ok(cost) => Ok(Gas(cost as u128)),
                    Err(e) => Err(e),
                }
            } else {
                match config.spec_lane(transaction.lane_id) {
                    Some(lane) => Ok(Gas(lane.max_transaction_gas_limit as u128)),
                    None => Err(InvalidTransaction::NoLaneMatch),
                }
            }
        },
        PricingMode::Prepaid { .. } => Err(InvalidTransaction::PricingModeNotSupported),
    }
}

/// The gas limit of `transaction` under `config`.
pub fn gas_limit(transaction: &Transaction, config: &ChainConfig) -> (r: Result<
    Gas,
    InvalidTransaction,
>)
    ensures
        r == spec_gas_limit(*transaction, *config),
{
    match transaction.pricing_mode {
        PricingMode::PaymentLimited { payment_amount, .. } => Ok(Gas(payment_amount as u128)),
        PricingMode::Fixed { .. } => {
            if transaction.lane_id == MINT_LANE_ID {
                Ok(Gas(config.system_costs.mint_costs().transfer as u128))
            } else if transaction.lane_id == AUCTION_LANE_ID {
                match auction_cost(config.system_costs.auction_costs(), &transaction.entry_point) {
                    Ok(cost) => Ok(Gas(cost as u128)),
                    Err(e) => Err(e),
                }
            } else {
                match config.lane(transaction.lane_id) {
                    Some(lane) => Ok(Gas(lane.max_transaction_gas_limit as u128)),
                    None => Err(InvalidTransaction::NoLaneMatch),
                }
            }
        },
        PricingMode::Prepaid { .. } => Err(InvalidTransaction::PricingModeNotSupported),
    }
}

/// The price that is charged where the block's gas price is `price`: never less than one.
pub open spec fn spec_effective_gas_price(price: u8) -> u8 {
    if price == 0 {
        1
    } else {
        price
    }
}

/// The price that is charged where the block's gas price is `price`.
pub fn effective_gas_price(price: u8) -> (effective: u8)
    ensures
        effective == spec_effective_gas_price(price),
        effective >= 1,
{
    if price == 0 {
        1
    } else {
        price
    }
}

/// The cost of the gas limit `limit` at the block's gas price `price`: the limit times the
/// effective price, where that is representable.
pub open spec fn spec_gas_cost(limit: Gas, price: u8) -> Result<Motes, InvalidTransaction> {
    if limit.0 * spec_effective_gas_price(price) <= u128::MAX {
        Ok(Motes((limit.0 * spec_effective_gas_price(price)) as u128))
    } else {
        Err(InvalidTransaction::UnableToCalculateGasCost)
    }
}

/// The cost of the gas limit `limit` at the block's gas price `price`.
pub fn gas_cost(limit: Gas, price: u8) -> (r: Result<Motes, InvalidTransaction>)
    ensures
        r == spec_gas_cost(limit, price),
{
    match Motes::from_gas(limit, effective_gas_price(price)) {
        Some(cost) => Ok(cost),
        None => Err(InvalidTransaction::UnableToCalculateGasCost),
    }
}

/// At a price of one, or of none, the cost is the limit.
pub proof fn lemma_cost_at_unit_price(limit: Gas, price: u8)
    requires
        price <= 1,
    ensures
        spec_gas_cost(limit, price) == Ok::<Motes, InvalidTransaction>(Motes(limit.0)),
{
    assert(limit.0 * 1 == limit.0);
}

/// The cost is never less than the limit.
pub proof fn lemma_cost_covers_limit(limit: Gas, price: u8)
    ensures
        spec_gas_cost(limit, price) matches Ok(cost) ==> cost.0 >= limit.0,
{
    assert(limit.0 * spec_effective_gas_price(price) >= limit.0) by (nonlinear_arith)
        requires
            spec_effective_gas_price(price) >= 1,
            limit.0 >= 0,
    ;
}

} // verus!
