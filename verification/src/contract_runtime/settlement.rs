//! Refund and fee: what is asked of the payment handler once a transaction has run.

use crate::contract_runtime::artifact::Settlement;
use crate::contract_runtime::config::{FeeHandling, RefundHandling};
use crate::contract_runtime::protocol::{HandleFeeMode, HandleRefundMode};
use crate::contract_runtime::types::BalanceIdentifier;
use crate::identity::{InitiatorAddr, PublicKey};
use crate::primitives::{EraId, Gas, Motes};
use vstd::prelude::*;

verus! {

/// What a transaction hands to the settlement of its cost.
#[derive(Clone, Copy, Debug, PartialEq, Eq)]
pub struct Charge {
    pub initiator: InitiatorAddr,
    /// Whether payment is standard.
    pub standard_payment: bool,
    pub gas_limit: Gas,
    pub gas_price: u8,
    pub cost: Motes,
    pub consumed: Gas,
}

/// How the refund is handled for `charge`, where it is handled at all.
///
/// Without refunds nothing is asked, unless no fee is taken either and payment is custom: then
/// the charge is held against the refund purse. Where refunds are burned, the source is the
/// payer. Where they are returned, standard payment leaves them with the payer, and custom
/// payment moves them from the payer to the refund purse.
pub open spec fn spec_refund_mode(
    refund_handling: RefundHandling,
    fee_handling: FeeHandling,
    charge: Charge,
    payer: BalanceIdentifier,
) -> Option<HandleRefundMode> {
    match refund_handling {
        RefundHandling::NoRefund => {
            if fee_handling == FeeHandling::NoFee && !charge.standard_payment {
                Some(
                    HandleRefundMode::CustomHold {
                        initiator: charge.initiator,
                        limit: charge.gas_limit,
                        gas_price: charge.gas_price,
                        cost: charge.cost,
                    },
                )
            } else {
                None
            }
        },
        RefundHandling::Burn { refund_ratio } => Some(
            HandleRefundMode::Burn {
                limit: charge.gas_limit,
                gas_price: charge.gas_price,
                cost: charge.cost,
                consumed: charge.consumed,
                source: payer,
                ratio: refund_ratio,
            },
        ),
        RefundHandling::Refund { refund_ratio } => {
            if charge.standard_payment {
                Some(
                    HandleRefundMode::RefundAmount {
                        limit: charge.gas_limit,
                        gas_price: charge.gas_price,
                        consumed: charge.consumed,
                        cost: charge.cost,
                        ratio: refund_ratio,
                        source: payer,
                    },
                )
            } else {
                Some(
                    HandleRefundMode::Refund {
                        initiator: charge.initiator,
                        limit: charge.gas_limit,
                        gas_price: charge.gas_price,
                        consumed: charge.consumed,
                        cost: charge.cost,
                        ratio: refund_ratio,
                        source: payer,
                        target: BalanceIdentifier::Refund,
                    },
                )
            }
        },
    }
}

/// The purse that bears the fee: the payer, but the refund purse where the charge is held
/// against that.
pub open spec fn spec_fee_payer(
    refund_handling: RefundHandling,
    fee_handling: FeeHandling,
    standard_payment: bool,
    payer: BalanceIdentifier,
) -> BalanceIdentifier {
    if refund_handling == RefundHandling::NoRefund && fee_handling == FeeHandling::NoFee
        && !standard_payment {
        BalanceIdentifier::Refund
    } else {
        payer
    }
}

/// How the refund is handled for `charge`, and the purse that bears the fee.
pub fn refund_mode(
    refund_handling: RefundHandling,
    fee_handling: FeeHandling,
    charge: Charge,
    payer: BalanceIdentifier,
) -> (r: (Option<HandleRefundMode>, BalanceIdentifier))
    ensures
        r.0 == spec_refund_mode(refund_handling, fee_handling, charge, payer),
        r.1 == spec_fee_payer(refund_handling, fee_handling, charge.standard_payment, payer),
{
    match refund_handling {
        RefundHandling::NoRefund => {
            if fee_handling.is_no_fee() && !charge.standard_payment {
                (
                    Some(
                        HandleRefundMode::CustomHold {
                            initiator: charge.initiator,
                            limit: charge.gas_limit,
                            gas_price: charge.gas_price,
                            cost: charge.cost,
                        },
                    ),
                    BalanceIdentifier::Refund,
                )
            } else {
                (None, payer)
            }
        },
        RefundHandling::Burn { refund_ratio } => (
            Some(
                HandleRefundMode::Burn {
                    limit: charge.gas_limit,
                    gas_price: charge.gas_price,
                    cost: charge.cost,
                    consumed: charge.consumed,
                    source: payer,
                    ratio: refund_ratio,
                },
            ),
            payer,
        ),
        RefundHandling::Refund { refund_ratio } => {
            if charge.standard_payment {
                (
                    Some(
                        HandleRefundMode::RefundAmount {
                            limit: charge.gas_limit,
                            gas_price: charge.gas_price,
                            consumed: charge.consumed,
                            cost: charge.cost,
                            ratio: refund_ratio,
                            source: payer,
                        },
                    ),
                    payer,
                )
            } else {
                (
                    Some(
                        HandleRefundMode::Refund {
                            initiator: charge.initiator,
                            limit: charge.gas_limit,
                            gas_price: charge.gas_price,
                            consumed: charge.consumed,
                            cost: charge.cost,
                            ratio: refund_ratio,
                            source: payer,
                            target: BalanceIdentifier::Refund,
                        },
                    ),
                    payer,
                )
            }
        },
    }
}

/// How the fee `amount` is handled: credited to the proposer where no fee is taken, burned from
/// the payer, paid from the payer to the proposer, or paid from the payer into the accumulation
/// purse.
pub open spec fn spec_fee_mode(
    fee_handling: FeeHandling,
    initiator: InitiatorAddr,
    payer: BalanceIdentifier,
    proposer: PublicKey,
    era_id: EraId,
    amount: Motes,
) -> HandleFeeMode {
    match fee_handling {
        FeeHandling::NoFee => HandleFeeMode::Credit { validator: proposer, amount, era_id },
        FeeHandling::Burn => HandleFeeMode::Burn { source: payer, amount: Some(amount) },
        FeeHandling::PayToProposer => HandleFeeMode::Pay {
            initiator,
            source: payer,
            target: BalanceIdentifier::Public(proposer),
            amount,
        },
        FeeHandling::Accumulate => HandleFeeMode::Pay {
            initiator,
            source: payer,
            target: BalanceIdentifier::Accumulate,
            amount,
        },
    }
}

/// How the fee `amount` is handled.
pub fn fee_mode(
    fee_handling: FeeHandling,
    initiator: InitiatorAddr,
    payer: BalanceIdentifier,
    proposer: PublicKey,
    era_id: EraId,
    amount: Motes,
) -> (mode: HandleFeeMode)
    ensures
        mode == spec_fee_mode(fee_handling, initiator, payer, proposer, era_id, amount),
{
    match fee_handling {
        FeeHandling::NoFee => HandleFeeMode::Credit { validator: proposer, amount, era_id },
        FeeHandling::Burn => HandleFeeMode::Burn { source: payer, amount: Some(amount) },
        FeeHandling::PayToProposer => HandleFeeMode::Pay {
            initiator,
            source: payer,
            target: BalanceIdentifier::Public(proposer),
            amount,
        },
        FeeHandling::Accumulate => HandleFeeMode::Pay {
            initiator,
            source: payer,
            target: BalanceIdentifier::Accumulate,
            amount,
        },
    }
}

/// The amount that a fee mode names.
pub open spec fn spec_fee_mode_amount(mode: HandleFeeMode) -> Option<Motes> {
    match mode {
        HandleFeeMode::Credit { amount, .. } => Some(amount),
        HandleFeeMode::Burn { amount, .. } => amount,
        HandleFeeMode::Pay { amount, .. } => Some(amount),
    }
}

/// Whatever the refund was reported to be and however refund and fee are handled, the refund
/// is no more than the cost, refund and fee together are the cost, and the amount that the fee
/// is handled for is that fee.
pub proof fn lemma_conservation(
    refund_handling: RefundHandling,
    fee_handling: FeeHandling,
    charge: Charge,
    payer: BalanceIdentifier,
    proposer: PublicKey,
    era_id: EraId,
    reported_refund: Motes,
)
    ensures
        ({
            let settlement = Settlement::spec_of(charge.cost, reported_refund);
            let fee_payer = spec_fee_payer(
                refund_handling,
                fee_handling,
                charge.standard_payment,
                payer,
            );
            &&& settlement.cost == charge.cost
            &&& settlement.refund.0 <= settlement.cost.0
            &&& settlement.refund.0 + settlement.fee.0 == settlement.cost.0
            &&& spec_fee_mode_amount(
                spec_fee_mode(
                    fee_handling,
                    charge.initiator,
                    fee_payer,
                    proposer,
                    era_id,
                    settlement.fee,
                ),
            ) == Some(settlement.fee)
        }),
{
}

/// Where nothing is refunded, the fee is the whole cost.
pub proof fn lemma_no_refund_fee_is_cost(cost: Motes)
    ensures
        Settlement::spec_of(cost, Motes(0)).fee == cost,
        Settlement::spec_of(cost, Motes(0)).refund == Motes(0),
{
}

} // verus!
