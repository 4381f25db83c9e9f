//! The record of what executing one transaction came to.

use crate::contract_runtime::error::ArtifactError;
use crate::contract_runtime::protocol::Held;
use crate::contract_runtime::types::{Effects, Message, TransformView};
use crate::identity::InitiatorAddr;
use crate::primitives::{Gas, Motes, TransactionHash};
use vstd::prelude::*;

verus! {

/// How the cost of a transaction was split between refund and fee.
#[derive(Clone, Copy, Debug, PartialEq, Eq, Structural)]
pub struct Settlement {
    /// What the transaction was charged.
    pub cost: Motes,
    /// The part of the cost that went back.
    pub refund: Motes,
    /// The part of the cost that was taken as fee.
    pub fee: Motes,
}

impl Settlement {
    /// Refund and fee make up the cost.
    pub open spec fn balanced(&self) -> bool {
        self.refund.0 + self.fee.0 == self.cost.0
    }

    /// The settlement of `cost` where `reported` is what the refund was reported to be: the
    /// refund is what was reported, but never more than the cost; the fee is the rest.
    pub open spec fn spec_of(cost: Motes, reported: Motes) -> Settlement {
        let refund = if reported.0 <= cost.0 {
            reported
        } else {
            cost
        };
        Settlement { cost, refund, fee: Motes((cost.0 - refund.0) as u128) }
    }

    /// The settlement of `cost` where `reported` is what the refund was reported to be.
    pub fn of(cost: Motes, reported: Motes) -> (settlement: Settlement)
        ensures
            settlement == Self::spec_of(cost, reported),
            settlement.balanced(),
            settlement.refund.0 <= cost.0,
            settlement.fee.0 <= cost.0,
            settlement.cost == cost,
    {
        let refund: Motes = if reported.0 <= cost.0 {
            reported
        } else {
            cost
        };
        Settlement { cost, refund, fee: Motes(cost.0 - refund.0) }
    }
}

/// The artifact of one transaction. It starts out empty, is filled as the stages of processing
/// complete or cut it short, and is final once it is added to the artifacts of the block.
#[derive(Clone, Debug, PartialEq, Eq)]
pub struct ExecutionArtifact {
    pub transaction_hash: TransactionHash,
    pub initiator: InitiatorAddr,
    /// The most computation the transaction may use.
    pub gas_limit: Gas,
    /// What the transaction is charged.
    pub cost: Motes,
    /// The computation the transaction used.
    pub consumed: Gas,
    /// How the cost was settled, once it was.
    pub settlement: Option<Settlement>,
    /// The first error met.
    pub error: Option<ArtifactError>,
    /// The changes made to global state, in order.
    pub effects: Effects,
    /// The messages emitted, in order.
    pub messages: Vec<Message>,
}

/// An [`ExecutionArtifact`] with its lists as sequences.
pub struct ArtifactView {
    pub transaction_hash: TransactionHash,
    pub initiator: InitiatorAddr,
    pub gas_limit: Gas,
    pub cost: Motes,
    pub consumed: Gas,
    pub settlement: Option<Settlement>,
    pub error: Option<ArtifactError>,
    pub effects: Seq<TransformView>,
    pub messages: Seq<Message>,
}

impl View for ExecutionArtifact {
    type V = ArtifactView;

    open spec fn view(&self) -> ArtifactView {
        ArtifactView {
            transaction_hash: self.transaction_hash,
            initiator: self.initiator,
            gas_limit: self.gas_limit,
            cost: self.cost,
            consumed: self.consumed,
            settlement: self.settlement,
            error: self.error,
            effects: self.effects@,
            messages: self.messages@,
        }
    }
}

impl ArtifactView {
    /// The empty artifact of a transaction.
    pub open spec fn new(transaction_hash: TransactionHash, initiator: InitiatorAddr) -> ArtifactView {
        ArtifactView {
            transaction_hash,
            initiator,
            gas_limit: Gas(0),
            cost: Motes(0),
            consumed: Gas(0),
            settlement: None,
            error: None,
            effects: Seq::empty(),
            messages: Seq::empty(),
        }
    }

    /// The artifact with `error` recorded, unless one was recorded before.
    pub open spec fn with_error(self, error: ArtifactError) -> ArtifactView {
        if self.error is Some {
            self
        } else {
            ArtifactView { error: Some(error), ..self }
        }
    }

    /// The artifact with `error` recorded where there is one and none was recorded before.
    pub open spec fn with_error_if_any(self, error: Option<ArtifactError>) -> ArtifactView {
        match error {
            Some(error) => self.with_error(error),
            None => self,
        }
    }

    /// The artifact with the gas limit `gas_limit`.
    pub open spec fn with_gas_limit(self, gas_limit: Gas) -> ArtifactView {
        ArtifactView { gas_limit, ..self }
    }

    /// The artifact with `cost` added to its cost.
    pub open spec fn with_added_cost(self, cost: Motes) -> ArtifactView {
        ArtifactView {
            cost: if self.cost.0 + cost.0 > u128::MAX {
                Motes(u128::MAX)
            } else {
                Motes((self.cost.0 + cost.0) as u128)
            },
            ..self
        }
    }

    /// The artifact with `consumed` added to the gas consumed.
    pub open spec fn with_added_consumed(self, consumed: Gas) -> ArtifactView {
        ArtifactView { consumed: self.consumed.spec_saturating_add(consumed), ..self }
    }

    /// The artifact with `effects` after its effects.
    pub open spec fn with_effects(self, effects: Seq<TransformView>) -> ArtifactView {
        ArtifactView { effects: self.effects + effects, ..self }
    }

    /// The artifact with `messages` after its messages.
    pub open spec fn with_messages(self, messages: Seq<Message>) -> ArtifactView {
        ArtifactView { messages: self.messages + messages, ..self }
    }

    /// The artifact with its cost settled.
    pub open spec fn with_settlement(self, settlement: Settlement) -> ArtifactView {
        ArtifactView { settlement: Some(settlement), ..self }
    }

    /// The artifact with an operation recorded: the gas it consumed, its error unless one was
    /// recorded before, its messages and its effects.
    pub open spec fn record(
        self,
        held: Held,
        effects: Seq<TransformView>,
        messages: Seq<Message>,
    ) -> ArtifactView {
        self.with_added_consumed(held.consumed).with_error_if_any(held.error).with_messages(
            messages,
        ).with_effects(effects)
    }

    /// The cost of the artifact is settled in balance, where it is settled: what was settled
    /// is the cost, the refund is no more than the cost, and refund and fee make up the cost.
    pub open spec fn conserves(self) -> bool {
        self.settlement matches Some(settlement) ==> settlement.cost == self.cost
            && settlement.balanced() && settlement.refund.0 <= settlement.cost.0
    }
}

impl ExecutionArtifact {
    /// The empty artifact of a transaction.
    pub fn new(transaction_hash: TransactionHash, initiator: InitiatorAddr) -> (artifact:
        ExecutionArtifact)
        ensures
            artifact@ == ArtifactView::new(transaction_hash, initiator),
    {
        ExecutionArtifact {
            transaction_hash,
            initiator,
            gas_limit: Gas(0),
            cost: Motes(0),
            consumed: Gas(0),
            settlement: None,
            error: None,
            effects: Effects::new(),
            messages: Vec::new(),
        }
    }

    /// Records `error`, unless an error was recorded before.
    pub fn with_error(self, error: ArtifactError) -> (artifact: ExecutionArtifact)
        ensures
            artifact@ == self@.with_error(error),
    {
        if self.error.is_some() {
            self
        } else {
            ExecutionArtifact { error: Some(error), ..self }
        }
    }

    /// Records `error` where there is one, unless an error was recorded before.
    pub fn with_error_if_any(self, error: Option<ArtifactError>) -> (artifact: ExecutionArtifact)
        ensures
            artifact@ == self@.with_error_if_any(error),
    {
        match error {
            Some(error) => self.with_error(error),
            None => self,
        }
    }

    /// Sets the gas limit.
    pub fn with_gas_limit(self, gas_limit: Gas) -> (artifact: ExecutionArtifact)
        ensures
            artifact@ == self@.with_gas_limit(gas_limit),
    {
        ExecutionArtifact { gas_limit, ..self }
    }

    /// Adds `cost` to the cost.
    pub fn with_added_cost(self, cost: Motes) -> (artifact: ExecutionArtifact)
        ensures
            artifact@ == self@.with_added_cost(cost),
    {
        let total: Motes = self.cost.saturating_add(cost);
        ExecutionArtifact { cost: total, ..self }
    }

    /// Adds `consumed` to the gas consumed.
    pub fn with_added_consumed(self, consumed: Gas) -> (artifact: ExecutionArtifact)
        ensures
            artifact@ == self@.with_added_consumed(consumed),
    {
        let total: Gas = self.consumed.saturating_add(consumed);
        ExecutionArtifact { consumed: total, ..self }
    }

    /// Adds `effects` after the effects recorded.
    pub fn with_effects(self, effects: Effects) -> (artifact: ExecutionArtifact)
        ensures
            artifact@ == self@.with_effects(effects@),
    {
        let mut artifact = self;
        artifact.effects.append(effects);
        artifact
    }

    /// Adds `messages` after the messages recorded.
    pub fn with_messages(self, messages: Vec<Message>) -> (artifact: ExecutionArtifact)
        ensures
            artifact@ == self@.with_messages(messages@),
    {
        let mut artifact = self;
        let mut messages = messages;
        artifact.messages.append(&mut messages);
        artifact
    }

    /// Records how the cost was settled.
    pub fn with_settlement(self, settlement: Settlement) -> (artifact: ExecutionArtifact)
        ensures
            artifact@ == self@.with_settlement(settlement),
    {
        ExecutionArtifact { settlement: Some(settlement), ..self }
    }

    /// Records an operation: the gas it consumed, its error unless one was recorded before, its
    /// messages and its effects.
    pub fn record(self, held: Held, effects: Effects, messages: Vec<Message>) -> (artifact:
        ExecutionArtifact)
        ensures
            artifact@ == self@.record(held, effects@, messages@),
    {
        self.with_added_consumed(held.consumed).with_error_if_any(held.error).with_messages(
            messages,
        ).with_effects(effects)
    }
}

/// The views of `artifacts`.
pub open spec fn artifact_views(artifacts: Seq<ExecutionArtifact>) -> Seq<ArtifactView> {
    artifacts.map_values(|a: ExecutionArtifact| a@)
}

} // verus!
