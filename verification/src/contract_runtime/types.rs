//! What the engine is given and what it hands back.

use crate::identity::{AccountHash, EntityAddr, InitiatorAddr, PublicKey};
use crate::primitives::{BlockHash, Digest, EraId, Gas, Motes, ProtocolVersion, Timestamp, TransactionHash};
use vstd::prelude::*;

verus! {

/// Names the purse that an operation reads, holds or charges.
#[derive(Clone, Copy, Debug, PartialEq, Eq)]
pub enum BalanceIdentifier {
    /// The main purse of an account.
    Account(AccountHash),
    /// The purse of an entity on chain.
    Entity(EntityAddr),
    /// The payment purse of the transaction.
    Payment,
    /// The main purse of an account that is being penalized.
    PenalizedAccount(AccountHash),
    /// The payment purse, holding a penalty.
    PenalizedPayment,
    /// The refund purse.
    Refund,
    /// The purse in which fees accumulate.
    Accumulate,
    /// The main purse of the account of a public key.
    Public(PublicKey),
}

impl BalanceIdentifier {
    /// Whether the purse is named as one being penalized.
    pub open spec fn spec_is_penalty(&self) -> bool {
        self is PenalizedAccount || self is PenalizedPayment
    }

    /// Whether the purse is named as one being penalized.
    pub fn is_penalty(&self) -> (r: bool)
        ensures
            r == self.spec_is_penalty(),
    {
        match self {
            BalanceIdentifier::PenalizedAccount(_) => true,
            BalanceIdentifier::PenalizedPayment => true,
            _ => false,
        }
    }

    /// The main purse of `initiator`.
    pub open spec fn spec_from_initiator(initiator: InitiatorAddr) -> BalanceIdentifier {
        match initiator {
            InitiatorAddr::PublicKey(key) => BalanceIdentifier::Public(key),
            InitiatorAddr::AccountHash(hash) => BalanceIdentifier::Account(hash),
        }
    }

    /// The main purse of `initiator`.
    pub fn from_initiator(initiator: InitiatorAddr) -> (identifier: BalanceIdentifier)
        ensures
            identifier == Self::spec_from_initiator(initiator),
    {
        match initiator {
            InitiatorAddr::PublicKey(key) => BalanceIdentifier::Public(key),
            InitiatorAddr::AccountHash(hash) => BalanceIdentifier::Account(hash),
        }
    }
}

/// The state that a block is applied to.
#[derive(Clone, Copy, Debug, PartialEq, Eq)]
pub struct ExecutionPreState {
    /// The height of the next block to be executed.
    pub next_block_height: u64,
    /// The state root before the block.
    pub pre_state_root_hash: Digest,
    /// The hash of the parent block.
    pub parent_hash: BlockHash,
    /// The accumulated seed of the parent block.
    pub parent_seed: Digest,
}

impl ExecutionPreState {
    pub fn new(
        next_block_height: u64,
        pre_state_root_hash: Digest,
        parent_hash: BlockHash,
        parent_seed: Digest,
    ) -> (state: ExecutionPreState)
        ensures
            state == (ExecutionPreState {
                next_block_height,
                pre_state_root_hash,
                parent_hash,
                parent_seed,
            }),
    {
        ExecutionPreState { next_block_height, pre_state_root_hash, parent_hash, parent_seed }
    }

    pub fn next_block_height(&self) -> (height: u64)
        ensures
            height == self.next_block_height,
    {
        self.next_block_height
    }

    pub fn pre_state_root_hash(&self) -> (root: Digest)
        ensures
            root == self.pre_state_root_hash,
    {
        self.pre_state_root_hash
    }

    pub fn parent_hash(&self) -> (hash: BlockHash)
        ensures
            hash == self.parent_hash,
    {
        self.parent_hash
    }

    pub fn parent_seed(&self) -> (seed: Digest)
        ensures
            seed == self.parent_seed,
    {
        self.parent_seed
    }
}

/// How a transaction's computation is priced.
#[derive(Clone, Copy, Debug, PartialEq, Eq)]
pub enum PricingMode {
    /// The transaction names the most it will pay.
    PaymentLimited { payment_amount: u64, gas_price_tolerance: u8, standard_payment: bool },
    /// The cost is fixed by the lane of the transaction.
    Fixed { gas_price_tolerance: u8, additional_computation_factor: u8 },
    /// The transaction was paid for beforehand.
    Prepaid { receipt: Digest },
}

/// The entry point that a transaction calls.
#[derive(Clone, Debug, PartialEq, Eq)]
pub enum TransactionEntryPoint {
    /// The module of the transaction itself is called.
    Call,
    /// The entry point of this name is called.
    Custom(String),
    Transfer,
    AddBid,
    WithdrawBid,
    Delegate,
    Undelegate,
    Redelegate,
    ActivateBid,
    ChangeBidPublicKey,
}

/// What the engine reads of a transaction.
#[derive(Clone, Debug, PartialEq, Eq)]
pub struct Transaction {
    /// The hash of the transaction.
    pub hash: TransactionHash,
    /// The hash of the approvals of the transaction.
    pub approvals_hash: Digest,
    /// Who initiated it.
    pub initiator: InitiatorAddr,
    /// The lane it runs in.
    pub lane_id: u8,
    /// How it is priced.
    pub pricing_mode: PricingMode,
    /// The entry point it calls.
    pub entry_point: TransactionEntryPoint,
    /// Whether it pays in the standard way, rather than by payment logic of its own.
    pub standard_payment: bool,
    /// The contract it invokes directly by hash, where it does so.
    pub contract_by_hash: Option<[u8; 32]>,
    /// Whether it is of the legacy form.
    pub is_deploy: bool,
    /// Whether it needs no virtual machine.
    pub is_native: bool,
    /// Why the transaction could not be read in the form the engine works on, where it could not.
    pub conversion_error: Option<String>,
}

/// What consensus reports at the end of an era.
#[derive(Clone, Debug, PartialEq, Eq)]
pub struct EraReport {
    /// The validators that equivocated.
    pub equivocators: Vec<PublicKey>,
    /// The validators that took no part.
    pub inactive_validators: Vec<PublicKey>,
}

/// The rewards of an era: for each validator, an amount per era rewarded.
#[derive(Clone, Debug, PartialEq, Eq)]
pub struct Rewards {
    pub entries: Vec<(PublicKey, Vec<Motes>)>,
}

/// The transactions of a block, by lane.
#[derive(Clone, Debug, PartialEq, Eq)]
pub struct TransactionMap {
    pub lanes: Vec<(u8, Vec<TransactionHash>)>,
}

/// The finality signatures of earlier blocks that this block rewards, as a bit field per block.
#[derive(Clone, Debug, PartialEq, Eq)]
pub struct RewardedSignatures {
    pub fields: Vec<Vec<u8>>,
}

/// A finalized block to be applied.
#[derive(Clone, Debug, PartialEq, Eq)]
pub struct ExecutableBlock {
    pub rewarded_signatures: RewardedSignatures,
    pub timestamp: Timestamp,
    pub random_bit: bool,
    /// Present exactly on the last block of an era.
    pub era_report: Option<EraReport>,
    pub era_id: EraId,
    pub height: u64,
    pub proposer: PublicKey,
    /// The transactions, in the order in which they are executed.
    pub transactions: Vec<Transaction>,
    pub transaction_map: TransactionMap,
    pub rewards: Option<Rewards>,
}

/// The weights of the validators of one era: each validator's key with its weight. A key
/// stands for one validator, so it occurs once: see [`ValidatorWeights::wf`].
#[derive(Clone, Debug, PartialEq, Eq)]
pub struct ValidatorWeights {
    pub entries: Vec<(PublicKey, Motes)>,
}

/// Whether no key occurs twice among `entries`.
pub open spec fn spec_keys_once(entries: Seq<(PublicKey, Motes)>) -> bool {
    forall|i: int, j: int| 0 <= i < j < entries.len() ==> entries[i].0 != entries[j].0
}

impl ValidatorWeights {
    /// The weights are those of a set of validators: no key occurs twice.
    pub open spec fn wf(&self) -> bool {
        spec_keys_once(self.entries@)
    }

    /// Whether no key occurs twice.
    pub fn is_valid(&self) -> (valid: bool)
        ensures
            valid == self.wf(),
    {
        let mut j: usize = 0;
        while j < self.entries.len()
            invariant
                j <= self.entries@.len(),
                spec_keys_once(self.entries@.take(j as int)),
            decreases self.entries@.len() - j,
        {
            let mut i: usize = 0;
            while i < j
                invariant
                    i <= j < self.entries@.len(),
                    forall|k: int| 0 <= k < i ==> self.entries@[k].0 != self.entries@[j as int].0,
                decreases j - i,
            {
                if self.entries[i].0.same(&self.entries[j].0) {
                    return false;
                }
                i = i + 1;
            }
            proof {
                let before = self.entries@.take(j as int);
                let next = self.entries@.take(j + 1);
                assert forall|a: int, b: int| 0 <= a < b < next.len() implies next[a].0
                    != next[b].0 by {
                    assert(next[a] == self.entries@[a]);
                    assert(next[b] == self.entries@[b]);
                    if b < j {
                        assert(before[a] == self.entries@[a]);
                        assert(before[b] == self.entries@[b]);
                    }
                }
            }
            j = j + 1;
        }
        assert(self.entries@.take(j as int) =~= self.entries@);
        true
    }
}

/// The validators of the eras to come, by era.
#[derive(Clone, Debug, PartialEq, Eq)]
pub struct EraValidators {
    pub eras: Vec<(EraId, ValidatorWeights)>,
}

/// The kind of change that an effect makes to a value in global state.
#[derive(Clone, Copy, Debug, PartialEq, Eq, Structural)]
pub enum TransformKind {
    /// No change.
    Identity,
    /// The value is written.
    Write,
    /// The value is added to.
    Add,
}

/// One recorded change to global state.
#[derive(Clone, Debug, PartialEq, Eq)]
pub struct Transform {
    /// The key of the entry changed.
    pub key: Vec<u8>,
    /// The kind of change.
    pub kind: TransformKind,
    /// The value written or added.
    pub value: Vec<u8>,
}

/// A [`Transform`] with its key and value as sequences of bytes.
pub struct TransformView {
    pub key: Seq<u8>,
    pub kind: TransformKind,
    pub value: Seq<u8>,
}

impl View for Transform {
    type V = TransformView;

    open spec fn view(&self) -> TransformView {
        TransformView { key: self.key@, kind: self.kind, value: self.value@ }
    }
}

/// The changes that an operation makes to global state, in order.
#[derive(Clone, Debug, PartialEq, Eq)]
pub struct Effects {
    pub transforms: Vec<Transform>,
}

/// The views of `transforms`.
pub open spec fn transform_views(transforms: Seq<Transform>) -> Seq<TransformView> {
    transforms.map_values(|t: Transform| t@)
}

impl View for Effects {
    type V = Seq<TransformView>;

    open spec fn view(&self) -> Seq<TransformView> {
        transform_views(self.transforms@)
    }
}

impl Effects {
    /// No changes.
    pub fn new() -> (effects: Effects)
        ensures
            effects@ == Seq::<TransformView>::empty(),
    {
        let effects = Effects { transforms: Vec::new() };
        assert(effects@ =~= Seq::<TransformView>::empty());
        effects
    }

    /// Adds the changes of `other` after those already held.
    pub fn append(&mut self, other: Effects)
        ensures
            final(self)@ == old(self)@ + other@,
    {
        let mut other = other;
        let ghost added = other.transforms@;
        self.transforms.append(&mut other.transforms);
        assert(self@ =~= old(self)@ + transform_views(added));
    }

    /// The number of changes.
    pub fn len(&self) -> (n: usize)
        ensures
            n == self@.len(),
    {
        self.transforms.len()
    }
}

/// A message emitted while a transaction ran.
#[derive(Clone, Debug, PartialEq, Eq)]
pub struct Message {
    pub payload: Vec<u8>,
}

/// The data at the end of an era, as it stands in the block.
#[derive(Clone, Debug, PartialEq, Eq)]
pub struct EraEnd {
    pub equivocators: Vec<PublicKey>,
    pub inactive_validators: Vec<PublicKey>,
    pub next_era_validator_weights: ValidatorWeights,
    pub rewards: Rewards,
    pub next_era_gas_price: u8,
}

/// The block that results from executing an [`ExecutableBlock`].
#[derive(Clone, Debug, PartialEq, Eq)]
pub struct Block {
    pub hash: BlockHash,
    pub parent_hash: BlockHash,
    pub parent_seed: Digest,
    pub state_root_hash: Digest,
    pub random_bit: bool,
    pub era_end: Option<EraEnd>,
    pub timestamp: Timestamp,
    pub era_id: EraId,
    pub height: u64,
    pub protocol_version: ProtocolVersion,
    pub proposer: PublicKey,
    pub transaction_map: TransactionMap,
    pub rewarded_signatures: RewardedSignatures,
    pub current_gas_price: u8,
    pub last_switch_block_hash: Option<BlockHash>,
}

/// The approvals hashes of a block's transactions, with the proof that their checksum is in
/// global state.
#[derive(Clone, Debug, PartialEq, Eq)]
pub struct ApprovalsHashes {
    pub block_hash: BlockHash,
    pub approvals_hashes: Vec<Digest>,
    pub proof_of_checksum_registry: Vec<u8>,
}

/// The outcome of the step at the end of an era.
#[derive(Clone, Debug, PartialEq, Eq)]
pub struct StepOutcome {
    /// The validators of the eras to come.
    pub upcoming_era_validators: EraValidators,
    /// The effects of the step.
    pub step_effects: Effects,
}

/// What executing a block hands back: the block, the approvals hashes with their proof, the
/// artifacts of the transactions in the order of the block, and the outcome of the step where
/// the block ended an era.
#[derive(Clone, Debug, PartialEq, Eq)]
pub struct BlockAndExecutionArtifacts {
    pub block: Block,
    pub approvals_hashes: ApprovalsHashes,
    pub execution_artifacts: Vec<crate::contract_runtime::artifact::ExecutionArtifact>,
    pub step_outcome: Option<StepOutcome>,
}

} // verus!
