//! Putting a transaction together, step by step.

use crate::bytesrepr::{
    spec_byte_string, spec_text, write_byte_string, write_length, write_text, write_u64, write_u8,
};
use crate::contract_runtime::checksum::{spec_initiator_repr, write_initiator};
use crate::contract_runtime::types::{PricingMode, TransactionEntryPoint};
use crate::digest::blake2b_256;
use crate::identity::{InitiatorAddr, PublicKey};
use crate::primitives::{Digest, Motes, TimeDiff, Timestamp, TransactionHash};
use crate::random::{random_u32, random_u64};
use crate::types::transaction::drawn::{
    drawn_arg, drawn_entry_point, drawn_scheduling, drawn_text, spec_drawn_entry_point,
    spec_drawn_scheduling,
};
use crate::types::transaction::fields::{
    spec_all_fit, spec_arg_fits, MAX_FIELD_STRING,
    amount_value, args_bytes, entry_point_bytes, key_value, optional_u64_value, scheduling_bytes,
    spec_args_repr, spec_entry_point_repr, spec_scheduling_repr, spec_target_repr, target_bytes,
    transfer_target_value, uref_value, NamedArg, RuntimeArgs, TransactionArgs,
    TransactionInvocationTarget, TransactionRuntime, TransactionScheduling, TransactionTarget,
    TransferTarget, URef,
};
use vstd::bytes::spec_u64_to_le_bytes;
use vstd::prelude::*;

verus! {

/// The place of the arguments among the fields of a transaction.
pub const ARGS_FIELD_INDEX: u16 = 0;

/// The place of the target among the fields of a transaction.
pub const TARGET_FIELD_INDEX: u16 = 1;

/// The place of the entry point among the fields of a transaction.
pub const ENTRY_POINT_FIELD_INDEX: u16 = 2;

/// The place of the scheduling among the fields of a transaction.
pub const SCHEDULING_FIELD_INDEX: u16 = 3;

/// The default time-to-live for transactions, i.e. 30 minutes, in milliseconds.
pub const DEFAULT_TTL_MILLIS: u64 = 1_800_000;

/// The longest time-to-live of a transaction, i.e. 18 hours, in milliseconds.
pub const MAX_TTL_MILLIS: u64 = 64_800_000;

/// The fields of a transaction, by their places: each place once, in rising order.
#[derive(Clone, Debug, PartialEq, Eq)]
pub struct Fields {
    pub entries: Vec<(u16, Vec<u8>)>,
}

/// The bytes of the field at the place `index` among `entries`, where there is one.
pub open spec fn spec_field(entries: Seq<(u16, Vec<u8>)>, index: u16) -> Option<Seq<u8>> {
    if exists|i: int| 0 <= i < entries.len() && entries[i].0 == index {
        let i = choose|i: int| 0 <= i < entries.len() && entries[i].0 == index;
        Some(entries[i].1@)
    } else {
        None
    }
}

/// Whether `entries` stand in rising order of their places, each place once.
pub open spec fn spec_rising(entries: Seq<(u16, Vec<u8>)>) -> bool {
    forall|i: int, j: int| 0 <= i < j < entries.len() ==> entries[i].0 < entries[j].0
}

proof fn lemma_field_at(entries: Seq<(u16, Vec<u8>)>, i: int)
    requires
        spec_rising(entries),
        0 <= i < entries.len(),
    ensures
        spec_field(entries, entries[i].0) == Some(entries[i].1@),
{
    let j = choose|j: int| 0 <= j < entries.len() && entries[j].0 == entries[i].0;
    if j < i {
        assert(entries[j].0 < entries[i].0);
    }
    if i < j {
        assert(entries[i].0 < entries[j].0);
    }
}

impl Fields {
    pub open spec fn wf(&self) -> bool {
        spec_rising(self.entries@)
    }

    /// The bytes of the field at the place `index`, where there is one.
    pub open spec fn spec_get(&self, index: u16) -> Option<Seq<u8>> {
        spec_field(self.entries@, index)
    }

    /// No fields.
    pub fn new() -> (fields: Fields)
        ensures
            fields.wf(),
            fields.entries@.len() == 0,
    {
        Fields { entries: Vec::new() }
    }

    /// Puts `bytes` at the place `index`, in place of what is there.
    pub fn insert(&mut self, index: u16, bytes: Vec<u8>)
        requires
            old(self).wf(),
        ensures
            final(self).wf(),
            final(self).spec_get(index) == Some(bytes@),
            forall|other: u16| other != index ==> final(self).spec_get(other) == old(self).spec_get(
                other,
            ),
    {
        let ghost before = self.entries@;
        let mut i: usize = 0;
        while i < self.entries.len() && self.entries[i].0 < index
            invariant
                i <= self.entries@.len(),
                self.entries@ == before,
                forall|j: int| 0 <= j < i ==> before[j].0 < index,
            decreases self.entries@.len() - i,
        {
            i = i + 1;
        }
        if i < self.entries.len() && self.entries[i].0 == index {
            self.entries.remove(i);
            self.entries.insert(i, (index, bytes));
            proof {
                let after = self.entries@;
                assert(after.len() == before.len());
                assert forall|k: int| 0 <= k < after.len() implies #[trigger] after[k].0
                    == before[k].0 by {}
                assert(spec_rising(after));
                lemma_field_at(after, i as int);
                assert forall|other: u16| other != index implies spec_field(after, other)
                    == spec_field(before, other) by {
                    if exists|j: int| 0 <= j < before.len() && before[j].0 == other {
                        let j = choose|j: int| 0 <= j < before.len() && before[j].0 == other;
                        lemma_field_at(before, j);
                        assert(after[j] == before[j]);
                        lemma_field_at(after, j);
                    } else {
                        if exists|k: int| 0 <= k < after.len() && after[k].0 == other {
                            let k = choose|k: int| 0 <= k < after.len() && after[k].0 == other;
                            assert(before[k].0 == other);
                        }
                    }
                }
            }
        } else {
            self.entries.insert(i, (index, bytes));
            proof {
                let after = self.entries@;
                assert forall|a: int, b: int| 0 <= a < b < after.len() implies after[a].0
                    < after[b].0 by {
                    let x = if a < i { a } else { a - 1 };
                    let y = if b < i { b } else { b - 1 };
                    if a != i && b != i {
                        assert(after[a] == before[x]);
                        assert(after[b] == before[y]);
                    } else if a == i {
                        assert(after[b] == before[y]);
                    } else {
                        assert(after[a] == before[x]);
                    }
                }
                lemma_field_at(after, i as int);
                assert forall|other: u16| other != index implies spec_field(after, other)
                    == spec_field(before, other) by {
                    if exists|j: int| 0 <= j < before.len() && before[j].0 == other {
                        let j = choose|j: int| 0 <= j < before.len() && before[j].0 == other;
                        lemma_field_at(before, j);
                        let k = if j < i { j } else { j + 1 };
                        assert(after[k] == before[j]);
                        lemma_field_at(after, k);
                    } else {
                        if exists|k: int| 0 <= k < after.len() && after[k].0 == other {
                            let k = choose|k: int| 0 <= k < after.len() && after[k].0 == other;
                            let j = if k < i { k } else { k - 1 };
                            assert(after[k] == before[j]);
                        }
                    }
                }
            }
        }
    }
}

/// A key to sign with, known here by the public key that goes with it.
#[derive(Clone, Copy, Debug, PartialEq, Eq)]
pub struct SecretKey {
    pub public_key: PublicKey,
}

/// An approval of a transaction: who signs it.
#[derive(Clone, Copy, Debug, PartialEq, Eq)]
pub struct Approval {
    pub signer: PublicKey,
}

/// What a transaction says, before it is named by its hash and approved.
#[derive(Clone, Debug, PartialEq, Eq)]
pub struct TransactionV1Payload {
    pub chain_name: String,
    pub timestamp: Timestamp,
    pub ttl: TimeDiff,
    pub pricing_mode: PricingMode,
    pub initiator_addr: InitiatorAddr,
    pub fields: Fields,
}

/// A transaction.
#[derive(Clone, Debug, PartialEq, Eq)]
pub struct TransactionV1 {
    pub hash: TransactionHash,
    pub payload: TransactionV1Payload,
    /// Who signs the transaction, in the order in which the approvals were added.
    pub approvals: Vec<Approval>,
}

/// Errors returned while building a [`TransactionV1`] using a [`TransactionV1Builder`].
#[derive(Clone, Copy, Eq, PartialEq, Debug, Structural)]
#[non_exhaustive]
pub enum TransactionV1BuilderError {
    /// Failed to build transaction due to missing initiator_addr.
    ///
    /// Call [`TransactionV1Builder::with_initiator_addr`] or
    /// [`TransactionV1Builder::with_secret_key`] before calling [`TransactionV1Builder::build`].
    MissingInitiatorAddr,
    /// Failed to build transaction due to missing chain name.
    ///
    /// Call [`TransactionV1Builder::with_chain_name`] before calling
    /// [`TransactionV1Builder::build`].
    MissingChainName,
    /// Failed to build transaction due to an error when calling `to_bytes` on one of the payload
    /// `field`.
    CouldNotSerializeField {
        /// The field index that failed to serialize.
        field_index: u16,
    },
}

/// Who initiates a transaction and the key to sign it with, as far as they are given.
#[derive(Clone, Copy, Debug, PartialEq, Eq)]
pub enum InitiatorAddrAndSecretKey {
    /// Both are given.
    Both { initiator_addr: InitiatorAddr, secret_key: SecretKey },
    /// Only the initiator is given: the transaction is not signed.
    InitiatorAddr(InitiatorAddr),
    /// Only the key is given: the initiator is the one whose key it is.
    SecretKey(SecretKey),
}

impl InitiatorAddrAndSecretKey {
    /// The initiator: the one given, else the one whose key is given.
    pub open spec fn spec_initiator_addr(&self) -> InitiatorAddr {
        match self {
            InitiatorAddrAndSecretKey::Both { initiator_addr, .. } => *initiator_addr,
            InitiatorAddrAndSecretKey::InitiatorAddr(initiator_addr) => *initiator_addr,
            InitiatorAddrAndSecretKey::SecretKey(secret_key) => InitiatorAddr::PublicKey(
                secret_key.public_key,
            ),
        }
    }

    /// The key to sign with, where one is given.
    pub open spec fn spec_secret_key(&self) -> Option<SecretKey> {
        match self {
            InitiatorAddrAndSecretKey::Both { secret_key, .. } => Some(*secret_key),
            InitiatorAddrAndSecretKey::InitiatorAddr(_) => None,
            InitiatorAddrAndSecretKey::SecretKey(secret_key) => Some(*secret_key),
        }
    }

    pub fn initiator_addr(&self) -> (initiator_addr: InitiatorAddr)
        ensures
            initiator_addr == self.spec_initiator_addr(),
    {
        match self {
            InitiatorAddrAndSecretKey::Both { initiator_addr, .. } => *initiator_addr,
            InitiatorAddrAndSecretKey::InitiatorAddr(initiator_addr) => *initiator_addr,
            InitiatorAddrAndSecretKey::SecretKey(secret_key) => InitiatorAddr::PublicKey(
                secret_key.public_key,
            ),
        }
    }

    pub fn secret_key(&self) -> (secret_key: Option<SecretKey>)
        ensures
            secret_key == self.spec_secret_key(),
    {
        match self {
            InitiatorAddrAndSecretKey::Both { secret_key, .. } => Some(*secret_key),
            InitiatorAddrAndSecretKey::InitiatorAddr(_) => None,
            InitiatorAddrAndSecretKey::SecretKey(secret_key) => Some(*secret_key),
        }
    }
}

/// The byte representation of a pricing mode.
pub open spec fn spec_pricing_repr(pricing_mode: PricingMode) -> Seq<u8> {
    match pricing_mode {
        PricingMode::PaymentLimited {
            payment_amount,
            gas_price_tolerance,
            standard_payment,
        } => seq![0u8] + spec_u64_to_le_bytes(payment_amount) + seq![
            gas_price_tolerance,
            if standard_payment {
                1u8
            } else {
                0u8
            },
        ],
        PricingMode::Fixed { gas_price_tolerance, additional_computation_factor } => seq![
            1u8,
            gas_price_tolerance,
            additional_computation_factor,
        ],
        PricingMode::Prepaid { receipt } => seq![2u8] + receipt@,
    }
}

/// The byte representations of fields, one after the other: each its place and its bytes.
pub open spec fn spec_fields_items(entries: Seq<(u16, Vec<u8>)>) -> Seq<u8>
    decreases entries.len(),
{
    if entries.len() == 0 {
        Seq::empty()
    } else {
        spec_fields_items(entries.drop_last()) + vstd::bytes::spec_u16_to_le_bytes(
            entries.last().0,
        ) + spec_byte_string(entries.last().1@)
    }
}

/// The byte representation of a payload: the chain's name, the timestamp, the time to live,
/// the pricing mode, the initiator, and the fields in the order of their places.
pub open spec fn spec_payload_repr(payload: TransactionV1Payload) -> Seq<u8> {
    spec_text(payload.chain_name@) + spec_u64_to_le_bytes(payload.timestamp.0)
        + spec_u64_to_le_bytes(payload.ttl.0) + spec_pricing_repr(payload.pricing_mode)
        + spec_initiator_repr(payload.initiator_addr) + spec_u64_to_le_bytes(
        payload.fields.entries@.len() as u64,
    ) + spec_fields_items(payload.fields.entries@)
}

fn payload_bytes(payload: &TransactionV1Payload) -> (bytes: Vec<u8>)
    ensures
        bytes@ == spec_payload_repr(*payload),
{
    let mut out: Vec<u8> = Vec::new();
    write_text(&mut out, &payload.chain_name);
    write_u64(&mut out, payload.timestamp.0);
    write_u64(&mut out, payload.ttl.0);
    match payload.pricing_mode {
        PricingMode::PaymentLimited { payment_amount, gas_price_tolerance, standard_payment } => {
            write_u8(&mut out, 0);
            write_u64(&mut out, payment_amount);
            write_u8(&mut out, gas_price_tolerance);
            write_u8(&mut out, if standard_payment {
                1
            } else {
                0
            });
        },
        PricingMode::Fixed { gas_price_tolerance, additional_computation_factor } => {
            write_u8(&mut out, 1);
            write_u8(&mut out, gas_price_tolerance);
            write_u8(&mut out, additional_computation_factor);
        },
        PricingMode::Prepaid { receipt } => {
            write_u8(&mut out, 2);
            crate::bytesrepr::write_bytes(&mut out, receipt.bytes.as_slice());
        },
    }
    assert(out@ =~= spec_text(payload.chain_name@) + spec_u64_to_le_bytes(payload.timestamp.0)
        + spec_u64_to_le_bytes(payload.ttl.0) + spec_pricing_repr(payload.pricing_mode));
    write_initiator(&mut out, &payload.initiator_addr);
    let n: usize = payload.fields.entries.len();
    write_length(&mut out, n);
    let ghost base = out@;
    let mut i: usize = 0;
    while i < n
        invariant
            n == payload.fields.entries@.len(),
            i <= n,
            out@ == base + spec_fields_items(payload.fields.entries@.take(i as int)),
        decreases n - i,
    {
        let mut index: Vec<u8> = vstd::bytes::u16_to_le_bytes(payload.fields.entries[i].0);
        out.append(&mut index);
        write_byte_string(&mut out, payload.fields.entries[i].1.as_slice());
        proof {
            let next = payload.fields.entries@.take(i + 1);
            assert(next.drop_last() =~= payload.fields.entries@.take(i as int));
            assert(next.last() == payload.fields.entries@[i as int]);
            assert(out@ =~= base + spec_fields_items(next));
        }
        i = i + 1;
    }
    assert(payload.fields.entries@.take(n as int) =~= payload.fields.entries@);
    assert(out@ =~= spec_payload_repr(*payload));
    out
}

/// Names a payload by the digest of its byte representation, and has it signed with the key,
/// where one is given.
pub fn build_transaction(
    chain_name: String,
    timestamp: Timestamp,
    ttl: TimeDiff,
    pricing_mode: PricingMode,
    fields: Fields,
    initiator_addr_and_secret_key: InitiatorAddrAndSecretKey,
) -> (transaction: TransactionV1)
    ensures
        transaction.payload == (TransactionV1Payload {
            chain_name,
            timestamp,
            ttl,
            pricing_mode,
            initiator_addr: initiator_addr_and_secret_key.spec_initiator_addr(),
            fields,
        }),
        transaction.hash.0@ == blake2b_256(spec_payload_repr(transaction.payload)),
        transaction.approvals@ == match initiator_addr_and_secret_key.spec_secret_key() {
            Some(secret_key) => seq![Approval { signer: secret_key.public_key }],
            None => Seq::empty(),
        },
{
    let initiator_addr = initiator_addr_and_secret_key.initiator_addr();
    let payload = TransactionV1Payload {
        chain_name,
        timestamp,
        ttl,
        pricing_mode,
        initiator_addr,
        fields,
    };
    let bytes: Vec<u8> = payload_bytes(&payload);
    let hash: Digest = Digest::hash(bytes.as_slice());
    let mut approvals: Vec<Approval> = Vec::new();
    if let Some(secret_key) = initiator_addr_and_secret_key.secret_key() {
        approvals.push(Approval { signer: secret_key.public_key });
        assert(approvals@ =~= seq![Approval { signer: secret_key.public_key }]);
    }
    TransactionV1 { hash: TransactionHash(hash), payload, approvals }
}

/// A builder for constructing `TransactionV1` instances with various configuration options.
///
/// The `TransactionV1Builder` provides a flexible API for specifying different transaction
/// parameters like the target, scheduling, entry point, and signing options. Once all the required
/// fields are set, the transaction can be built by calling [`build`](Self::build).
#[derive(Clone, Debug, PartialEq, Eq)]
pub struct TransactionV1Builder {
    /// Arguments passed to the transaction's runtime.
    pub args: TransactionArgs,
    /// The target of the transaction (e.g., native).
    pub target: TransactionTarget,
    /// Defines how the transaction is scheduled (e.g., standard, immediate).
    pub scheduling: TransactionScheduling,
    /// Specifies the entry point of the transaction (e.g., transfer).
    pub entry_point: TransactionEntryPoint,
    /// The name of the blockchain where the transaction will be executed.
    pub chain_name: Option<String>,
    /// The timestamp of the transaction.
    pub timestamp: Timestamp,
    /// The time-to-live for the transaction, representing how long it's valid for execution.
    pub ttl: TimeDiff,
    /// The pricing mode used for the transaction's execution cost.
    pub pricing_mode: PricingMode,
    /// The address of the transaction initiator.
    pub initiator_addr: Option<InitiatorAddr>,
    /// The secret key used for signing the transaction.
    pub secret_key: Option<SecretKey>,
    /// Approvals that are added as they are, after the transaction is signed.
    pub invalid_approvals: Vec<Approval>,
    /// Fields that are put in place of, or beside, those that the builder makes.
    pub additional_fields: Vec<(u16, Vec<u8>)>,
}

/// The default pricing mode for v1 transactions, ie FIXED cost.
pub open spec fn spec_default_pricing_mode() -> PricingMode {
    PricingMode::Fixed { gas_price_tolerance: 5, additional_computation_factor: 0 }
}

/// The default pricing mode for v1 transactions, ie FIXED cost.
pub fn default_pricing_mode() -> (mode: PricingMode)
    ensures
        mode == spec_default_pricing_mode(),
{
    PricingMode::Fixed { gas_price_tolerance: 5, additional_computation_factor: 0 }
}

/// The first of the four fields of the builder that has no byte representation, where one has
/// none.
pub open spec fn spec_unserializable_field(builder: TransactionV1Builder) -> Option<u16> {
    if spec_args_repr(builder.args) is None {
        Some(ARGS_FIELD_INDEX)
    } else if spec_target_repr(builder.target) is None {
        Some(TARGET_FIELD_INDEX)
    } else if spec_entry_point_repr(builder.entry_point) is None {
        Some(ENTRY_POINT_FIELD_INDEX)
    } else {
        None
    }
}

/// The bytes that the builder makes for the field at the place `index`.
pub open spec fn spec_made_field(builder: TransactionV1Builder, index: u16) -> Option<Seq<u8>> {
    if index == ARGS_FIELD_INDEX {
        spec_args_repr(builder.args)
    } else if index == TARGET_FIELD_INDEX {
        spec_target_repr(builder.target)
    } else if index == ENTRY_POINT_FIELD_INDEX {
        spec_entry_point_repr(builder.entry_point)
    } else if index == SCHEDULING_FIELD_INDEX {
        Some(spec_scheduling_repr(builder.scheduling))
    } else {
        None
    }
}

/// The bytes of the last of `additional` for the place `index`, where there is one.
pub open spec fn spec_additional_field(additional: Seq<(u16, Vec<u8>)>, index: u16) -> Option<
    Seq<u8>,
>
    decreases additional.len(),
{
    if additional.len() == 0 {
        None
    } else if additional.last().0 == index {
        Some(additional.last().1@)
    } else {
        spec_additional_field(additional.drop_last(), index)
    }
}

/// The bytes of the field at the place `index` of the transaction that the builder builds: an
/// additional field where there is one for the place, else the field that the builder makes.
pub open spec fn spec_built_field(builder: TransactionV1Builder, index: u16) -> Option<Seq<u8>> {
    match spec_additional_field(builder.additional_fields@, index) {
        Some(bytes) => Some(bytes),
        None => spec_made_field(builder, index),
    }
}

/// The error that building ends with, where it ends with one: the initiator is missing where
/// neither it nor a key is given; else the chain's name is missing; else the first field
/// without a byte representation could not be serialized.
pub open spec fn spec_build_error(builder: TransactionV1Builder) -> Option<
    TransactionV1BuilderError,
> {
    if builder.initiator_addr is None && builder.secret_key is None {
        Some(TransactionV1BuilderError::MissingInitiatorAddr)
    } else if builder.chain_name is None {
        Some(TransactionV1BuilderError::MissingChainName)
    } else {
        match spec_unserializable_field(builder) {
            Some(field_index) => Some(
                TransactionV1BuilderError::CouldNotSerializeField { field_index },
            ),
            None => None,
        }
    }
}

/// The initiator of the transaction that the builder builds.
pub open spec fn spec_built_initiator(builder: TransactionV1Builder) -> InitiatorAddr {
    match (builder.initiator_addr, builder.secret_key) {
        (Some(initiator_addr), _) => initiator_addr,
        (None, Some(secret_key)) => InitiatorAddr::PublicKey(secret_key.public_key),
        (None, None) => InitiatorAddr::PublicKey(PublicKey::System),
    }
}

/// The approvals of the transaction that the builder builds: that of the key, where one is
/// given, then those added as they are.
pub open spec fn spec_built_approvals(builder: TransactionV1Builder) -> Seq<Approval> {
    (match builder.secret_key {
        Some(secret_key) => seq![Approval { signer: secret_key.public_key }],
        None => Seq::empty(),
    }) + builder.invalid_approvals@
}

fn named(name: &str, value: Vec<u8>) -> (arg: NamedArg)
    ensures
        arg.name@ == name@,
        arg.value == value,
{
    NamedArg { name: name.to_owned(), value }
}

impl TransactionV1Builder {
    /// Creates a new `TransactionV1Builder` instance with default settings, for a transaction
    /// made at the time `timestamp`.
    ///
    /// Before calling [`build`](Self::build), a chain name must be given, and an initiator
    /// address or a secret key. The builder starts out as one of a native transfer without
    /// arguments, with standard scheduling, the default time-to-live and the default pricing
    /// mode.
    pub fn new(timestamp: Timestamp) -> (builder: TransactionV1Builder)
        ensures
            builder.args matches TransactionArgs::Named(args) && args.args@.len() == 0,
            builder.entry_point == TransactionEntryPoint::Transfer,
            builder.target == TransactionTarget::Native,
            builder.scheduling == TransactionScheduling::Standard,
            builder.chain_name is None,
            builder.timestamp == timestamp,
            builder.ttl == TimeDiff(DEFAULT_TTL_MILLIS),
            builder.pricing_mode == spec_default_pricing_mode(),
            builder.initiator_addr is None,
            builder.secret_key is None,
            builder.invalid_approvals@.len() == 0,
            builder.additional_fields@.len() == 0,
    {
        TransactionV1Builder {
            args: TransactionArgs::Named(RuntimeArgs::new()),
            entry_point: TransactionEntryPoint::Transfer,
            target: TransactionTarget::Native,
            scheduling: TransactionScheduling::Standard,
            chain_name: None,
            timestamp,
            ttl: TimeDiff::from_millis(DEFAULT_TTL_MILLIS),
            pricing_mode: default_pricing_mode(),
            initiator_addr: None,
            secret_key: None,
            invalid_approvals: Vec::new(),
            additional_fields: Vec::new(),
        }
    }

    fn native(timestamp: Timestamp, args: RuntimeArgs, entry_point: TransactionEntryPoint) -> (builder:
        TransactionV1Builder)
        ensures
            builder.args == TransactionArgs::Named(args),
            builder.entry_point == entry_point,
            builder.target == TransactionTarget::Native,
            builder.scheduling == TransactionScheduling::Standard,
            builder.chain_name is None,
            builder.timestamp == timestamp,
            builder.initiator_addr is None,
            builder.secret_key is None,
    {
        let mut builder = TransactionV1Builder::new(timestamp);
        builder.args = TransactionArgs::Named(args);
        builder.target = TransactionTarget::Native;
        builder.entry_point = entry_point;
        builder.scheduling = TransactionScheduling::Standard;
        builder
    }

    /// Returns a new `TransactionV1Builder` suitable for building a native transfer transaction.
    ///
    /// Its arguments are the source, where one is given, the target, the amount, and the id,
    /// where one is given.
    pub fn new_transfer(
        timestamp: Timestamp,
        amount: Motes,
        maybe_source: Option<URef>,
        target: TransferTarget,
        maybe_id: Option<u64>,
    ) -> (builder: TransactionV1Builder)
        ensures
            builder.entry_point == TransactionEntryPoint::Transfer,
            builder.target == TransactionTarget::Native,
            builder.scheduling == TransactionScheduling::Standard,
            builder.timestamp == timestamp,
            builder.args matches TransactionArgs::Named(args) && args.args@.len() == 2 + (
            if maybe_source is Some {
                1int
            } else {
                0int
            }) + (if maybe_id is Some {
                1int
            } else {
                0int
            }),
    {
        let mut args = RuntimeArgs::new();
        if let Some(source) = maybe_source {
            args.args.push(named("source", uref_value(&source)));
        }
        args.args.push(named("target", transfer_target_value(&target)));
        args.args.push(named("amount", amount_value(amount)));
        if let Some(id) = maybe_id {
            args.args.push(named("id", optional_u64_value(Some(id))));
        }
        Self::native(timestamp, args, TransactionEntryPoint::Transfer)
    }

    /// Returns a new `TransactionV1Builder` suitable for building a native add_bid transaction.
    pub fn new_add_bid(
        timestamp: Timestamp,
        public_key: PublicKey,
        delegation_rate: u8,
        amount: Motes,
        minimum_delegation_amount: Option<u64>,
        maximum_delegation_amount: Option<u64>,
        reserved_slots: Option<u32>,
    ) -> (builder: TransactionV1Builder)
        ensures
            builder.entry_point == TransactionEntryPoint::AddBid,
            builder.target == TransactionTarget::Native,
            builder.scheduling == TransactionScheduling::Standard,
            builder.timestamp == timestamp,
            builder.args matches TransactionArgs::Named(args) && args.args@.len() == 3 + (
            if minimum_delegation_amount is Some {
                1int
            } else {
                0int
            }) + (if maximum_delegation_amount is Some {
                1int
            } else {
                0int
            }) + (if reserved_slots is Some {
                1int
            } else {
                0int
            }),
    {
        let mut args = RuntimeArgs::new();
        args.args.push(named("public_key", key_value(&public_key)));
        let mut rate: Vec<u8> = Vec::new();
        rate.push(delegation_rate);
        args.args.push(named("delegation_rate", rate));
        args.args.push(named("amount", amount_value(amount)));
        if let Some(minimum) = minimum_delegation_amount {
            args.args.push(named("minimum_delegation_amount", vstd::bytes::u64_to_le_bytes(minimum)));
        }
        if let Some(maximum) = maximum_delegation_amount {
            args.args.push(named("maximum_delegation_amount", vstd::bytes::u64_to_le_bytes(maximum)));
        }
        if let Some(slots) = reserved_slots {
            args.args.push(named("reserved_slots", vstd::bytes::u32_to_le_bytes(slots)));
        }
        Self::native(timestamp, args, TransactionEntryPoint::AddBid)
    }

    /// Returns a new `TransactionV1Builder` suitable for building a native withdraw_bid
    /// transaction.
    pub fn new_withdraw_bid(timestamp: Timestamp, public_key: PublicKey, amount: Motes) -> (builder:
        TransactionV1Builder)
        ensures
            builder.entry_point == TransactionEntryPoint::WithdrawBid,
            builder.target == TransactionTarget::Native,
            builder.scheduling == TransactionScheduling::Standard,
            builder.timestamp == timestamp,
            builder.args matches TransactionArgs::Named(args) && args.args@.len() == 2,
    {
        let mut args = RuntimeArgs::new();
        args.args.push(named("public_key", key_value(&public_key)));
        args.args.push(named("amount", amount_value(amount)));
        Self::native(timestamp, args, TransactionEntryPoint::WithdrawBid)
    }

    /// Returns a new `TransactionV1Builder` suitable for building a native delegate transaction.
    pub fn new_delegate(
        timestamp: Timestamp,
        delegator: PublicKey,
        validator: PublicKey,
        amount: Motes,
    ) -> (builder: TransactionV1Builder)
        ensures
            builder.entry_point == TransactionEntryPoint::Delegate,
            builder.target == TransactionTarget::Native,
            builder.scheduling == TransactionScheduling::Standard,
            builder.timestamp == timestamp,
            builder.args matches TransactionArgs::Named(args) && args.args@.len() == 3,
    {
        let mut args = RuntimeArgs::new();
        args.args.push(named("delegator", key_value(&delegator)));
        args.args.push(named("validator", key_value(&validator)));
        args.args.push(named("amount", amount_value(amount)));
        Self::native(timestamp, args, TransactionEntryPoint::Delegate)
    }

    /// Returns a new `TransactionV1Builder` suitable for building a native undelegate transaction.
    pub fn new_undelegate(
        timestamp: Timestamp,
        delegator: PublicKey,
        validator: PublicKey,
        amount: Motes,
    ) -> (builder: TransactionV1Builder)
        ensures
            builder.entry_point == TransactionEntryPoint::Undelegate,
            builder.target == TransactionTarget::Native,
            builder.scheduling == TransactionScheduling::Standard,
            builder.timestamp == timestamp,
            builder.args matches TransactionArgs::Named(args) && args.args@.len() == 3,
    {
        let mut args = RuntimeArgs::new();
        args.args.push(named("delegator", key_value(&delegator)));
        args.args.push(named("validator", key_value(&validator)));
        args.args.push(named("amount", amount_value(amount)));
        Self::native(timestamp, args, TransactionEntryPoint::Undelegate)
    }

    fn new_targeting_stored(
        timestamp: Timestamp,
        id: TransactionInvocationTarget,
        entry_point: String,
        runtime: TransactionRuntime,
        transferred_value: u64,
    ) -> (builder: TransactionV1Builder)
        ensures
            builder.target == (TransactionTarget::Stored { id, runtime, transferred_value }),
            builder.entry_point == TransactionEntryPoint::Custom(entry_point),
            builder.scheduling == TransactionScheduling::Standard,
            builder.timestamp == timestamp,
            builder.args matches TransactionArgs::Named(args) && args.args@.len() == 0,
    {
        let target = TransactionTarget::Stored { id, runtime, transferred_value };
        let mut builder = TransactionV1Builder::new(timestamp);
        builder.args = TransactionArgs::Named(RuntimeArgs::new());
        builder.target = target;
        builder.entry_point = TransactionEntryPoint::Custom(entry_point);
        builder.scheduling = TransactionScheduling::Standard;
        builder
    }

    /// Returns a new `TransactionV1Builder` suitable for building a transaction targeting a stored
    /// entity.
    pub fn new_targeting_invocable_entity(
        timestamp: Timestamp,
        hash: [u8; 32],
        entry_point: String,
        runtime: TransactionRuntime,
        transferred_value: u64,
    ) -> (builder: TransactionV1Builder)
        ensures
            builder.target == (TransactionTarget::Stored {
                id: TransactionInvocationTarget::ByHash(hash),
                runtime,
                transferred_value,
            }),
            builder.entry_point == TransactionEntryPoint::Custom(entry_point),
            builder.timestamp == timestamp,
    {
        let id = TransactionInvocationTarget::new_invocable_entity(hash);
        Self::new_targeting_stored(timestamp, id, entry_point, runtime, transferred_value)
    }

    /// Returns a new `TransactionV1Builder` suitable for building a transaction targeting a stored
    /// entity via its alias.
    pub fn new_targeting_invocable_entity_via_alias(
        timestamp: Timestamp,
        alias: String,
        entry_point: String,
        runtime: TransactionRuntime,
        transferred_value: u64,
    ) -> (builder: TransactionV1Builder)
        ensures
            builder.target == (TransactionTarget::Stored {
                id: TransactionInvocationTarget::ByName(alias),
                runtime,
                transferred_value,
            }),
            builder.entry_point == TransactionEntryPoint::Custom(entry_point),
            builder.timestamp == timestamp,
    {
        let id = TransactionInvocationTarget::new_invocable_entity_alias(alias);
        Self::new_targeting_stored(timestamp, id, entry_point, runtime, transferred_value)
    }

    /// Returns a new `TransactionV1Builder` suitable for building a transaction targeting a
    /// package.
    pub fn new_targeting_package(
        timestamp: Timestamp,
        hash: [u8; 32],
        version: Option<u32>,
        entry_point: String,
        runtime: TransactionRuntime,
        transferred_value: u64,
    ) -> (builder: TransactionV1Builder)
        ensures
            builder.target == (TransactionTarget::Stored {
                id: TransactionInvocationTarget::ByPackageHash { addr: hash, version },
                runtime,
                transferred_value,
            }),
            builder.entry_point == TransactionEntryPoint::Custom(entry_point),
            builder.timestamp == timestamp,
    {
        let id = TransactionInvocationTarget::new_package(hash, version);
        Self::new_targeting_stored(timestamp, id, entry_point, runtime, transferred_value)
    }

    /// Returns a new `TransactionV1Builder` suitable for building a transaction targeting a
    /// package via its alias.
    pub fn new_targeting_package_via_alias(
        timestamp: Timestamp,
        alias: String,
        version: Option<u32>,
        entry_point: String,
        runtime: TransactionRuntime,
        transferred_value: u64,
    ) -> (builder: TransactionV1Builder)
        ensures
            builder.target == (TransactionTarget::Stored {
                id: TransactionInvocationTarget::ByPackageName { name: alias, version },
                runtime,
                transferred_value,
            }),
            builder.entry_point == TransactionEntryPoint::Custom(entry_point),
            builder.timestamp == timestamp,
    {
        let id = TransactionInvocationTarget::new_package_alias(alias, version);
        Self::new_targeting_stored(timestamp, id, entry_point, runtime, transferred_value)
    }

    /// Returns a new `TransactionV1Builder` suitable for building a transaction for running session
    /// logic, i.e. compiled Wasm.
    pub fn new_session(
        timestamp: Timestamp,
        is_install_upgrade: bool,
        module_bytes: Vec<u8>,
        runtime: TransactionRuntime,
        transferred_value: u64,
        seed: Option<[u8; 32]>,
    ) -> (builder: TransactionV1Builder)
        ensures
            builder.target == (TransactionTarget::Session {
                is_install_upgrade,
                module_bytes,
                runtime,
                transferred_value,
                seed,
            }),
            builder.entry_point == TransactionEntryPoint::Call,
            builder.scheduling == TransactionScheduling::Standard,
            builder.timestamp == timestamp,
            builder.args matches TransactionArgs::Named(args) && args.args@.len() == 0,
    {
        let target = TransactionTarget::Session {
            is_install_upgrade,
            module_bytes,
            runtime,
            transferred_value,
            seed,
        };
        let mut builder = TransactionV1Builder::new(timestamp);
        builder.args = TransactionArgs::Named(RuntimeArgs::new());
        builder.target = target;
        builder.entry_point = TransactionEntryPoint::Call;
        builder.scheduling = TransactionScheduling::Standard;
        builder
    }

    /// Returns a new `TransactionV1Builder` which will build a random, valid but possibly expired
    /// transaction.
    ///
    /// Drawn from `rng` are the key to sign with, whose owner is the initiator; the
    /// time-to-live, of at least a minute and less than [`MAX_TTL_MILLIS`]; the timestamp; the
    /// chain name, of five to nine letters; the operation of the system that is called; the
    /// scheduling; and up to four arguments, each with a name of two to seven letters.
    pub fn new_random(rng: &mut rand::rngs::StdRng) -> (builder: TransactionV1Builder)
        ensures
            builder.chain_name matches Some(name) && 5 <= name@.len() < 10,
            builder.secret_key matches Some(secret_key) && builder.initiator_addr == Some(
                InitiatorAddr::PublicKey(secret_key.public_key),
            ),
            60_000 <= builder.ttl.0 < MAX_TTL_MILLIS,
            builder.pricing_mode == spec_default_pricing_mode(),
            builder.target == TransactionTarget::Native,
            exists|draw: u32| builder.entry_point == spec_drawn_entry_point(draw),
            exists|kind: u32, value: u64| builder.scheduling == spec_drawn_scheduling(kind, value),
            builder.args matches TransactionArgs::Named(named) && named.args@.len() < 5
                && spec_all_fit(named.args@),
            builder.invalid_approvals@.len() == 0,
            builder.additional_fields@.len() == 0,
            spec_build_error(builder) is None,
    {
        let mut key: [u8; 32] = [0u8; 32];
        let mut i: usize = 0;
        while i < 32
            invariant
                i <= 32,
            decreases 32 - i,
        {
            key[i] = (random_u32(rng) % 256) as u8;
            i = i + 1;
        }
        let secret_key = SecretKey { public_key: PublicKey::Ed25519(key) };
        let ttl_millis: u64 = 60_000 + random_u64(rng) % (MAX_TTL_MILLIS - 60_000);
        let letters: u32 = 5 + random_u32(rng) % 5;
        let chain_name: String = drawn_text(&drawn_numbers(rng, letters));
        let timestamp: u64 = random_u64(rng);
        let entry_point_draw: u32 = random_u32(rng);
        let entry_point: TransactionEntryPoint = drawn_entry_point(entry_point_draw);
        let kind: u32 = random_u32(rng);
        let value: u64 = random_u64(rng);
        let scheduling: TransactionScheduling = drawn_scheduling(kind, value);
        let count: u32 = random_u32(rng) % 5;
        let mut args: Vec<NamedArg> = Vec::new();
        let mut n: u32 = 0;
        while n < count
            invariant
                n <= count < 5,
                args@.len() <= n,
                spec_all_fit(args@),
            decreases count - n,
        {
            let letters: u32 = 2 + random_u32(rng) % 6;
            let arg: NamedArg = drawn_arg(&drawn_numbers(rng, letters), random_u64(rng));
            // A name of a few letters and a value of eight bytes always fit.
            let fits: bool = arg.name.as_str().as_bytes().len() <= MAX_FIELD_STRING
                && arg.value.len() <= MAX_FIELD_STRING;
            if fits {
                let ghost before = args@;
                args.push(arg);
                assert forall|k: int| 0 <= k < args@.len() implies spec_arg_fits(
                    #[trigger] args@[k],
                ) by {
                    if k < before.len() {
                        assert(args@[k] == before[k]);
                    }
                }
            }
            n = n + 1;
        }
        let builder = TransactionV1Builder {
            chain_name: Some(chain_name),
            timestamp: Timestamp(timestamp),
            ttl: TimeDiff::from_millis(ttl_millis),
            args: TransactionArgs::Named(RuntimeArgs { args }),
            target: TransactionTarget::Native,
            entry_point,
            scheduling,
            pricing_mode: default_pricing_mode(),
            initiator_addr: Some(InitiatorAddr::PublicKey(secret_key.public_key)),
            secret_key: Some(secret_key),
            invalid_approvals: Vec::new(),
            additional_fields: Vec::new(),
        };
        assert(builder.entry_point == spec_drawn_entry_point(entry_point_draw));
        assert(builder.scheduling == spec_drawn_scheduling(kind, value));
        builder
    }

    /// Sets the `chain_name` in the transaction.
    ///
    /// Must be provided or building will fail.
    pub fn with_chain_name(self, chain_name: String) -> (builder: TransactionV1Builder)
        ensures
            builder == (TransactionV1Builder { chain_name: Some(chain_name), ..self }),
    {
        let mut builder = self;
        builder.chain_name = Some(chain_name);
        builder
    }

    /// Sets the `timestamp` in the transaction.
    ///
    /// If not provided, the timestamp will be set to the time when the builder was constructed.
    pub fn with_timestamp(self, timestamp: Timestamp) -> (builder: TransactionV1Builder)
        ensures
            builder == (TransactionV1Builder { timestamp, ..self }),
    {
        let mut builder = self;
        builder.timestamp = timestamp;
        builder
    }

    /// Sets the `ttl` (time-to-live) in the transaction.
    ///
    /// If not provided, the ttl will be set to the default of 30 minutes.
    pub fn with_ttl(self, ttl: TimeDiff) -> (builder: TransactionV1Builder)
        ensures
            builder == (TransactionV1Builder { ttl, ..self }),
    {
        let mut builder = self;
        builder.ttl = ttl;
        builder
    }

    /// Sets the `pricing_mode` in the transaction.
    ///
    /// If not provided, the pricing mode will be set to the default.
    pub fn with_pricing_mode(self, pricing_mode: PricingMode) -> (builder: TransactionV1Builder)
        ensures
            builder == (TransactionV1Builder { pricing_mode, ..self }),
    {
        let mut builder = self;
        builder.pricing_mode = pricing_mode;
        builder
    }

    /// Sets the `initiator_addr` in the transaction.
    ///
    /// If not provided, the public key derived from the secret key used in the builder will be
    /// used as the `InitiatorAddr::PublicKey` in the transaction.
    pub fn with_initiator_addr(self, initiator_addr: InitiatorAddr) -> (builder:
        TransactionV1Builder)
        ensures
            builder == (TransactionV1Builder { initiator_addr: Some(initiator_addr), ..self }),
    {
        let mut builder = self;
        builder.initiator_addr = Some(initiator_addr);
        builder
    }

    /// Sets the secret key used to sign the transaction on calling [`build`](Self::build).
    ///
    /// If not provided, the transaction can still be built, but will be unsigned and will be
    /// invalid until subsequently signed.
    pub fn with_secret_key(self, secret_key: &SecretKey) -> (builder: TransactionV1Builder)
        ensures
            builder == (TransactionV1Builder { secret_key: Some(*secret_key), ..self }),
    {
        let mut builder = self;
        builder.secret_key = Some(*secret_key);
        builder
    }

    /// Manually sets additional fields
    pub fn with_additional_fields(self, additional_fields: Vec<(u16, Vec<u8>)>) -> (builder:
        TransactionV1Builder)
        ensures
            builder == (TransactionV1Builder { additional_fields, ..self }),
    {
        let mut builder = self;
        builder.additional_fields = additional_fields;
        builder
    }

    /// Sets the runtime args in the transaction.
    ///
    /// NOTE: this overwrites any existing runtime args.
    pub fn with_runtime_args(self, args: RuntimeArgs) -> (builder: TransactionV1Builder)
        ensures
            builder == (TransactionV1Builder { args: TransactionArgs::Named(args), ..self }),
    {
        let mut builder = self;
        builder.args = TransactionArgs::Named(args);
        builder
    }

    /// Returns the new transaction, or an error if non-defaulted fields were not set.
    ///
    /// For more info, see [the `TransactionBuilder` documentation](TransactionV1Builder).
    pub fn build(self) -> (r: Result<TransactionV1, TransactionV1BuilderError>)
        ensures
            match r {
                Err(error) => spec_build_error(self) == Some(error),
                Ok(transaction) => {
                    &&& spec_build_error(self) is None
                    &&& Some(transaction.payload.chain_name) == self.chain_name
                    &&& transaction.payload.timestamp == self.timestamp
                    &&& transaction.payload.ttl == self.ttl
                    &&& transaction.payload.pricing_mode == self.pricing_mode
                    &&& transaction.payload.initiator_addr == spec_built_initiator(self)
                    &&& transaction.payload.fields.wf()
                    &&& forall|index: u16|
                        transaction.payload.fields.spec_get(index) == spec_built_field(self, index)
                    &&& transaction.hash.0@ == blake2b_256(spec_payload_repr(transaction.payload))
                    &&& transaction.approvals@ == spec_built_approvals(self)
                },
            },
    {
        self.do_build()
    }

    fn do_build(self) -> (r: Result<TransactionV1, TransactionV1BuilderError>)
        ensures
            match r {
                Err(error) => spec_build_error(self) == Some(error),
                Ok(transaction) => {
                    &&& spec_build_error(self) is None
                    &&& Some(transaction.payload.chain_name) == self.chain_name
                    &&& transaction.payload.timestamp == self.timestamp
                    &&& transaction.payload.ttl == self.ttl
                    &&& transaction.payload.pricing_mode == self.pricing_mode
                    &&& transaction.payload.initiator_addr == spec_built_initiator(self)
                    &&& transaction.payload.fields.wf()
                    &&& forall|index: u16|
                        transaction.payload.fields.spec_get(index) == spec_built_field(self, index)
                    &&& transaction.hash.0@ == blake2b_256(spec_payload_repr(transaction.payload))
                    &&& transaction.approvals@ == spec_built_approvals(self)
                },
            },
    {
        let initiator_addr_and_secret_key = match (self.initiator_addr, self.secret_key) {
            (Some(initiator_addr), Some(secret_key)) => InitiatorAddrAndSecretKey::Both {
                initiator_addr,
                secret_key,
            },
            (Some(initiator_addr), None) => InitiatorAddrAndSecretKey::InitiatorAddr(
                initiator_addr,
            ),
            (None, Some(secret_key)) => InitiatorAddrAndSecretKey::SecretKey(secret_key),
            (None, None) => {
                return Err(TransactionV1BuilderError::MissingInitiatorAddr);
            },
        };
        let ghost builder = self;
        let TransactionV1Builder {
            args,
            target,
            scheduling,
            entry_point,
            chain_name,
            timestamp,
            ttl,
            pricing_mode,
            invalid_approvals,
            additional_fields,
            ..
        } = self;
        let chain_name: String = match chain_name {
            Some(chain_name) => chain_name,
            None => {
                return Err(TransactionV1BuilderError::MissingChainName);
            },
        };
        let mut container: Fields = match to_map(&args, &target, &entry_point, scheduling) {
            Ok(container) => container,
            Err(field_index) => {
                return Err(TransactionV1BuilderError::CouldNotSerializeField { field_index });
            },
        };
        let ghost made = container;
        let mut additional_fields = additional_fields;
        let ghost additional = additional_fields@;
        let ghost mut done: int = 0;
        assert(additional.skip(0) =~= additional);
        assert(additional.take(0) =~= Seq::<(u16, Vec<u8>)>::empty());
        while additional_fields.len() > 0
            invariant
                container.wf(),
                0 <= done <= additional.len(),
                additional_fields@ == additional.skip(done),
                forall|index: u16|
                    container.spec_get(index) == match spec_additional_field(
                        additional.take(done),
                        index,
                    ) {
                        Some(bytes) => Some(bytes),
                        None => made.spec_get(index),
                    },
            decreases additional_fields@.len(),
        {
            let entry: (u16, Vec<u8>) = additional_fields.remove(0);
            proof {
                let next = additional.take(done + 1);
                assert(entry == additional[done]);
                assert(next.drop_last() =~= additional.take(done));
                assert(next.last() == entry);
                assert(additional.skip(done).remove(0) =~= additional.skip(done + 1));
            }
            container.insert(entry.0, entry.1);
            proof {
                done = done + 1;
            }
        }
        proof {
            assert(additional.take(additional.len() as int) =~= additional);
        }
        let mut transaction = build_transaction(
            chain_name,
            timestamp,
            ttl,
            pricing_mode,
            container,
            initiator_addr_and_secret_key,
        );
        let mut invalid_approvals = invalid_approvals;
        transaction.approvals.append(&mut invalid_approvals);
        Ok(transaction)
    }
}

/// The four fields that a builder makes, each at its place: the arguments, the target, the
/// entry point and the scheduling; or the place of the first that has no byte representation.
pub fn to_map(
    args: &TransactionArgs,
    target: &TransactionTarget,
    entry_point: &TransactionEntryPoint,
    scheduling: TransactionScheduling,
) -> (r: Result<Fields, u16>)
    ensures
        match r {
            Ok(fields) => {
                &&& fields.wf()
                &&& spec_args_repr(*args) is Some
                &&& spec_target_repr(*target) is Some
                &&& spec_entry_point_repr(*entry_point) is Some
                &&& fields.spec_get(ARGS_FIELD_INDEX) == spec_args_repr(*args)
                &&& fields.spec_get(TARGET_FIELD_INDEX) == spec_target_repr(*target)
                &&& fields.spec_get(ENTRY_POINT_FIELD_INDEX) == spec_entry_point_repr(*entry_point)
                &&& fields.spec_get(SCHEDULING_FIELD_INDEX) == Some(
                    spec_scheduling_repr(scheduling),
                )
                &&& forall|index: u16| index > SCHEDULING_FIELD_INDEX ==> fields.spec_get(index)
                    is None
            },
            Err(index) => {
                if spec_args_repr(*args) is None {
                    index == ARGS_FIELD_INDEX
                } else if spec_target_repr(*target) is None {
                    index == TARGET_FIELD_INDEX
                } else {
                    index == ENTRY_POINT_FIELD_INDEX && spec_entry_point_repr(*entry_point) is None
                }
            },
        },
{
    let args: Vec<u8> = match args_bytes(args) {
        Some(bytes) => bytes,
        None => {
            return Err(ARGS_FIELD_INDEX);
        },
    };
    let target: Vec<u8> = match target_bytes(target) {
        Some(bytes) => bytes,
        None => {
            return Err(TARGET_FIELD_INDEX);
        },
    };
    let entry_point: Vec<u8> = match entry_point_bytes(entry_point) {
        Some(bytes) => bytes,
        None => {
            return Err(ENTRY_POINT_FIELD_INDEX);
        },
    };
    let mut fields = Fields::new();
    assert forall|index: u16| fields.spec_get(index) is None by {}
    fields.insert(ARGS_FIELD_INDEX, args);
    fields.insert(TARGET_FIELD_INDEX, target);
    fields.insert(ENTRY_POINT_FIELD_INDEX, entry_point);
    fields.insert(SCHEDULING_FIELD_INDEX, scheduling_bytes(scheduling));
    Ok(fields)
}

/// As many numbers as `count` says, drawn from `rng` one after the other.
pub fn drawn_numbers(rng: &mut rand::rngs::StdRng, count: u32) -> (draws: Vec<u32>)
    ensures
        draws@.len() == count,
{
    let mut draws: Vec<u32> = Vec::new();
    let mut i: u32 = 0;
    while i < count
        invariant
            i <= count,
            draws@.len() == i,
        decreases count - i,
    {
        draws.push(random_u32(rng));
        i = i + 1;
    }
    draws
}

} // verus!
