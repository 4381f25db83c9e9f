//! The byte representation of execution results tells results apart: two lists of results with
//! the same bytes are the same results in the same order.

use crate::bytesrepr::{spec_byte_string, spec_text};
use crate::contract_runtime::artifact::{ArtifactView, Settlement};
use crate::contract_runtime::checksum::{
    spec_countable, spec_effects_repr, spec_error_countable, spec_error_repr,
    spec_initiator_repr, spec_invalid_tag, spec_key_repr, spec_kind_tag, spec_operation_tag,
    spec_result_repr, spec_results_repr, spec_serialized_results, spec_settlement_repr,
    spec_transform_countable, spec_transform_repr, spec_transforms_repr,
};
use crate::contract_runtime::error::{ArtifactError, InvalidTransaction, Operation};
use crate::contract_runtime::types::TransformView;
use crate::identity::{AccountHash, InitiatorAddr, PublicKey};
use crate::primitives::{Gas, Motes};
use vstd::bytes::{
    lemma_auto_spec_u128_to_from_le_bytes, lemma_auto_spec_u32_to_from_le_bytes,
    lemma_auto_spec_u64_to_from_le_bytes, spec_u128_from_le_bytes, spec_u128_to_le_bytes,
    spec_u32_from_le_bytes, spec_u32_to_le_bytes, spec_u64_from_le_bytes, spec_u64_to_le_bytes,
};
use vstd::prelude::*;

verus! {

/// The error of an artifact as plain values.
pub enum ErrorView {
    InvalidTransaction(InvalidTransaction),
    InsufficientBalance { available: Motes, required: Motes },
    Failed { operation: Operation, reason: Seq<char> },
}

/// The error of an artifact as plain values.
pub open spec fn spec_error_view(error: Option<ArtifactError>) -> Option<ErrorView> {
    match error {
        None => None,
        Some(ArtifactError::InvalidTransaction(reason)) => Some(
            ErrorView::InvalidTransaction(reason),
        ),
        Some(ArtifactError::InsufficientBalance { available, required }) => Some(
            ErrorView::InsufficientBalance { available, required },
        ),
        Some(ArtifactError::Failed { operation, reason }) => Some(
            ErrorView::Failed { operation, reason: reason@ },
        ),
    }
}

/// What of an artifact is the result of execution: all of it but the hash of the transaction
/// and the messages.
pub struct ResultView {
    pub initiator: InitiatorAddr,
    pub error: Option<ErrorView>,
    pub gas_limit: Gas,
    pub consumed: Gas,
    pub cost: Motes,
    pub settlement: Option<Settlement>,
    pub effects: Seq<TransformView>,
}

/// The result of execution that an artifact holds.
pub open spec fn spec_result_view(artifact: ArtifactView) -> ResultView {
    ResultView {
        initiator: artifact.initiator,
        error: spec_error_view(artifact.error),
        gas_limit: artifact.gas_limit,
        consumed: artifact.consumed,
        cost: artifact.cost,
        settlement: artifact.settlement,
        effects: artifact.effects,
    }
}

proof fn lemma_split(a1: Seq<u8>, r1: Seq<u8>, a2: Seq<u8>, r2: Seq<u8>)
    requires
        a1.len() == a2.len(),
        a1 + r1 == a2 + r2,
    ensures
        a1 == a2,
        r1 == r2,
{
    let n = a1.len() as int;
    assert((a1 + r1).subrange(0, n) =~= a1);
    assert((a2 + r2).subrange(0, n) =~= a2);
    assert((a1 + r1).skip(n) =~= r1);
    assert((a2 + r2).skip(n) =~= r2);
}

proof fn lemma_u64_apart(a: u64, r1: Seq<u8>, b: u64, r2: Seq<u8>)
    requires
        spec_u64_to_le_bytes(a) + r1 == spec_u64_to_le_bytes(b) + r2,
    ensures
        a == b,
        r1 == r2,
{
    lemma_auto_spec_u64_to_from_le_bytes();
    lemma_split(spec_u64_to_le_bytes(a), r1, spec_u64_to_le_bytes(b), r2);
    assert(spec_u64_from_le_bytes(spec_u64_to_le_bytes(a)) == a);
    assert(spec_u64_from_le_bytes(spec_u64_to_le_bytes(b)) == b);
}

proof fn lemma_u32_apart(a: u32, r1: Seq<u8>, b: u32, r2: Seq<u8>)
    requires
        spec_u32_to_le_bytes(a) + r1 == spec_u32_to_le_bytes(b) + r2,
    ensures
        a == b,
        r1 == r2,
{
    lemma_auto_spec_u32_to_from_le_bytes();
    lemma_split(spec_u32_to_le_bytes(a), r1, spec_u32_to_le_bytes(b), r2);
    assert(spec_u32_from_le_bytes(spec_u32_to_le_bytes(a)) == a);
    assert(spec_u32_from_le_bytes(spec_u32_to_le_bytes(b)) == b);
}

proof fn lemma_u128_apart(a: u128, r1: Seq<u8>, b: u128, r2: Seq<u8>)
    requires
        spec_u128_to_le_bytes(a) + r1 == spec_u128_to_le_bytes(b) + r2,
    ensures
        a == b,
        r1 == r2,
{
    lemma_auto_spec_u128_to_from_le_bytes();
    lemma_split(spec_u128_to_le_bytes(a), r1, spec_u128_to_le_bytes(b), r2);
    assert(spec_u128_from_le_bytes(spec_u128_to_le_bytes(a)) == a);
    assert(spec_u128_from_le_bytes(spec_u128_to_le_bytes(b)) == b);
}

proof fn lemma_byte_apart(a: u8, r1: Seq<u8>, b: u8, r2: Seq<u8>)
    requires
        seq![a] + r1 == seq![b] + r2,
    ensures
        a == b,
        r1 == r2,
{
    lemma_split(seq![a], r1, seq![b], r2);
    assert(seq![a][0] == seq![b][0]);
}

proof fn lemma_string_apart(a: Seq<u8>, r1: Seq<u8>, b: Seq<u8>, r2: Seq<u8>)
    requires
        a.len() <= u64::MAX,
        b.len() <= u64::MAX,
        spec_byte_string(a) + r1 == spec_byte_string(b) + r2,
    ensures
        a == b,
        r1 == r2,
{
    assert(spec_byte_string(a) + r1 =~= spec_u64_to_le_bytes(a.len() as u64) + (a + r1));
    assert(spec_byte_string(b) + r2 =~= spec_u64_to_le_bytes(b.len() as u64) + (b + r2));
    lemma_u64_apart(a.len() as u64, a + r1, b.len() as u64, b + r2);
    lemma_split(a, r1, b, r2);
}

proof fn lemma_text_apart(a: Seq<char>, r1: Seq<u8>, b: Seq<char>, r2: Seq<u8>)
    requires
        vstd::utf8::encode_utf8(a).len() <= u64::MAX,
        vstd::utf8::encode_utf8(b).len() <= u64::MAX,
        spec_text(a) + r1 == spec_text(b) + r2,
    ensures
        a == b,
        r1 == r2,
{
    lemma_string_apart(vstd::utf8::encode_utf8(a), r1, vstd::utf8::encode_utf8(b), r2);
    vstd::utf8::encode_utf8_decode_utf8(a);
    vstd::utf8::encode_utf8_decode_utf8(b);
}

proof fn lemma_key_apart(a: PublicKey, r1: Seq<u8>, b: PublicKey, r2: Seq<u8>)
    requires
        spec_key_repr(a) + r1 == spec_key_repr(b) + r2,
    ensures
        a == b,
        r1 == r2,
{
    let bytes_a = crate::identity::spec_key_bytes(a);
    let bytes_b = crate::identity::spec_key_bytes(b);
    let tag_a = crate::contract_runtime::checksum::spec_key_tag(a);
    let tag_b = crate::contract_runtime::checksum::spec_key_tag(b);
    assert(spec_key_repr(a) + r1 =~= seq![tag_a] + (bytes_a + r1));
    assert(spec_key_repr(b) + r2 =~= seq![tag_b] + (bytes_b + r2));
    lemma_byte_apart(tag_a, bytes_a + r1, tag_b, bytes_b + r2);
    lemma_split(bytes_a, r1, bytes_b, r2);
    match (a, b) {
        (PublicKey::Ed25519(x), PublicKey::Ed25519(y)) => {
            assert(x =~= y);
        },
        (PublicKey::Secp256k1(x), PublicKey::Secp256k1(y)) => {
            assert(x =~= y);
        },
        _ => {},
    }
}

proof fn lemma_initiator_apart(a: InitiatorAddr, r1: Seq<u8>, b: InitiatorAddr, r2: Seq<u8>)
    requires
        spec_initiator_repr(a) + r1 == spec_initiator_repr(b) + r2,
    ensures
        a == b,
        r1 == r2,
{
    let body = |x: InitiatorAddr|
        match x {
            InitiatorAddr::PublicKey(key) => spec_key_repr(key),
            InitiatorAddr::AccountHash(hash) => hash.0@,
        };
    let tag = |x: InitiatorAddr|
        match x {
            InitiatorAddr::PublicKey(_) => 0u8,
            InitiatorAddr::AccountHash(_) => 1u8,
        };
    assert(spec_initiator_repr(a) + r1 =~= seq![tag(a)] + (body(a) + r1));
    assert(spec_initiator_repr(b) + r2 =~= seq![tag(b)] + (body(b) + r2));
    lemma_byte_apart(tag(a), body(a) + r1, tag(b), body(b) + r2);
    match (a, b) {
        (InitiatorAddr::PublicKey(x), InitiatorAddr::PublicKey(y)) => {
            lemma_key_apart(x, r1, y, r2);
        },
        (InitiatorAddr::AccountHash(x), InitiatorAddr::AccountHash(y)) => {
            lemma_split(x.0@, r1, y.0@, r2);
            assert(x.0 =~= y.0);
        },
        _ => {},
    }
}

proof fn lemma_operation_apart(a: Operation, b: Operation)
    requires
        spec_operation_tag(a) == spec_operation_tag(b),
    ensures
        a == b,
{
}

proof fn lemma_invalid_apart(a: InvalidTransaction, b: InvalidTransaction)
    requires
        spec_invalid_tag(a) == spec_invalid_tag(b),
    ensures
        a == b,
{
}

/// The byte that stands for the kind of an error.
pub open spec fn spec_error_kind(error: ArtifactError) -> u8 {
    match error {
        ArtifactError::InvalidTransaction(_) => 0,
        ArtifactError::InsufficientBalance { .. } => 1,
        ArtifactError::Failed { .. } => 2,
    }
}

/// What follows the kind in the byte representation of an error.
pub open spec fn spec_error_payload(error: ArtifactError) -> Seq<u8> {
    match error {
        ArtifactError::InvalidTransaction(reason) => seq![spec_invalid_tag(reason)],
        ArtifactError::InsufficientBalance { available, required } => spec_u128_to_le_bytes(
            available.0,
        ) + spec_u128_to_le_bytes(required.0),
        ArtifactError::Failed { operation, reason } => seq![spec_operation_tag(operation)]
            + spec_text(reason@),
    }
}

proof fn lemma_error_layout(error: ArtifactError, rest: Seq<u8>)
    ensures
        spec_error_repr(Some(error)) + rest == seq![1u8] + (seq![spec_error_kind(error)] + (
        spec_error_payload(error) + rest)),
{
    assert(spec_error_repr(Some(error)) + rest =~= seq![1u8] + (seq![spec_error_kind(error)] + (
    spec_error_payload(error) + rest)));
}

proof fn lemma_payload_apart(x: ArtifactError, r1: Seq<u8>, y: ArtifactError, r2: Seq<u8>)
    requires
        spec_error_countable(Some(x)),
        spec_error_countable(Some(y)),
        spec_error_kind(x) == spec_error_kind(y),
        spec_error_payload(x) + r1 == spec_error_payload(y) + r2,
    ensures
        spec_error_view(Some(x)) == spec_error_view(Some(y)),
        r1 == r2,
{
    match (x, y) {
        (ArtifactError::InvalidTransaction(p), ArtifactError::InvalidTransaction(q)) => {
            lemma_byte_apart(spec_invalid_tag(p), r1, spec_invalid_tag(q), r2);
            lemma_invalid_apart(p, q);
        },
        (
            ArtifactError::InsufficientBalance { available: had, required: due },
            ArtifactError::InsufficientBalance { available: other_had, required: other_due },
        ) => {
            assert(spec_error_payload(x) + r1 =~= spec_u128_to_le_bytes(had.0) + (
            spec_u128_to_le_bytes(due.0) + r1));
            assert(spec_error_payload(y) + r2 =~= spec_u128_to_le_bytes(other_had.0) + (
            spec_u128_to_le_bytes(other_due.0) + r2));
            lemma_u128_apart(
                had.0,
                spec_u128_to_le_bytes(due.0) + r1,
                other_had.0,
                spec_u128_to_le_bytes(other_due.0) + r2,
            );
            lemma_u128_apart(due.0, r1, other_due.0, r2);
        },
        (
            ArtifactError::Failed { operation: p, reason: s },
            ArtifactError::Failed { operation: q, reason: t },
        ) => {
            assert(spec_error_payload(x) + r1 =~= seq![spec_operation_tag(p)] + (spec_text(s@)
                + r1));
            assert(spec_error_payload(y) + r2 =~= seq![spec_operation_tag(q)] + (spec_text(t@)
                + r2));
            lemma_byte_apart(
                spec_operation_tag(p),
                spec_text(s@) + r1,
                spec_operation_tag(q),
                spec_text(t@) + r2,
            );
            lemma_operation_apart(p, q);
            lemma_text_apart(s@, r1, t@, r2);
        },
        _ => {},
    }
}

proof fn lemma_error_apart(
    a: Option<ArtifactError>,
    r1: Seq<u8>,
    b: Option<ArtifactError>,
    r2: Seq<u8>,
)
    requires
        spec_error_countable(a),
        spec_error_countable(b),
        spec_error_repr(a) + r1 == spec_error_repr(b) + r2,
    ensures
        spec_error_view(a) == spec_error_view(b),
        r1 == r2,
{
    match (a, b) {
        (None, None) => {
            lemma_byte_apart(0u8, r1, 0u8, r2);
        },
        (Some(x), Some(y)) => {
            lemma_error_layout(x, r1);
            lemma_error_layout(y, r2);
            let tail_x = seq![spec_error_kind(x)] + (spec_error_payload(x) + r1);
            let tail_y = seq![spec_error_kind(y)] + (spec_error_payload(y) + r2);
            lemma_byte_apart(1u8, tail_x, 1u8, tail_y);
            lemma_byte_apart(
                spec_error_kind(x),
                spec_error_payload(x) + r1,
                spec_error_kind(y),
                spec_error_payload(y) + r2,
            );
            lemma_payload_apart(x, r1, y, r2);
        },
        (None, Some(y)) => {
            lemma_error_layout(y, r2);
            lemma_byte_apart(
                0u8,
                r1,
                1u8,
                seq![spec_error_kind(y)] + (spec_error_payload(y) + r2),
            );
        },
        (Some(x), None) => {
            lemma_error_layout(x, r1);
            lemma_byte_apart(
                1u8,
                seq![spec_error_kind(x)] + (spec_error_payload(x) + r1),
                0u8,
                r2,
            );
        },
    }
}

proof fn lemma_settlement_apart(
    a: Option<Settlement>,
    r1: Seq<u8>,
    b: Option<Settlement>,
    r2: Seq<u8>,
)
    requires
        spec_settlement_repr(a) + r1 == spec_settlement_repr(b) + r2,
    ensures
        a == b,
        r1 == r2,
{
    let first = |s: Option<Settlement>|
        match s {
            None => 0u8,
            Some(_) => 1u8,
        };
    let rest = |s: Option<Settlement>|
        match s {
            None => Seq::<u8>::empty(),
            Some(s) => spec_u128_to_le_bytes(s.cost.0) + spec_u128_to_le_bytes(s.refund.0)
                + spec_u128_to_le_bytes(s.fee.0),
        };
    assert(spec_settlement_repr(a) + r1 =~= seq![first(a)] + (rest(a) + r1));
    assert(spec_settlement_repr(b) + r2 =~= seq![first(b)] + (rest(b) + r2));
    lemma_byte_apart(first(a), rest(a) + r1, first(b), rest(b) + r2);
    match (a, b) {
        (None, None) => {
            assert(rest(a) + r1 =~= r1);
            assert(rest(b) + r2 =~= r2);
        },
        (Some(x), Some(y)) => {
            let tail_x = spec_u128_to_le_bytes(x.refund.0) + (spec_u128_to_le_bytes(x.fee.0)
                + r1);
            let tail_y = spec_u128_to_le_bytes(y.refund.0) + (spec_u128_to_le_bytes(y.fee.0)
                + r2);
            assert(rest(a) + r1 =~= spec_u128_to_le_bytes(x.cost.0) + tail_x);
            assert(rest(b) + r2 =~= spec_u128_to_le_bytes(y.cost.0) + tail_y);
            lemma_u128_apart(x.cost.0, tail_x, y.cost.0, tail_y);
            lemma_u128_apart(
                x.refund.0,
                spec_u128_to_le_bytes(x.fee.0) + r1,
                y.refund.0,
                spec_u128_to_le_bytes(y.fee.0) + r2,
            );
            lemma_u128_apart(x.fee.0, r1, y.fee.0, r2);
        },
        _ => {},
    }
}

proof fn lemma_transform_apart(a: TransformView, r1: Seq<u8>, b: TransformView, r2: Seq<u8>)
    requires
        spec_transform_countable(a),
        spec_transform_countable(b),
        spec_transform_repr(a) + r1 == spec_transform_repr(b) + r2,
    ensures
        a == b,
        r1 == r2,
{
    let tail_a = seq![spec_kind_tag(a.kind)] + (spec_byte_string(a.value) + r1);
    let tail_b = seq![spec_kind_tag(b.kind)] + (spec_byte_string(b.value) + r2);
    assert(spec_transform_repr(a) + r1 =~= spec_byte_string(a.key) + tail_a);
    assert(spec_transform_repr(b) + r2 =~= spec_byte_string(b.key) + tail_b);
    lemma_string_apart(a.key, tail_a, b.key, tail_b);
    lemma_byte_apart(
        spec_kind_tag(a.kind),
        spec_byte_string(a.value) + r1,
        spec_kind_tag(b.kind),
        spec_byte_string(b.value) + r2,
    );
    lemma_string_apart(a.value, r1, b.value, r2);
}

proof fn lemma_transforms_front(transforms: Seq<TransformView>)
    requires
        transforms.len() > 0,
    ensures
        spec_transforms_repr(transforms) == spec_transform_repr(transforms[0])
            + spec_transforms_repr(transforms.skip(1)),
    decreases transforms.len(),
{
    if transforms.len() == 1 {
        assert(transforms.drop_last() =~= Seq::<TransformView>::empty());
        assert(transforms.skip(1) =~= Seq::<TransformView>::empty());
        assert(spec_transforms_repr(transforms) =~= spec_transform_repr(transforms[0])
            + spec_transforms_repr(transforms.skip(1)));
    } else {
        lemma_transforms_front(transforms.drop_last());
        assert(transforms.drop_last().skip(1) =~= transforms.skip(1).drop_last());
        assert(transforms.skip(1).last() == transforms.last());
        assert(transforms.drop_last()[0] == transforms[0]);
        assert(spec_transforms_repr(transforms) =~= spec_transform_repr(transforms[0])
            + spec_transforms_repr(transforms.skip(1)));
    }
}

proof fn lemma_transforms_apart(
    a: Seq<TransformView>,
    r1: Seq<u8>,
    b: Seq<TransformView>,
    r2: Seq<u8>,
)
    requires
        a.len() == b.len(),
        forall|i: int| 0 <= i < a.len() ==> spec_transform_countable(#[trigger] a[i]),
        forall|i: int| 0 <= i < b.len() ==> spec_transform_countable(#[trigger] b[i]),
        spec_transforms_repr(a) + r1 == spec_transforms_repr(b) + r2,
    ensures
        a == b,
        r1 == r2,
    decreases a.len(),
{
    if a.len() == 0 {
        assert(spec_transforms_repr(a) + r1 =~= r1);
        assert(spec_transforms_repr(b) + r2 =~= r2);
        assert(a =~= b);
    } else {
        lemma_transforms_front(a);
        lemma_transforms_front(b);
        let rest_a = spec_transforms_repr(a.skip(1)) + r1;
        let rest_b = spec_transforms_repr(b.skip(1)) + r2;
        assert(spec_transforms_repr(a) + r1 =~= spec_transform_repr(a[0]) + rest_a);
        assert(spec_transforms_repr(b) + r2 =~= spec_transform_repr(b[0]) + rest_b);
        lemma_transform_apart(a[0], rest_a, b[0], rest_b);
        assert forall|i: int| 0 <= i < a.skip(1).len() implies spec_transform_countable(
            #[trigger] a.skip(1)[i],
        ) by {
            assert(a.skip(1)[i] == a[i + 1]);
        }
        assert forall|i: int| 0 <= i < b.skip(1).len() implies spec_transform_countable(
            #[trigger] b.skip(1)[i],
        ) by {
            assert(b.skip(1)[i] == b[i + 1]);
        }
        lemma_transforms_apart(a.skip(1), r1, b.skip(1), r2);
        assert forall|i: int| 0 <= i < a.len() implies a[i] == b[i] by {
            if i > 0 {
                assert(a[i] == a.skip(1)[i - 1]);
                assert(b[i] == b.skip(1)[i - 1]);
            }
        }
        assert(a =~= b);
    }
}

proof fn lemma_effects_apart(
    a: Seq<TransformView>,
    r1: Seq<u8>,
    b: Seq<TransformView>,
    r2: Seq<u8>,
)
    requires
        a.len() <= u64::MAX,
        b.len() <= u64::MAX,
        forall|i: int| 0 <= i < a.len() ==> spec_transform_countable(#[trigger] a[i]),
        forall|i: int| 0 <= i < b.len() ==> spec_transform_countable(#[trigger] b[i]),
        spec_effects_repr(a) + r1 == spec_effects_repr(b) + r2,
    ensures
        a == b,
        r1 == r2,
{
    assert(spec_effects_repr(a) + r1 =~= spec_u64_to_le_bytes(a.len() as u64) + (
    spec_transforms_repr(a) + r1));
    assert(spec_effects_repr(b) + r2 =~= spec_u64_to_le_bytes(b.len() as u64) + (
    spec_transforms_repr(b) + r2));
    lemma_u64_apart(
        a.len() as u64,
        spec_transforms_repr(a) + r1,
        b.len() as u64,
        spec_transforms_repr(b) + r2,
    );
    lemma_transforms_apart(a, r1, b, r2);
}

/// What follows the gas limit in the byte representation of a result, with `rest` after it.
pub open spec fn spec_result_tail(artifact: ArtifactView, rest: Seq<u8>) -> Seq<u8> {
    spec_u128_to_le_bytes(artifact.consumed.0) + (spec_u128_to_le_bytes(artifact.cost.0) + (
    spec_settlement_repr(artifact.settlement) + (spec_effects_repr(artifact.effects) + rest)))
}

proof fn lemma_result_layout(artifact: ArtifactView, rest: Seq<u8>)
    ensures
        spec_result_repr(artifact) + rest == spec_initiator_repr(artifact.initiator) + (
        spec_error_repr(artifact.error) + (spec_u128_to_le_bytes(artifact.gas_limit.0)
            + spec_result_tail(artifact, rest))),
{
    let f1 = spec_initiator_repr(artifact.initiator);
    let f2 = spec_error_repr(artifact.error);
    let f3 = spec_u128_to_le_bytes(artifact.gas_limit.0);
    let f4 = spec_u128_to_le_bytes(artifact.consumed.0);
    let f5 = spec_u128_to_le_bytes(artifact.cost.0);
    let f6 = spec_settlement_repr(artifact.settlement);
    let f7 = spec_effects_repr(artifact.effects);
    let t7 = f7 + rest;
    let t6 = f6 + t7;
    let t5 = f5 + t6;
    let t4 = f4 + t5;
    let t3 = f3 + t4;
    let t2 = f2 + t3;
    let h2 = f1 + f2;
    let h3 = h2 + f3;
    let h4 = h3 + f4;
    let h5 = h4 + f5;
    let h6 = h5 + f6;
    let h7 = h6 + f7;
    assert(h7 + rest =~= h6 + t7);
    assert(h6 + t7 =~= h5 + t6);
    assert(h5 + t6 =~= h4 + t5);
    assert(h4 + t5 =~= h3 + t4);
    assert(h3 + t4 =~= h2 + t3);
    assert(h2 + t3 =~= f1 + t2);
}

proof fn lemma_tail_apart(a: ArtifactView, r1: Seq<u8>, b: ArtifactView, r2: Seq<u8>)
    requires
        spec_countable(a),
        spec_countable(b),
        spec_result_tail(a, r1) == spec_result_tail(b, r2),
    ensures
        a.consumed == b.consumed,
        a.cost == b.cost,
        a.settlement == b.settlement,
        a.effects == b.effects,
        r1 == r2,
{
    let t5a = spec_effects_repr(a.effects) + r1;
    let t5b = spec_effects_repr(b.effects) + r2;
    let t4a = spec_settlement_repr(a.settlement) + t5a;
    let t4b = spec_settlement_repr(b.settlement) + t5b;
    let t3a = spec_u128_to_le_bytes(a.cost.0) + t4a;
    let t3b = spec_u128_to_le_bytes(b.cost.0) + t4b;
    lemma_u128_apart(a.consumed.0, t3a, b.consumed.0, t3b);
    lemma_u128_apart(a.cost.0, t4a, b.cost.0, t4b);
    lemma_settlement_apart(a.settlement, t5a, b.settlement, t5b);
    assert forall|i: int| 0 <= i < a.effects.len() implies spec_transform_countable(
        #[trigger] a.effects[i],
    ) by {}
    assert forall|i: int| 0 <= i < b.effects.len() implies spec_transform_countable(
        #[trigger] b.effects[i],
    ) by {}
    lemma_effects_apart(a.effects, r1, b.effects, r2);
}

proof fn lemma_result_apart(a: ArtifactView, r1: Seq<u8>, b: ArtifactView, r2: Seq<u8>)
    requires
        spec_countable(a),
        spec_countable(b),
        spec_result_repr(a) + r1 == spec_result_repr(b) + r2,
    ensures
        spec_result_view(a) == spec_result_view(b),
        r1 == r2,
{
    lemma_result_layout(a, r1);
    lemma_result_layout(b, r2);
    let t2a = spec_u128_to_le_bytes(a.gas_limit.0) + spec_result_tail(a, r1);
    let t2b = spec_u128_to_le_bytes(b.gas_limit.0) + spec_result_tail(b, r2);
    let t1a = spec_error_repr(a.error) + t2a;
    let t1b = spec_error_repr(b.error) + t2b;
    lemma_initiator_apart(a.initiator, t1a, b.initiator, t1b);
    lemma_error_apart(a.error, t2a, b.error, t2b);
    lemma_u128_apart(a.gas_limit.0, spec_result_tail(a, r1), b.gas_limit.0, spec_result_tail(b, r2));
    lemma_tail_apart(a, r1, b, r2);
}

proof fn lemma_results_front(artifacts: Seq<ArtifactView>)
    requires
        artifacts.len() > 0,
    ensures
        spec_results_repr(artifacts) == spec_result_repr(artifacts[0]) + spec_results_repr(
            artifacts.skip(1),
        ),
    decreases artifacts.len(),
{
    if artifacts.len() == 1 {
        assert(artifacts.drop_last() =~= Seq::<ArtifactView>::empty());
        assert(artifacts.skip(1) =~= Seq::<ArtifactView>::empty());
        assert(spec_results_repr(artifacts) =~= spec_result_repr(artifacts[0])
            + spec_results_repr(artifacts.skip(1)));
    } else {
        lemma_results_front(artifacts.drop_last());
        assert(artifacts.drop_last().skip(1) =~= artifacts.skip(1).drop_last());
        assert(artifacts.skip(1).last() == artifacts.last());
        assert(artifacts.drop_last()[0] == artifacts[0]);
        assert(spec_results_repr(artifacts) =~= spec_result_repr(artifacts[0])
            + spec_results_repr(artifacts.skip(1)));
    }
}

proof fn lemma_results_apart(a: Seq<ArtifactView>, b: Seq<ArtifactView>)
    requires
        a.len() == b.len(),
        forall|i: int| 0 <= i < a.len() ==> spec_countable(#[trigger] a[i]),
        forall|i: int| 0 <= i < b.len() ==> spec_countable(#[trigger] b[i]),
        spec_results_repr(a) == spec_results_repr(b),
    ensures
        forall|i: int| 0 <= i < a.len() ==> spec_result_view(#[trigger] a[i]) == spec_result_view(
            b[i],
        ),
    decreases a.len(),
{
    if a.len() > 0 {
        lemma_results_front(a);
        lemma_results_front(b);
        lemma_result_apart(a[0], spec_results_repr(a.skip(1)), b[0], spec_results_repr(b.skip(1)));
        assert forall|i: int| 0 <= i < a.skip(1).len() implies spec_countable(
            #[trigger] a.skip(1)[i],
        ) by {
            assert(a.skip(1)[i] == a[i + 1]);
        }
        assert forall|i: int| 0 <= i < b.skip(1).len() implies spec_countable(
            #[trigger] b.skip(1)[i],
        ) by {
            assert(b.skip(1)[i] == b[i + 1]);
        }
        lemma_results_apart(a.skip(1), b.skip(1));
        assert forall|i: int| 0 <= i < a.len() implies spec_result_view(#[trigger] a[i])
            == spec_result_view(b[i]) by {
            if i > 0 {
                assert(a[i] == a.skip(1)[i - 1]);
                assert(b[i] == b.skip(1)[i - 1]);
            }
        }
    }
}

/// Two lists of execution results with the same bytes are as long as each other and hold the
/// same results at the same places. So a changed result, a missing or an added one, and results
/// in another order all change the bytes that the checksum is the digest of.
///
/// This is asked of artifacts whose lengths can be counted, as
/// [`crate::contract_runtime::checksum::compute_execution_results_checksum`] finds of every
/// list of artifacts that it takes.
pub proof fn lemma_serialized_results_tell_results_apart(
    first: Seq<ArtifactView>,
    second: Seq<ArtifactView>,
)
    requires
        first.len() <= u32::MAX,
        second.len() <= u32::MAX,
        forall|i: int|
            0 <= i < first.len() ==> spec_countable(#[trigger] first[i]),
        forall|i: int|
            0 <= i < second.len() ==> spec_countable(#[trigger] second[i]),
        spec_serialized_results(first) == spec_serialized_results(second),
    ensures
        first.len() == second.len(),
        forall|i: int|
            0 <= i < first.len() ==> spec_result_view(#[trigger] first[i]) == spec_result_view(
                second[i],
            ),
{
    lemma_u32_apart(
        first.len() as u32,
        spec_results_repr(first),
        second.len() as u32,
        spec_results_repr(second),
    );
    lemma_results_apart(first, second);
}

/// Two lists of execution results that hold different results at some place have different
/// bytes hashed: a change to any single result shows, and so does another order of the same
/// results, which holds a different result at some place. The checksums then differ unless
/// the digest collides.
pub proof fn lemma_a_changed_result_changes_the_bytes(
    first: Seq<ArtifactView>,
    second: Seq<ArtifactView>,
    place: int,
)
    requires
        first.len() <= u32::MAX,
        second.len() <= u32::MAX,
        forall|i: int| 0 <= i < first.len() ==> spec_countable(#[trigger] first[i]),
        forall|i: int| 0 <= i < second.len() ==> spec_countable(#[trigger] second[i]),
        0 <= place < first.len(),
        place < second.len() ==> spec_result_view(first[place]) != spec_result_view(
            second[place],
        ),
    ensures
        spec_serialized_results(first) != spec_serialized_results(second),
{
    if spec_serialized_results(first) == spec_serialized_results(second) {
        lemma_serialized_results_tell_results_apart(first, second);
    }
}

} // verus!
