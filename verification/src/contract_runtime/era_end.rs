//! The end of an era: who is evicted, and whose weights count in the era that follows.

use crate::contract_runtime::types::{EraReport, EraValidators, ValidatorWeights};
use crate::identity::PublicKey;
use crate::primitives::{Digest, EraId, Motes, ProtocolVersion};
use vstd::prelude::*;

verus! {

/// The validators to evict: the inactive ones, then the equivocators.
pub open spec fn spec_evict_items(report: EraReport) -> Seq<PublicKey> {
    report.inactive_validators@ + report.equivocators@
}

/// The validators to evict: the inactive ones, then the equivocators.
pub fn evict_items(report: &EraReport) -> (items: Vec<PublicKey>)
    ensures
        items@ == spec_evict_items(*report),
{
    let mut items: Vec<PublicKey> = Vec::new();
    let mut i: usize = 0;
    while i < report.inactive_validators.len()
        invariant
            i <= report.inactive_validators@.len(),
            items@ == report.inactive_validators@.subrange(0, i as int),
        decreases report.inactive_validators@.len() - i,
    {
        items.push(report.inactive_validators[i]);
        assert(items@ =~= report.inactive_validators@.subrange(0, i + 1));
        i = i + 1;
    }
    assert(items@ =~= report.inactive_validators@);
    let mut j: usize = 0;
    while j < report.equivocators.len()
        invariant
            j <= report.equivocators@.len(),
            items@ == report.inactive_validators@ + report.equivocators@.subrange(0, j as int),
        decreases report.equivocators@.len() - j,
    {
        items.push(report.equivocators[j]);
        assert(items@ =~= report.inactive_validators@ + report.equivocators@.subrange(0, j + 1));
        j = j + 1;
    }
    assert(items@ =~= spec_evict_items(*report));
    items
}

/// What the auction's step is asked at the end of an era.
#[derive(Clone, Debug, PartialEq, Eq)]
pub struct StepRequest {
    /// The state root that the step runs against.
    pub state_hash: Digest,
    pub protocol_version: ProtocolVersion,
    /// The validators to slash.
    pub slash_items: Vec<PublicKey>,
    /// The validators to evict.
    pub evict_items: Vec<PublicKey>,
    /// The era that the step leads into.
    pub next_era_id: EraId,
    /// When the era ends, in milliseconds.
    pub era_end_timestamp_millis: u64,
}

/// Puts together what the auction's step is asked: both the inactive validators and the
/// equivocators of `era_report` are evicted, and none is slashed.
pub fn commit_step(
    protocol_version: ProtocolVersion,
    state_hash: Digest,
    era_report: &EraReport,
    era_end_timestamp_millis: u64,
    next_era_id: EraId,
) -> (request: StepRequest)
    ensures
        request.state_hash == state_hash,
        request.protocol_version == protocol_version,
        request.slash_items@ == Seq::<PublicKey>::empty(),
        request.evict_items@ == spec_evict_items(*era_report),
        request.next_era_id == next_era_id,
        request.era_end_timestamp_millis == era_end_timestamp_millis,
{
    StepRequest {
        state_hash,
        protocol_version,
        slash_items: Vec::new(),
        evict_items: evict_items(era_report),
        next_era_id,
        era_end_timestamp_millis,
    }
}

/// Every validator that the report names is evicted, and no other.
pub proof fn lemma_evicted_are_the_reported(report: EraReport, key: PublicKey)
    ensures
        spec_evict_items(report).contains(key) <==> (report.inactive_validators@.contains(key)
            || report.equivocators@.contains(key)),
        spec_evict_items(report).len() == report.inactive_validators@.len()
            + report.equivocators@.len(),
{
    let items = spec_evict_items(report);
    let inactive = report.inactive_validators@;
    let equivocators = report.equivocators@;
    if items.contains(key) {
        let i = choose|i: int| 0 <= i < items.len() && items[i] == key;
        if i < inactive.len() {
            assert(inactive[i] == key);
        } else {
            assert(equivocators[i - inactive.len()] == key);
        }
    }
    if inactive.contains(key) {
        let i = choose|i: int| 0 <= i < inactive.len() && inactive[i] == key;
        assert(items[i] == key);
    }
    if equivocators.contains(key) {
        let i = choose|i: int| 0 <= i < equivocators.len() && equivocators[i] == key;
        assert(items[inactive.len() + i] == key);
    }
}

/// The weights of the first entry for `era` among `eras`, where there is one.
pub open spec fn spec_weights_of(eras: Seq<(EraId, ValidatorWeights)>, era: EraId) -> Option<
    Seq<(PublicKey, Motes)>,
>
    decreases eras.len(),
{
    if eras.len() == 0 {
        None
    } else if eras[0].0 == era {
        Some(eras[0].1.entries@)
    } else {
        spec_weights_of(eras.skip(1), era)
    }
}

/// A copy of the weights of the validators of `era`, where `validators` has an entry for it.
pub fn weights_of(validators: &EraValidators, era: EraId) -> (weights: Option<ValidatorWeights>)
    ensures
        match weights {
            Some(found) => spec_weights_of(validators.eras@, era) == Some(found.entries@),
            None => spec_weights_of(validators.eras@, era) is None,
        },
{
    let mut i: usize = 0;
    assert(validators.eras@.skip(0) =~= validators.eras@);
    while i < validators.eras.len()
        invariant
            i <= validators.eras@.len(),
            spec_weights_of(validators.eras@, era) == spec_weights_of(
                validators.eras@.skip(i as int),
                era,
            ),
        decreases validators.eras@.len() - i,
    {
        assert(validators.eras@.skip(i as int)[0] == validators.eras@[i as int]);
        if validators.eras[i].0.0 == era.0 {
            let source: &Vec<(PublicKey, Motes)> = &validators.eras[i].1.entries;
            let mut entries: Vec<(PublicKey, Motes)> = Vec::new();
            let mut j: usize = 0;
            while j < source.len()
                invariant
                    j <= source@.len(),
                    entries@ == source@.subrange(0, j as int),
                decreases source@.len() - j,
            {
                let entry: (PublicKey, Motes) = source[j];
                entries.push(entry);
                assert(entries@ =~= source@.subrange(0, j + 1));
                j = j + 1;
            }
            assert(entries@ =~= source@);
            return Some(ValidatorWeights { entries });
        }
        assert(validators.eras@.skip(i as int).skip(1) =~= validators.eras@.skip(i + 1));
        i = i + 1;
    }
    None
}

} // verus!
