//! Which eras' state is pruned after a block.
//!
//! Pruning starts with the block after the one at which the current protocol version was
//! activated. Each block prunes the next batch of eras, lowest first, and only eras before the
//! era of activation.

use crate::primitives::EraId;
use vstd::prelude::*;

verus! {

/// The first era to prune and the era to stop before, where any era is to be pruned after the
/// block that follows the block of height `previous_height`.
///
/// No era is pruned where there is no earlier block but the first, where batches are empty,
/// while the activation lies ahead of the previous block, or where the bounds of the batch are
/// not representable. Else the batch is the `n`-th of `batch_size` eras, `n` being the distance
/// of the previous block from the activation, cut off at the era of activation; where nothing
/// is left of it, no era is pruned.
pub open spec fn spec_prune_range(
    activation_era_id: EraId,
    activation_height: u64,
    previous_height: u64,
    batch_size: u64,
) -> Option<(u64, u64)> {
    if previous_height == 0 || batch_size == 0 || previous_height < activation_height {
        None
    } else {
        let start = (previous_height - activation_height) * batch_size;
        let end = start + batch_size;
        if end > u64::MAX {
            None
        } else {
            let stop = if end < activation_era_id.0 {
                end
            } else {
                activation_era_id.0 as int
            };
            if start < stop {
                Some((start as u64, stop as u64))
            } else {
                None
            }
        }
    }
}

/// The eras to prune, lowest first, where any era is to be pruned.
pub open spec fn spec_prune_eras(
    activation_era_id: EraId,
    activation_height: u64,
    previous_height: u64,
    batch_size: u64,
) -> Option<Seq<u64>> {
    match spec_prune_range(activation_era_id, activation_height, previous_height, batch_size) {
        Some((start, stop)) => Some(Seq::new((stop - start) as nat, |i: int| (start + i) as u64)),
        None => None,
    }
}

/// Calculates the eras to be pruned: `Some` of a list that is never empty, or `None` where
/// there is nothing to do.
pub fn calculate_prune_eras(
    activation_era_id: EraId,
    activation_height: u64,
    previous_height: u64,
    batch_size: u64,
) -> (eras: Option<Vec<u64>>)
    ensures
        match eras {
            Some(list) => spec_prune_eras(
                activation_era_id,
                activation_height,
                previous_height,
                batch_size,
            ) == Some(list@),
            None => spec_prune_eras(
                activation_era_id,
                activation_height,
                previous_height,
                batch_size,
            ) is None,
        },
{
    if previous_height == 0 || batch_size == 0 || previous_height < activation_height {
        return None;
    }
    let nth_chunk: u64 = previous_height - activation_height;
    let start: u64 = match nth_chunk.checked_mul(batch_size) {
        Some(start) => start,
        None => {
            assert(nth_chunk * batch_size + batch_size > u64::MAX);
            return None;
        },
    };
    let end: u64 = match start.checked_add(batch_size) {
        Some(end) => end,
        None => {
            return None;
        },
    };
    let stop: u64 = if end < activation_era_id.0 {
        end
    } else {
        activation_era_id.0
    };
    if start >= stop {
        return None;
    }
    let mut eras: Vec<u64> = Vec::new();
    let mut era: u64 = start;
    while era < stop
        invariant
            start <= era <= stop,
            eras@ == Seq::new((era - start) as nat, |i: int| (start + i) as u64),
        decreases stop - era,
    {
        eras.push(era);
        assert(eras@ =~= Seq::new((era + 1 - start) as nat, |i: int| (start + i) as u64));
        era = era + 1;
    }
    Some(eras)
}

/// What is pruned is never empty, holds no more eras than a batch, and only eras before the
/// era of activation, each once and in rising order.
pub proof fn lemma_prune_eras_bounded(
    activation_era_id: EraId,
    activation_height: u64,
    previous_height: u64,
    batch_size: u64,
)
    ensures
        spec_prune_eras(activation_era_id, activation_height, previous_height, batch_size) matches Some(
            eras,
        ) ==> {
            &&& 0 < eras.len() <= batch_size
            &&& forall|i: int| 0 <= i < eras.len() ==> #[trigger] eras[i] < activation_era_id.0
            &&& forall|i: int, j: int| 0 <= i < j < eras.len() ==> eras[i] < eras[j]
        },
{
}

/// After the first block nothing is pruned, whatever the configuration.
pub proof fn lemma_no_pruning_after_first_block(
    activation_era_id: EraId,
    activation_height: u64,
    batch_size: u64,
)
    ensures
        spec_prune_eras(activation_era_id, activation_height, 0, batch_size) is None,
{
}

} // verus!
