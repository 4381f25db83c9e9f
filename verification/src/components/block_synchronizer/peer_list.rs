//! The peers that a block is fetched from, and how well each has served.

use crate::primitives::{TimeDiff, Timestamp};
use vstd::prelude::*;

verus! {

/// Names a node of the network.
#[derive(Clone, Copy, Debug, PartialEq, Eq, Structural, PartialOrd, Ord, Hash)]
pub struct NodeId(pub u64);

/// How well a peer has served.
#[derive(Copy, Clone, PartialEq, Eq, Structural, Debug)]
pub enum PeerQuality {
    Unknown,
    Unresponsive,
    Unreliable,
    Reliable,
    Dishonest,
}

impl Default for PeerQuality {
    fn default() -> (quality: PeerQuality)
        ensures
            quality == PeerQuality::Unknown,
    {
        PeerQuality::Unknown
    }
}

/// After how many seconds new peers are asked for in any case.
pub const PEER_REFRESH_INTERVAL: u32 = 90;

/// The peers known, each with its quality.
#[derive(Clone, PartialEq, Eq, Debug)]
pub struct PeerList {
    /// The peers, in rising order of their ids, each once.
    peer_list: Vec<(NodeId, PeerQuality)>,
    /// When the peers were last changed.
    latch: Timestamp,
    max_simultaneous_peers: u32,
}

/// A [`PeerList`] as plain values.
pub struct PeerListView {
    /// The peers, in rising order of their ids, each once.
    pub peers: Seq<(NodeId, PeerQuality)>,
    pub latch: Timestamp,
    pub max_simultaneous_peers: u32,
}

/// Whether `peers` stand in rising order of their ids, each once.
pub open spec fn spec_sorted(peers: Seq<(NodeId, PeerQuality)>) -> bool {
    forall|i: int, j: int| 0 <= i < j < peers.len() ==> peers[i].0.0 < peers[j].0.0
}

/// The quality of `peer` among `peers`, where it is among them.
pub open spec fn spec_quality(peers: Seq<(NodeId, PeerQuality)>, peer: NodeId) -> Option<
    PeerQuality,
> {
    if exists|i: int| 0 <= i < peers.len() && peers[i].0 == peer {
        let i = choose|i: int| 0 <= i < peers.len() && peers[i].0 == peer;
        Some(peers[i].1)
    } else {
        None
    }
}

/// The quality that a peer of quality `quality` is promoted to.
pub open spec fn spec_promoted(quality: PeerQuality) -> PeerQuality {
    match quality {
        PeerQuality::Dishonest => PeerQuality::Dishonest,
        PeerQuality::Unknown => PeerQuality::Unreliable,
        PeerQuality::Unresponsive => PeerQuality::Unreliable,
        PeerQuality::Unreliable => PeerQuality::Reliable,
        PeerQuality::Reliable => PeerQuality::Reliable,
    }
}

/// The quality that a peer of quality `quality` is demoted to.
pub open spec fn spec_demoted(quality: PeerQuality) -> PeerQuality {
    match quality {
        PeerQuality::Dishonest => PeerQuality::Dishonest,
        PeerQuality::Unknown => PeerQuality::Unknown,
        PeerQuality::Unresponsive => PeerQuality::Unknown,
        PeerQuality::Unreliable => PeerQuality::Unresponsive,
        PeerQuality::Reliable => PeerQuality::Unreliable,
    }
}

/// The ids of those of `peers` whose quality `wanted` accepts, in the order of `peers`.
pub open spec fn spec_select(
    peers: Seq<(NodeId, PeerQuality)>,
    wanted: spec_fn(PeerQuality) -> bool,
) -> Seq<NodeId>
    decreases peers.len(),
{
    if peers.len() == 0 {
        Seq::empty()
    } else if wanted(peers.last().1) {
        spec_select(peers.drop_last(), wanted).push(peers.last().0)
    } else {
        spec_select(peers.drop_last(), wanted)
    }
}

/// The ids of those of `peers` whose quality is `first` or `second`, in the order of `peers`.
pub open spec fn spec_with_quality(
    peers: Seq<(NodeId, PeerQuality)>,
    first: PeerQuality,
    second: PeerQuality,
) -> Seq<NodeId> {
    spec_select(peers, |q: PeerQuality| q == first || q == second)
}

/// The ids of the dishonest among `peers`, in the order of `peers`.
pub open spec fn spec_dishonest(peers: Seq<(NodeId, PeerQuality)>) -> Seq<NodeId> {
    spec_with_quality(peers, PeerQuality::Dishonest, PeerQuality::Dishonest)
}

/// The ids of the reliable among `peers`, in the order of `peers`.
pub open spec fn spec_reliable(peers: Seq<(NodeId, PeerQuality)>) -> Seq<NodeId> {
    spec_with_quality(peers, PeerQuality::Reliable, PeerQuality::Reliable)
}

/// Whether `chosen` are taken from `candidates`, each from a place of its own.
pub open spec fn spec_chosen_from(chosen: Seq<NodeId>, candidates: Seq<NodeId>) -> bool {
    exists|places: Seq<int>|
        {
            &&& places.len() == chosen.len()
            &&& places.no_duplicates()
            &&& forall|i: int|
                0 <= i < chosen.len() ==> 0 <= #[trigger] places[i] < candidates.len()
                    && candidates[places[i]] == chosen[i]
        }
}

/// Calls `rand::seq::IteratorRandom::choose_multiple` on the items of `candidates`, for no
/// more items than there are candidates.
///
/// Trusted: what comes back holds `amount` of the candidates, each taken from a place of its
/// own among the candidates. Which ones, and in what order, depends on `rng`.
#[verifier::external_body]
fn choose_multiple(candidates: Vec<NodeId>, rng: &mut rand::rngs::StdRng, amount: usize) -> (chosen:
    Vec<NodeId>)
    requires
        amount <= candidates@.len(),
    ensures
        chosen@.len() == amount,
        spec_chosen_from(chosen@, candidates@),
{
    rand::seq::IteratorRandom::choose_multiple(candidates.into_iter(), rng, amount)
}

impl View for PeerList {
    type V = PeerListView;

    closed spec fn view(&self) -> PeerListView {
        PeerListView {
            peers: self.peer_list@,
            latch: self.latch,
            max_simultaneous_peers: self.max_simultaneous_peers,
        }
    }
}

impl PeerListView {
    pub open spec fn quality(self, peer: NodeId) -> Option<PeerQuality> {
        spec_quality(self.peers, peer)
    }

    /// The peers with `peer` at the quality `quality`, and every other peer as it was.
    pub open spec fn with(self, peer: NodeId, quality: PeerQuality, other: PeerListView) -> bool {
        &&& spec_sorted(other.peers)
        &&& other.quality(peer) == Some(quality)
        &&& forall|any: NodeId| any != peer ==> other.quality(any) == self.quality(any)
        &&& other.max_simultaneous_peers == self.max_simultaneous_peers
    }

    /// Whether new peers are needed at the time `now`: there is no peer, the peers were last
    /// changed more than [`PEER_REFRESH_INTERVAL`] seconds ago, or those that are reliable or
    /// untried are fewer than the peers asked at once.
    pub open spec fn needs_peers(self, now: Timestamp) -> bool {
        ||| self.peers.len() == 0
        ||| (if now.0 >= self.latch.0 {
            now.0 - self.latch.0
        } else {
            0
        }) > PEER_REFRESH_INTERVAL * 1000
        ||| spec_with_quality(self.peers, PeerQuality::Reliable, PeerQuality::Unknown).len()
            < self.max_simultaneous_peers
    }
}

/// Among peers in rising order, a peer's quality is the one that stands with it.
pub proof fn lemma_quality_at(peers: Seq<(NodeId, PeerQuality)>, i: int)
    requires
        spec_sorted(peers),
        0 <= i < peers.len(),
    ensures
        spec_quality(peers, peers[i].0) == Some(peers[i].1),
{
    let j = choose|j: int| 0 <= j < peers.len() && peers[j].0 == peers[i].0;
    if j < i {
        assert(peers[j].0.0 < peers[i].0.0);
    }
    if i < j {
        assert(peers[i].0.0 < peers[j].0.0);
    }
}

/// Giving the peer at `i` another quality keeps the order and every other peer's quality.
proof fn lemma_replaced(before: Seq<(NodeId, PeerQuality)>, i: int, quality: PeerQuality)
    requires
        spec_sorted(before),
        0 <= i < before.len(),
    ensures
        spec_sorted(before.update(i, (before[i].0, quality))),
        spec_quality(before, before[i].0) is Some,
        spec_quality(before.update(i, (before[i].0, quality)), before[i].0) == Some(quality),
        forall|any: NodeId|
            any != before[i].0 ==> spec_quality(before.update(i, (before[i].0, quality)), any)
                == spec_quality(before, any),
{
    let peer = before[i].0;
    let after = before.update(i, (peer, quality));
    lemma_quality_at(before, i);
    assert forall|a: int, b: int| 0 <= a < b < after.len() implies after[a].0.0
        < after[b].0.0 by {
        assert(after[a].0 == before[a].0);
        assert(after[b].0 == before[b].0);
    }
    lemma_quality_at(after, i);
    assert forall|any: NodeId| any != peer implies spec_quality(after, any) == spec_quality(
        before,
        any,
    ) by {
        lemma_same_elsewhere(before, after, any, i);
    }
}

/// Putting an unknown peer in its place keeps the order and every other peer's quality.
proof fn lemma_inserted(
    before: Seq<(NodeId, PeerQuality)>,
    i: int,
    peer: NodeId,
    quality: PeerQuality,
)
    requires
        spec_sorted(before),
        0 <= i <= before.len(),
        forall|j: int| 0 <= j < i ==> before[j].0.0 < peer.0,
        i == before.len() || before[i].0.0 > peer.0,
    ensures
        spec_sorted(before.insert(i, (peer, quality))),
        spec_quality(before.insert(i, (peer, quality)), peer) == Some(quality),
        forall|any: NodeId|
            any != peer ==> spec_quality(before.insert(i, (peer, quality)), any) == spec_quality(
                before,
                any,
            ),
{
    let after = before.insert(i, (peer, quality));
    assert forall|k: int| 0 <= k < after.len() implies #[trigger] after[k] == (if k < i {
        before[k]
    } else if k == i {
        (peer, quality)
    } else {
        before[k - 1]
    }) by {}
    assert forall|a: int, b: int| 0 <= a < b < after.len() implies after[a].0.0
        < after[b].0.0 by {
        lemma_inserted_pair(before, i, peer, quality, a, b);
    }
    lemma_quality_at(after, i);
    assert forall|any: NodeId| any != peer implies spec_quality(after, any) == spec_quality(
        before,
        any,
    ) by {
        lemma_inserted_other(before, i, peer, quality, any);
    }
}

/// Two places of the list with the unknown peer put in stand in rising order.
proof fn lemma_inserted_pair(
    before: Seq<(NodeId, PeerQuality)>,
    i: int,
    peer: NodeId,
    quality: PeerQuality,
    a: int,
    b: int,
)
    requires
        spec_sorted(before),
        0 <= i <= before.len(),
        forall|j: int| 0 <= j < i ==> before[j].0.0 < peer.0,
        i == before.len() || before[i].0.0 > peer.0,
        0 <= a < b <= before.len(),
    ensures
        before.insert(i, (peer, quality))[a].0.0 < before.insert(i, (peer, quality))[b].0.0,
{
    let after = before.insert(i, (peer, quality));
    if b < i {
        assert(after[a] == before[a]);
        assert(after[b] == before[b]);
    } else if b == i {
        assert(after[a] == before[a]);
        assert(after[b] == (peer, quality));
    } else if a < i {
        assert(after[a] == before[a]);
        assert(after[b] == before[b - 1]);
        if a < b - 1 {
            assert(before[a].0.0 < before[b - 1].0.0);
        }
    } else if a == i {
        assert(after[a] == (peer, quality));
        assert(after[b] == before[b - 1]);
        if i < b - 1 {
            assert(before[i].0.0 < before[b - 1].0.0);
        }
    } else {
        assert(after[a] == before[a - 1]);
        assert(after[b] == before[b - 1]);
        assert(before[a - 1].0.0 < before[b - 1].0.0);
    }
}

/// A peer other than the one put in has the quality that it had.
proof fn lemma_inserted_other(
    before: Seq<(NodeId, PeerQuality)>,
    i: int,
    peer: NodeId,
    quality: PeerQuality,
    any: NodeId,
)
    requires
        spec_sorted(before),
        spec_sorted(before.insert(i, (peer, quality))),
        0 <= i <= before.len(),
        any != peer,
    ensures
        spec_quality(before.insert(i, (peer, quality)), any) == spec_quality(before, any),
{
    let after = before.insert(i, (peer, quality));
    if exists|j: int| 0 <= j < before.len() && before[j].0 == any {
        let j = choose|j: int| 0 <= j < before.len() && before[j].0 == any;
        lemma_quality_at(before, j);
        let k = if j < i { j } else { j + 1 };
        assert(after[k] == before[j]);
        lemma_quality_at(after, k);
    } else {
        if exists|k: int| 0 <= k < after.len() && after[k].0 == any {
            let k = choose|k: int| 0 <= k < after.len() && after[k].0 == any;
            let j = if k < i { k } else { k - 1 };
            assert(after[k] == before[j]);
            assert(before[j].0 == any);
        }
    }
}

impl PeerList {
    /// The peers stand in rising order of their ids, each once.
    pub open spec fn wf(&self) -> bool {
        spec_sorted(self@.peers)
    }

    /// A list without peers, last changed at `now`.
    pub fn new(max_simultaneous_peers: u32, now: Timestamp) -> (list: PeerList)
        ensures
            list.wf(),
            list@.peers.len() == 0,
            list@.latch == now,
            list@.max_simultaneous_peers == max_simultaneous_peers,
    {
        PeerList { peer_list: Vec::new(), latch: now, max_simultaneous_peers }
    }

    /// The quality of `peer`, where it is known.
    pub fn quality(&self, peer: NodeId) -> (quality: Option<PeerQuality>)
        requires
            self.wf(),
        ensures
            quality == self@.quality(peer),
    {
        let i: usize = self.position(peer);
        if i < self.peer_list.len() && self.peer_list[i].0.0 == peer.0 {
            proof {
                lemma_quality_at(self.peer_list@, i as int);
            }
            Some(self.peer_list[i].1)
        } else {
            proof {
                self.lemma_absent(peer, i);
            }
            None
        }
    }

    /// The number of peers.
    pub fn len(&self) -> (n: usize)
        ensures
            n == self@.peers.len(),
    {
        self.peer_list.len()
    }

    proof fn lemma_absent(&self, peer: NodeId, i: usize)
        requires
            self.wf(),
            i <= self.peer_list@.len(),
            forall|j: int| 0 <= j < i ==> self.peer_list@[j].0.0 < peer.0,
            i == self.peer_list@.len() || self.peer_list@[i as int].0.0 > peer.0,
        ensures
            spec_quality(self.peer_list@, peer) is None,
    {
        if exists|j: int| 0 <= j < self.peer_list@.len() && self.peer_list@[j].0 == peer {
            let j = choose|j: int| 0 <= j < self.peer_list@.len() && self.peer_list@[j].0 == peer;
            if j >= i {
                if j > i {
                    assert(self.peer_list@[i as int].0.0 < self.peer_list@[j].0.0);
                }
            }
        }
    }

    /// The place of the first peer whose id is not below that of `peer`.
    fn position(&self, peer: NodeId) -> (i: usize)
        requires
            self.wf(),
        ensures
            i <= self.peer_list@.len(),
            forall|j: int| 0 <= j < i ==> self.peer_list@[j].0.0 < peer.0,
            i == self.peer_list@.len() || self.peer_list@[i as int].0.0 >= peer.0,
    {
        let mut i: usize = 0;
        while i < self.peer_list.len() && self.peer_list[i].0.0 < peer.0
            invariant
                i <= self.peer_list@.len(),
                forall|j: int| 0 <= j < i ==> self.peer_list@[j].0.0 < peer.0,
            decreases self.peer_list@.len() - i,
        {
            i = i + 1;
        }
        i
    }

    /// Puts `peer` at the quality `quality`, whether it is known or not.
    fn set(&mut self, peer: NodeId, quality: PeerQuality)
        requires
            old(self).wf(),
        ensures
            final(self).wf(),
            old(self)@.with(peer, quality, final(self)@),
            final(self)@.latch == old(self)@.latch,
            old(self)@.quality(peer) is Some ==> final(self)@.peers.len() == old(self)@.peers.len(),
            old(self)@.quality(peer) is None ==> final(self)@.peers.len() == old(self)@.peers.len()
                + 1,
    {
        let i: usize = self.position(peer);
        let ghost before = self.peer_list@;
        if i < self.peer_list.len() && self.peer_list[i].0.0 == peer.0 {
            self.peer_list.remove(i);
            self.peer_list.insert(i, (peer, quality));
            proof {
                assert(self.peer_list@ =~= before.update(i as int, (peer, quality)));
                lemma_replaced(before, i as int, quality);
            }
        } else {
            proof {
                self.lemma_absent(peer, i);
            }
            self.peer_list.insert(i, (peer, quality));
            proof {
                lemma_inserted(before, i as int, peer, quality);
            }
        }
    }

    /// Makes `peer` known, as one of unknown quality; a peer that is known stays as it is.
    pub fn register_peer(&mut self, peer: NodeId, now: Timestamp)
        requires
            old(self).wf(),
        ensures
            final(self).wf(),
            old(self)@.quality(peer) is Some ==> final(self)@ == old(self)@,
            old(self)@.quality(peer) is None ==> old(self)@.with(
                peer,
                PeerQuality::Unknown,
                final(self)@,
            ) && final(self)@.latch == now,
    {
        if self.quality(peer).is_some() {
            return ;
        }
        self.set(peer, PeerQuality::Unknown);
        self.latch = now;
    }

    /// The dishonest peers, in rising order of their ids.
    pub fn dishonest_peers(&self) -> (peers: Vec<NodeId>)
        ensures
            peers@ == spec_dishonest(self@.peers),
    {
        self.select(PeerQuality::Dishonest, PeerQuality::Dishonest)
    }

    /// Forgets every peer.
    pub fn flush(&mut self)
        ensures
            final(self).wf(),
            final(self)@.peers.len() == 0,
            final(self)@.latch == old(self)@.latch,
            final(self)@.max_simultaneous_peers == old(self)@.max_simultaneous_peers,
    {
        self.peer_list.clear();
    }

    /// Forgets the dishonest peers.
    pub fn flush_dishonest_peers(&mut self, now: Timestamp)
        requires
            old(self).wf(),
        ensures
            final(self).wf(),
            final(self)@.latch == now,
            final(self)@.max_simultaneous_peers == old(self)@.max_simultaneous_peers,
            forall|peer: NodeId|
                final(self)@.quality(peer) == (if old(self)@.quality(peer) == Some(
                    PeerQuality::Dishonest,
                ) {
                    None
                } else {
                    old(self)@.quality(peer)
                }),
    {
        let ghost before = self.peer_list@;
        let mut kept: Vec<(NodeId, PeerQuality)> = Vec::new();
        let ghost mut origin: Seq<int> = Seq::empty();
        let mut i: usize = 0;
        while i < self.peer_list.len()
            invariant
                i <= self.peer_list@.len(),
                self.peer_list@ == before,
                spec_sorted(before),
                origin.len() == kept@.len(),
                forall|k: int|
                    0 <= k < kept@.len() ==> 0 <= #[trigger] origin[k] < i && kept@[k]
                        == before[origin[k]] && kept@[k].1 != PeerQuality::Dishonest,
                forall|a: int, b: int| 0 <= a < b < kept@.len() ==> origin[a] < origin[b],
                forall|j: int|
                    0 <= j < i && before[j].1 != PeerQuality::Dishonest ==> exists|k: int|
                        0 <= k < kept@.len() && origin[k] == j,
            decreases self.peer_list@.len() - i,
        {
            let entry: (NodeId, PeerQuality) = self.peer_list[i];
            let dishonest: bool = entry.1 == PeerQuality::Dishonest;
            if !dishonest {
                let ghost earlier = origin;
                let ghost kept_before = kept@;
                kept.push(entry);
                proof {
                    origin = origin.push(i as int);
                    assert forall|k: int| 0 <= k < kept@.len() implies 0 <= #[trigger] origin[k]
                        < i + 1 && kept@[k] == before[origin[k]] && kept@[k].1
                        != PeerQuality::Dishonest by {
                        if k < kept_before.len() {
                            assert(origin[k] == earlier[k]);
                            assert(kept@[k] == kept_before[k]);
                        }
                    }
                    assert forall|j: int|
                        0 <= j < i + 1 && before[j].1 != PeerQuality::Dishonest implies exists|
                        k: int,
                    | 0 <= k < kept@.len() && origin[k] == j by {
                        if j < i {
                            let k = choose|k: int| 0 <= k < earlier.len() && earlier[k] == j;
                            assert(origin[k] == j);
                        } else {
                            assert(origin[earlier.len() as int] == j);
                        }
                    }
                }
            }
            i = i + 1;
        }
        self.peer_list = kept;
        self.latch = now;
        proof {
            let after = self.peer_list@;
            assert forall|a: int, b: int| 0 <= a < b < after.len() implies after[a].0.0
                < after[b].0.0 by {
                assert(origin[a] < origin[b]);
            }
            assert forall|peer: NodeId|
                spec_quality(after, peer) == (if spec_quality(before, peer) == Some(
                    PeerQuality::Dishonest,
                ) {
                    None
                } else {
                    spec_quality(before, peer)
                }) by {
                if exists|k: int| 0 <= k < after.len() && after[k].0 == peer {
                    let k = choose|k: int| 0 <= k < after.len() && after[k].0 == peer;
                    lemma_quality_at(after, k);
                    lemma_quality_at(before, origin[k]);
                } else {
                    if exists|j: int| 0 <= j < before.len() && before[j].0 == peer {
                        let j = choose|j: int| 0 <= j < before.len() && before[j].0 == peer;
                        lemma_quality_at(before, j);
                        if before[j].1 != PeerQuality::Dishonest {
                            let k = choose|k: int| 0 <= k < after.len() && origin[k] == j;
                            assert(after[k].0 == peer);
                        }
                    }
                }
            }
        }
    }

    /// Marks `peer` as dishonest, whether it is known or not.
    pub fn disqualify_peer(&mut self, peer: Option<NodeId>, now: Timestamp)
        requires
            old(self).wf(),
        ensures
            final(self).wf(),
            match peer {
                Some(peer) => old(self)@.with(peer, PeerQuality::Dishonest, final(self)@)
                    && final(self)@.latch == now,
                None => final(self)@ == old(self)@,
            },
    {
        if let Some(peer_id) = peer {
            self.set(peer_id, PeerQuality::Dishonest);
            self.latch = now;
        }
    }

    /// Raises the quality of `peer` by one step; an unknown peer becomes known. A dishonest
    /// peer stays dishonest, and a reliable one reliable.
    pub fn promote_peer(&mut self, peer: Option<NodeId>)
        requires
            old(self).wf(),
        ensures
            final(self).wf(),
            final(self)@.latch == old(self)@.latch,
            match peer {
                Some(peer) => old(self)@.with(
                    peer,
                    match old(self)@.quality(peer) {
                        Some(quality) => spec_promoted(quality),
                        None => PeerQuality::Unknown,
                    },
                    final(self)@,
                ),
                None => final(self)@ == old(self)@,
            },
    {
        if let Some(peer_id) = peer {
            match self.quality(peer_id) {
                None => {
                    self.set(peer_id, PeerQuality::Unknown);
                },
                Some(quality) => {
                    let promoted: PeerQuality = match quality {
                        PeerQuality::Dishonest => PeerQuality::Dishonest,
                        PeerQuality::Unknown => PeerQuality::Unreliable,
                        PeerQuality::Unresponsive => PeerQuality::Unreliable,
                        PeerQuality::Unreliable => PeerQuality::Reliable,
                        PeerQuality::Reliable => PeerQuality::Reliable,
                    };
                    self.set(peer_id, promoted);
                },
            }
        }
    }

    /// Lowers the quality of `peer` by one step. A peer that is not known stays so; a
    /// dishonest peer stays dishonest, and one of unknown quality stays at that.
    pub fn demote_peer(&mut self, peer: Option<NodeId>)
        requires
            old(self).wf(),
        ensures
            final(self).wf(),
            final(self)@.latch == old(self)@.latch,
            match peer {
                Some(peer) => match old(self)@.quality(peer) {
                    Some(quality) => old(self)@.with(peer, spec_demoted(quality), final(self)@),
                    None => final(self)@ == old(self)@,
                },
                None => final(self)@ == old(self)@,
            },
    {
        if let Some(peer_id) = peer {
            match self.quality(peer_id) {
                None => {},
                Some(quality) => {
                    let demoted: PeerQuality = match quality {
                        PeerQuality::Dishonest => PeerQuality::Dishonest,
                        PeerQuality::Unknown => PeerQuality::Unknown,
                        PeerQuality::Unresponsive => PeerQuality::Unknown,
                        PeerQuality::Unreliable => PeerQuality::Unresponsive,
                        PeerQuality::Reliable => PeerQuality::Unreliable,
                    };
                    self.set(peer_id, demoted);
                },
            }
        }
    }

    /// The ids of the peers whose quality is `first` or `second`, in rising order.
    fn select(&self, first: PeerQuality, second: PeerQuality) -> (peers: Vec<NodeId>)
        ensures
            peers@ == spec_with_quality(self@.peers, first, second),
    {
        let mut peers: Vec<NodeId> = Vec::new();
        let mut i: usize = 0;
        while i < self.peer_list.len()
            invariant
                i <= self.peer_list@.len(),
                peers@ == spec_with_quality(self.peer_list@.take(i as int), first, second),
            decreases self.peer_list@.len() - i,
        {
            proof {
                let next = self.peer_list@.take(i + 1);
                assert(next.drop_last() =~= self.peer_list@.take(i as int));
                assert(next.last() == self.peer_list@[i as int]);
            }
            if self.peer_list[i].1 == first || self.peer_list[i].1 == second {
                peers.push(self.peer_list[i].0);
            }
            i = i + 1;
        }
        assert(self.peer_list@.take(i as int) =~= self.peer_list@);
        peers
    }

    /// Whether new peers are needed at the time `now`.
    pub fn need_peers(&self, now: Timestamp) -> (needed: bool)
        ensures
            needed == self@.needs_peers(now),
    {
        if self.peer_list.len() == 0 {
            return true;
        }
        // periodically ask for refreshed peers
        if now.saturating_diff(self.latch).0 > TimeDiff::from_seconds(PEER_REFRESH_INTERVAL).0 {
            return true;
        }
        // if the reliable and the untried peers are fewer than are asked at once, ask for new
        // peers
        let reliability_goal: usize = self.max_simultaneous_peers as usize;
        self.select(PeerQuality::Reliable, PeerQuality::Unknown).len() < reliability_goal
    }

    /// The peers to ask, given `chosen` as what was drawn from the reliable peers.
    ///
    /// Where more were drawn than are asked at once, as many of the unreliable and the untried
    /// peers follow them as were drawn beyond that number, or all of them where they are
    /// fewer, drawn at random; else the peers to ask are those drawn.
    pub fn qualified_from(&self, chosen: Vec<NodeId>, rng: &mut rand::rngs::StdRng) -> (peers: Vec<
        NodeId,
    >)
        ensures
            chosen@.len() <= self@.max_simultaneous_peers ==> peers@ == chosen@,
            chosen@.len() > self@.max_simultaneous_peers ==> ({
                let missing = chosen@.len() - self@.max_simultaneous_peers;
                let others = spec_with_quality(
                    self@.peers,
                    PeerQuality::Unreliable,
                    PeerQuality::Unknown,
                );
                exists|more: Seq<NodeId>|
                    {
                        &&& peers@ == chosen@ + more
                        &&& more.len() == if missing <= others.len() {
                            missing
                        } else {
                            others.len() as int
                        }
                        &&& spec_chosen_from(more, others)
                    }
            }),
    {
        let up_to: usize = self.max_simultaneous_peers as usize;
        let mut peers: Vec<NodeId> = chosen;
        // if beyond the limit get semi-useful
        let missing: usize = if peers.len() >= up_to {
            peers.len() - up_to
        } else {
            0
        };
        if missing > 0 {
            let others: Vec<NodeId> = self.select(PeerQuality::Unreliable, PeerQuality::Unknown);
            let amount: usize = if missing <= others.len() {
                missing
            } else {
                others.len()
            };
            let mut better_than_nothing: Vec<NodeId> = choose_multiple(others, rng, amount);
            let ghost more = better_than_nothing@;
            peers.append(&mut better_than_nothing);
            assert(peers@ == chosen@ + more);
        }
        peers
    }

    /// The peers to ask: as many of the reliable peers as are asked at once, or all of them
    /// where they are fewer, drawn at random.
    pub fn qualified_peers(&self, rng: &mut rand::rngs::StdRng) -> (peers: Vec<NodeId>)
        ensures
            ({
                let reliable = spec_reliable(self@.peers);
                &&& peers@.len() == if self@.max_simultaneous_peers <= reliable.len() {
                    self@.max_simultaneous_peers as int
                } else {
                    reliable.len() as int
                }
                &&& spec_chosen_from(peers@, reliable)
            }),
    {
        let up_to: usize = self.max_simultaneous_peers as usize;
        // get most useful up to limit
        let reliable: Vec<NodeId> = self.select(PeerQuality::Reliable, PeerQuality::Reliable);
        let amount: usize = if up_to <= reliable.len() {
            up_to
        } else {
            reliable.len()
        };
        let chosen: Vec<NodeId> = choose_multiple(reliable, rng, amount);
        self.qualified_from(chosen, rng)
    }
}

proof fn lemma_same_elsewhere(
    before: Seq<(NodeId, PeerQuality)>,
    after: Seq<(NodeId, PeerQuality)>,
    any: NodeId,
    i: int,
)
    requires
        spec_sorted(before),
        spec_sorted(after),
        before.len() == after.len(),
        0 <= i < before.len(),
        forall|k: int| 0 <= k < after.len() ==> #[trigger] after[k].0 == before[k].0,
        forall|k: int| 0 <= k < after.len() && k != i ==> #[trigger] after[k] == before[k],
        any != before[i].0,
    ensures
        spec_quality(after, any) == spec_quality(before, any),
{
    if exists|j: int| 0 <= j < before.len() && before[j].0 == any {
        let j = choose|j: int| 0 <= j < before.len() && before[j].0 == any;
        lemma_quality_at(before, j);
        assert(after[j] == before[j]);
        lemma_quality_at(after, j);
    } else {
        if exists|k: int| 0 <= k < after.len() && after[k].0 == any {
            let k = choose|k: int| 0 <= k < after.len() && after[k].0 == any;
            assert(before[k].0 == any);
        }
    }
}

} // verus!
