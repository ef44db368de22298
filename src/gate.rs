//! The genesis synchronisation tracker.
use vstd::prelude::*;

verus! {

/// Whether the primary chain has reached the rollup's anchor height.
#[derive(Debug, Clone, Copy, PartialEq, Eq, Structural)]
pub enum SyncState {
    WaitingForGenesis,
    Synced,
}

/// What the tracker answers to one committed tip height.
#[derive(Debug, Clone, Copy, PartialEq, Eq, Structural)]
pub enum GateResult {
    /// The tip is still below the anchor height.
    StillWaiting(u64),
    /// This tip is the first one at or above the anchor height.
    ReachedGenesis(u64),
    /// The tracker had already reached genesis; nothing is triggered again.
    AlreadySynced(u64),
}

/// Tracks committed tip heights until the anchor height is reached.
#[derive(Debug, Clone, Copy)]
pub struct GenesisSyncGate {
    pub anchor_height: u64,
    /// The highest tip that was handed to the tracker, kept for diagnostics.
    pub highest_seen: Option<u64>,
    pub state: SyncState,
}

/// The answer of a tracker in state `synced` to the tip `tip`.
pub open spec fn gate_answer(anchor: u64, synced: bool, tip: u64) -> GateResult {
    if synced {
        GateResult::AlreadySynced(tip)
    } else if tip >= anchor {
        GateResult::ReachedGenesis(tip)
    } else {
        GateResult::StillWaiting(tip)
    }
}

/// The larger of the recorded highest tip and a new tip.
pub open spec fn raise_highest(highest: Option<u64>, tip: u64) -> Option<u64> {
    match highest {
        Some(h) => if h >= tip { Some(h) } else { Some(tip) },
        None => Some(tip),
    }
}

/// The answers of a fresh tracker with anchor `anchor` to the tips `tips`, in order.
pub open spec fn gate_run(anchor: u64, tips: Seq<u64>) -> Seq<GateResult>
    decreases tips.len(),
{
    if tips.len() == 0 {
        Seq::empty()
    } else {
        let prefix = tips.drop_last();
        let synced = exists|j: int| 0 <= j < prefix.len() && prefix[j] >= anchor;
        gate_run(anchor, prefix).push(gate_answer(anchor, synced, tips.last()))
    }
}

/// Whether some tip of `tips` is at or above `anchor`.
pub open spec fn reaches(anchor: u64, tips: Seq<u64>) -> bool {
    exists|j: int| 0 <= j < tips.len() && tips[j] >= anchor
}

/// Whether `i` is the first index of `tips` whose tip is at or above `anchor`.
pub open spec fn first_reaching(anchor: u64, tips: Seq<u64>, i: int) -> bool {
    &&& 0 <= i < tips.len()
    &&& tips[i] >= anchor
    &&& forall|j: int| 0 <= j < i ==> tips[j] < anchor
}

impl GenesisSyncGate {
    pub open spec fn is_synced(&self) -> bool {
        self.state == SyncState::Synced
    }

    /// A tracker waiting for the anchor height `anchor_height`.
    pub fn new(anchor_height: u64) -> (r: GenesisSyncGate)
        ensures
            r.anchor_height == anchor_height,
            r.highest_seen is None,
            r.state == SyncState::WaitingForGenesis,
    {
        GenesisSyncGate { anchor_height, highest_seen: None, state: SyncState::WaitingForGenesis }
    }

    /// Hands one committed tip height to the tracker.
    ///
    /// The tracker turns `Synced` the first time a tip is at or above the anchor
    /// height, whatever heights were skipped before it; afterwards it answers
    /// `AlreadySynced` and never reports genesis again.
    pub fn process(&mut self, tip: u64) -> (r: GateResult)
        ensures
            r == gate_answer(old(self).anchor_height, old(self).is_synced(), tip),
            final(self).anchor_height == old(self).anchor_height,
            final(self).highest_seen == raise_highest(old(self).highest_seen, tip),
            final(self).is_synced() == (old(self).is_synced() || tip >= old(self).anchor_height),
    {
        self.highest_seen = match self.highest_seen {
            Some(h) => if h >= tip { Some(h) } else { Some(tip) },
            None => Some(tip),
        };
        match self.state {
            SyncState::Synced => GateResult::AlreadySynced(tip),
            SyncState::WaitingForGenesis => {
                if tip >= self.anchor_height {
                    self.state = SyncState::Synced;
                    GateResult::ReachedGenesis(tip)
                } else {
                    GateResult::StillWaiting(tip)
                }
            },
        }
    }

    /// Whether the anchor height has been reached.
    pub fn synced(&self) -> (r: bool)
        ensures
            r == self.is_synced(),
    {
        match self.state {
            SyncState::Synced => true,
            SyncState::WaitingForGenesis => false,
        }
    }
}

/// Runs a fresh tracker with anchor `anchor` over `tips`, collecting its answers.
pub fn process_all(anchor: u64, tips: &Vec<u64>) -> (r: Vec<GateResult>)
    ensures
        r@ == gate_run(anchor, tips@),
{
    let mut gate = GenesisSyncGate::new(anchor);
    let mut out: Vec<GateResult> = Vec::new();
    let mut i: usize = 0;
    while i < tips.len()
        invariant
            0 <= i <= tips.len(),
            gate.anchor_height == anchor,
            out@ == gate_run(anchor, tips@.subrange(0, i as int)),
            gate.is_synced() == reaches(anchor, tips@.subrange(0, i as int)),
        decreases tips.len() - i,
    {
        let ghost before = tips@.subrange(0, i as int);
        let ghost after = tips@.subrange(0, i + 1);
        assert(after.drop_last() =~= before);
        assert(reaches(anchor, before) ==> reaches(anchor, after)) by {
            if reaches(anchor, before) {
                let j = choose|j: int| 0 <= j < before.len() && before[j] >= anchor;
                assert(after[j] == before[j]);
            }
        }
        let res = gate.process(tips[i]);
        out.push(res);
        i = i + 1;
    }
    assert(tips@.subrange(0, tips.len() as int) =~= tips@);
    out
}

/// Over any sequence of tips, a fresh tracker reports genesis exactly once when some
/// tip reaches the anchor height and never otherwise, and it does so at the first
/// such tip, whatever heights were skipped before it.
pub proof fn lemma_single_transition(anchor: u64, tips: Seq<u64>)
    ensures
        gate_run(anchor, tips).len() == tips.len(),
        forall|i: int| 0 <= i < tips.len() ==>
            (gate_run(anchor, tips)[i] is ReachedGenesis <==> first_reaching(anchor, tips, i)),
        forall|i: int| 0 <= i < tips.len() && !reaches(anchor, tips.subrange(0, i + 1)) ==>
            gate_run(anchor, tips)[i] == GateResult::StillWaiting(tips[i]),
    decreases tips.len(),
{
    if tips.len() > 0 {
        let prefix = tips.drop_last();
        lemma_single_transition(anchor, prefix);
        let n = tips.len() - 1;
        assert forall|j: int| 0 <= j < n implies prefix[j] == tips[j] by {}
        assert forall|j: int| 0 <= j < n implies gate_run(anchor, tips)[j] == gate_run(anchor, prefix)[j] by {}
        assert forall|i: int| 0 <= i < tips.len() implies
            (gate_run(anchor, tips)[i] is ReachedGenesis <==> first_reaching(anchor, tips, i)) by {
            if i < n {
                assert(prefix[i] == tips[i]);
                assert(first_reaching(anchor, tips, i) == first_reaching(anchor, prefix, i));
            } else {
                if reaches(anchor, prefix) {
                    let j = choose|j: int| 0 <= j < prefix.len() && prefix[j] >= anchor;
                    assert(tips[j] == prefix[j]);
                }
                if !first_reaching(anchor, tips, i) && tips[i] >= anchor {
                    let j = choose|j: int| 0 <= j < i && !(tips[j] < anchor);
                    assert(prefix[j] == tips[j]);
                }
            }
        }
        assert forall|i: int| 0 <= i < tips.len() && !reaches(anchor, tips.subrange(0, i + 1)) implies
            gate_run(anchor, tips)[i] == GateResult::StillWaiting(tips[i]) by {
            if i < n {
                assert(tips.subrange(0, i + 1) =~= prefix.subrange(0, i + 1));
            } else {
                assert(tips.subrange(0, i + 1) =~= tips);
                if reaches(anchor, prefix) {
                    let j = choose|j: int| 0 <= j < prefix.len() && prefix[j] >= anchor;
                    assert(tips[j] == prefix[j]);
                }
                assert(tips[i] == tips.subrange(0, i + 1)[i]);
            }
        }
    }
}

/// Over any sequence of tips, at most one answer of a fresh tracker reports genesis.
pub proof fn lemma_genesis_reported_once(anchor: u64, tips: Seq<u64>, i: int, k: int)
    requires
        0 <= i < tips.len(),
        0 <= k < tips.len(),
        gate_run(anchor, tips)[i] is ReachedGenesis,
        gate_run(anchor, tips)[k] is ReachedGenesis,
    ensures
        i == k,
{
    lemma_single_transition(anchor, tips);
    assert(first_reaching(anchor, tips, i) && first_reaching(anchor, tips, k));
    if i < k {
        assert(tips[i] < anchor);
    } else if k < i {
        assert(tips[k] < anchor);
    }
}

} // verus!
