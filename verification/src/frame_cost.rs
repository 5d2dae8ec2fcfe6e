//! Bounded latest-per-view store of externally validated GPU frame costs.
//!
//! An adapter publishes a sample per view, stamped with the measurement
//! epoch, the frame that produced it and its monotonic sampling time (in
//! nanoseconds). Within a view only a sample of a newer epoch, or of the same
//! epoch with a later frame and no earlier sampling time, replaces the
//! retained one; old, duplicate and delayed samples are rejected. At
//! capacity a new view evicts the least recently sampled view, and only with
//! a later sampling time. The measured payload is carried unchanged.

use std::collections::BTreeMap;
use vstd::prelude::*;
use vstd::std_specs::btree::spec_btree_map_iter;
use vstd::std_specs::iter::IteratorSpec;

verus! {

broadcast use vstd::std_specs::btree::group_btree_axioms;

/// Maximum retained views of a [`FrameCostRegistry`].
pub const MAX_COST_VIEWS: usize = 64;

/// The identity a validated cost sample carries.
#[derive(Clone, Copy, Debug, PartialEq, Eq, Structural)]
pub struct CostStamp {
    pub epoch: u64,
    pub frame_id: u64,
    pub sampled_at: u64,
}

/// A published sample of one view.
#[derive(Clone, Copy, Debug, PartialEq, Eq)]
pub struct CostSample<T> {
    pub view_id: u64,
    pub stamp: CostStamp,
    pub payload: T,
}

/// Whether a sample stamped `next` may replace one stamped `previous` of
/// the same view: a newer epoch, or the same epoch with a strictly later
/// frame and a sampling time that does not go backwards.
pub open spec fn supersedes(previous: CostStamp, next: CostStamp) -> bool {
    !(next.epoch < previous.epoch || (next.epoch == previous.epoch && (next.frame_id
        <= previous.frame_id || next.sampled_at < previous.sampled_at)))
}

/// Decide whether `next` may replace `previous`.
pub fn stamp_supersedes(previous: &CostStamp, next: &CostStamp) -> (r: bool)
    ensures
        r == supersedes(*previous, *next),
{
    !(next.epoch < previous.epoch || (next.epoch == previous.epoch && (next.frame_id
        <= previous.frame_id || next.sampled_at < previous.sampled_at)))
}

/// Whether `k` names the least recently sampled view, the first in
/// view-ID order among equal sampling times.
pub open spec fn is_least_recent<T>(m: Map<u64, CostSample<T>>, k: u64) -> bool {
    &&& m.contains_key(k)
    &&& forall|k2: u64| #[trigger]
        m.contains_key(k2) ==> m[k].stamp.sampled_at <= m[k2].stamp.sampled_at && (
        m[k2].stamp.sampled_at == m[k].stamp.sampled_at ==> k <= k2)
}

/// The view whose sample an eviction replaces.
pub open spec fn least_recent_view<T>(m: Map<u64, CostSample<T>>) -> u64 {
    choose|k: u64| is_least_recent(m, k)
}

/// At most one view is the least recently sampled.
pub proof fn lemma_least_recent_unique<T>(m: Map<u64, CostSample<T>>, a: u64, b: u64)
    requires
        is_least_recent(m, a),
        is_least_recent(m, b),
    ensures
        a == b,
{
    assert(m[a].stamp.sampled_at <= m[b].stamp.sampled_at);
    assert(m[b].stamp.sampled_at <= m[a].stamp.sampled_at);
    assert(a <= b);
    assert(b <= a);
}

/// What publishing `sample` into the retained map `m` does: the result `r`
/// and the map `m2` afterwards.
pub open spec fn cost_publish_outcome<T>(
    m: Map<u64, CostSample<T>>,
    sample: CostSample<T>,
    r: bool,
    m2: Map<u64, CostSample<T>>,
) -> bool {
    let v = sample.view_id;
    &&& m.contains_key(v) ==> (r <==> supersedes(m[v].stamp, sample.stamp))
    &&& !m.contains_key(v) && m.len() < MAX_COST_VIEWS ==> r
    &&& !m.contains_key(v) && m.len() >= MAX_COST_VIEWS ==> (r <==> m[least_recent_view(
        m,
    )].stamp.sampled_at < sample.stamp.sampled_at)
    &&& r && (m.contains_key(v) || m.len() < MAX_COST_VIEWS) ==> m2 == m.insert(v, sample)
    &&& r && !m.contains_key(v) && m.len() >= MAX_COST_VIEWS ==> m2 == m.remove(
        least_recent_view(m),
    ).insert(v, sample)
    &&& !r ==> m2 == m
}

/// The latest validated cost sample of each view, bounded.
#[derive(Clone, Debug)]
pub struct FrameCostRegistry<T> {
    samples: BTreeMap<u64, CostSample<T>>,
}

impl<T: Copy> FrameCostRegistry<T> {
    /// Retained samples, by view.
    pub closed spec fn view(&self) -> Map<u64, CostSample<T>> {
        self.samples@
    }

    /// Every sample is filed under its own view, and at most
    /// [`MAX_COST_VIEWS`] are retained.
    pub open spec fn well_formed(&self) -> bool {
        &&& self.view().dom().finite()
        &&& self.view().len() <= MAX_COST_VIEWS
        &&& forall|k: u64| #[trigger] self.view().contains_key(k) ==> self.view()[k].view_id == k
    }

    /// An empty store; no sample source is installed by default.
    pub fn new() -> (r: Self)
        ensures
            r.well_formed(),
            r.view() == Map::<u64, CostSample<T>>::empty(),
    {
        FrameCostRegistry { samples: BTreeMap::new() }
    }

    /// Find the least recently sampled view, as [`is_least_recent`] defines it.
    fn least_recent(&self) -> (r: (u64, CostStamp))
        requires
            self.well_formed(),
            self.view().len() > 0,
        ensures
            is_least_recent(self.view(), r.0),
            r.1 == self.view()[r.0].stamp,
    {
        let m = &self.samples;
        let mut best: Option<(u64, CostStamp)> = None;
        let ghost mut best_pos: int = 0;
        for (k, s) in it: m.iter()
            invariant
                it.seq() == spec_btree_map_iter(m).remaining(),
                best is None <==> it.index() == 0,
                best matches Some(b) ==> {
                    &&& 0 <= best_pos < it.index()
                    &&& *it.seq()[best_pos].0 == b.0
                    &&& m@.contains_key(b.0)
                    &&& m@[b.0].stamp == b.1
                    &&& forall|i: int|
                        0 <= i < it.index() ==> {
                            &&& b.1.sampled_at <= (*(#[trigger] it.seq()[i]).1).stamp.sampled_at
                            &&& (*it.seq()[i].1).stamp.sampled_at == b.1.sampled_at ==> best_pos
                                <= i
                        }
                },
        {
            match best {
                None => {
                    best = Some((*k, s.stamp));
                    proof {
                        best_pos = it.index() as int;
                    }
                },
                Some(b) => {
                    if s.stamp.sampled_at < b.1.sampled_at {
                        best = Some((*k, s.stamp));
                        proof {
                            best_pos = it.index() as int;
                        }
                    }
                },
            }
        }
        let b = best.unwrap();
        proof {
            let s = spec_btree_map_iter(m).remaining();
            let keys = s.map_values(|kv: (&u64, &CostSample<T>)| *kv.0);
            assert forall|k2: u64| #[trigger]
                m@.contains_key(k2) implies m@[b.0].stamp.sampled_at <= m@[k2].stamp.sampled_at && (
            m@[k2].stamp.sampled_at == m@[b.0].stamp.sampled_at ==> b.0 <= k2) by {
                assert(s.contains((&k2, &m@[k2])));
                let i = choose|i: int| 0 <= i < s.len() && s[i] == (&k2, &m@[k2]);
                assert(keys[i] == k2);
                assert(keys[best_pos] == b.0);
                if m@[k2].stamp.sampled_at == m@[b.0].stamp.sampled_at {
                    assert(best_pos <= i);
                    if best_pos < i {
                        crate::key_order::lemma_increasing_keys(keys, best_pos, i);
                    }
                }
            }
        }
        b
    }

    /// Publish a sample the adapter has validated. Returns whether it was
    /// retained; old, duplicate and delayed samples are rejected.
    pub fn publish(&mut self, sample: CostSample<T>) -> (r: bool)
        requires
            old(self).well_formed(),
        ensures
            final(self).well_formed(),
            cost_publish_outcome(old(self).view(), sample, r, final(self).view()),
    {
        let ghost m = self.samples@;
        let v = sample.view_id;
        match self.samples.get(&v) {
            Some(previous) => {
                if !stamp_supersedes(&previous.stamp, &sample.stamp) {
                    return false;
                }
            },
            None => {
                if self.samples.len() >= MAX_COST_VIEWS {
                    let (oldest_view, oldest) = self.least_recent();
                    proof {
                        lemma_least_recent_unique(m, oldest_view, least_recent_view(m));
                    }
                    if sample.stamp.sampled_at <= oldest.sampled_at {
                        return false;
                    }
                    self.samples.remove(&oldest_view);
                    proof {
                        assert(self.samples@ == m.remove(oldest_view));
                        assert(self.samples@.len() == m.len() - 1);
                    }
                }
            },
        }
        self.samples.insert(v, sample);
        true
    }

    /// The retained sample of a view.
    pub fn latest(&self, view_id: u64) -> (r: Option<CostSample<T>>)
        requires
            self.well_formed(),
        ensures
            r == if self.view().contains_key(view_id) {
                Some(self.view()[view_id])
            } else {
                None
            },
    {
        match self.samples.get(&view_id) {
            Some(sample) => Some(*sample),
            None => None,
        }
    }
}

/// Within one view the retained stamp never moves backwards: a newer
/// epoch, or a later frame of the same epoch sampled no earlier.
pub proof fn law_retained_sample_never_regresses<T>(
    m: Map<u64, CostSample<T>>,
    sample: CostSample<T>,
    r: bool,
    m2: Map<u64, CostSample<T>>,
    view: u64,
)
    requires
        cost_publish_outcome(m, sample, r, m2),
        m.contains_key(view),
        m2.contains_key(view),
    ensures
        m2[view] == m[view] || supersedes(m[view].stamp, m2[view].stamp),
{
    if r && sample.view_id == view {
        if !m.contains_key(sample.view_id) {
            assert(false);
        }
    }
}

} // verus!
