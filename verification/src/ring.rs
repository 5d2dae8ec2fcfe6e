//! A fixed-capacity ring of recent samples that reports them oldest first.
//!
//! The backing storage is circular: once it is full, the oldest sample sits
//! at the write position, not at index zero. A snapshot hands samples back in
//! push order regardless, so that a reader slicing by position (for example
//! "the samples after warmup ended") reads the elements it means.

use vstd::prelude::*;

verus! {

/// The most recent `capacity` elements of `s`, in order.
pub open spec fn newest<T>(capacity: nat, s: Seq<T>) -> Seq<T> {
    if s.len() <= capacity {
        s
    } else {
        s.subrange(s.len() - capacity, s.len() as int)
    }
}

/// Keeping the newest elements after each push is keeping the newest of the
/// whole history: a ring fed sample by sample retains exactly the last
/// `capacity` samples pushed, oldest first.
pub proof fn law_newest_of_push<T>(capacity: nat, s: Seq<T>, x: T)
    requires
        capacity > 0,
    ensures
        newest(capacity, newest(capacity, s).push(x)) == newest(capacity, s.push(x)),
{
    let t = s.push(x);
    if s.len() <= capacity {
        assert(newest(capacity, s) == s);
    } else {
        let n = newest(capacity, s);
        assert(n.len() == capacity);
        let lhs = newest(capacity, n.push(x));
        let rhs = newest(capacity, t);
        assert(lhs.len() == rhs.len());
        assert forall|i: int| 0 <= i < lhs.len() implies lhs[i] == rhs[i] by {
            if i + 1 < capacity {
                assert(lhs[i] == n[i + 1]);
                assert(n[i + 1] == s[s.len() - capacity + i + 1]);
            }
        }
        assert(lhs =~= rhs);
    }
}

/// A fixed-capacity ring of recent samples.
#[derive(Debug, Clone)]
pub struct SampleRing<T> {
    samples: Vec<T>,
    next: usize,
    capacity: usize,
}

impl<T: Copy> SampleRing<T> {
    /// The retained samples, oldest first.
    pub closed spec fn view(&self) -> Seq<T> {
        if self.samples@.len() < self.capacity {
            self.samples@
        } else {
            self.samples@.subrange(self.next as int, self.samples@.len() as int)
                + self.samples@.subrange(0, self.next as int)
        }
    }

    /// The number of samples the ring keeps.
    pub closed spec fn spec_capacity(&self) -> nat {
        self.capacity as nat
    }

    /// The storage never exceeds the capacity; it is written in order until
    /// full, then circularly from the write position.
    pub closed spec fn well_formed(&self) -> bool {
        &&& self.capacity > 0
        &&& self.samples@.len() <= self.capacity
        &&& self.samples@.len() < self.capacity ==> self.next == 0
        &&& self.samples@.len() == self.capacity ==> self.next < self.capacity
    }

    /// An empty ring keeping up to `capacity` samples.
    pub fn new(capacity: usize) -> (r: Self)
        requires
            capacity > 0,
        ensures
            r.well_formed(),
            r.view() == Seq::<T>::empty(),
            r.spec_capacity() == capacity,
    {
        SampleRing { samples: Vec::new(), next: 0, capacity }
    }

    /// The number of samples the ring keeps.
    pub fn capacity(&self) -> (r: usize)
        ensures
            r == self.spec_capacity(),
    {
        self.capacity
    }

    /// The number of samples currently retained.
    pub fn len(&self) -> (r: usize)
        requires
            self.well_formed(),
        ensures
            r == self.view().len(),
    {
        self.samples.len()
    }

    /// Retain `sample` as the newest, dropping the oldest once full.
    pub fn push(&mut self, sample: T)
        requires
            old(self).well_formed(),
        ensures
            final(self).well_formed(),
            final(self).spec_capacity() == old(self).spec_capacity(),
            final(self).view() == newest(old(self).spec_capacity(), old(self).view().push(sample)),
    {
        let ghost before = self.view();
        if self.samples.len() < self.capacity {
            self.samples.push(sample);
            proof {
                if self.samples@.len() == self.capacity {
                    assert(self.view() =~= self.samples@.subrange(0, self.samples@.len() as int)
                        + self.samples@.subrange(0, 0));
                }
                assert(before.push(sample) =~= self.samples@);
            }
        } else {
            let i = self.next;
            let ghost old_samples = self.samples@;
            self.samples.set(i, sample);
            self.next = if i + 1 == self.capacity {
                0
            } else {
                i + 1
            };
            proof {
                let cap = self.capacity as int;
                let t = before.push(sample);
                let expected = newest(self.capacity as nat, t);
                assert(before.len() == cap);
                assert(expected =~= t.subrange(1, cap + 1));
                assert forall|j: int| 0 <= j < cap implies #[trigger] self.view()[j] == expected[j] by {
                    assert(expected[j] == t[j + 1]);
                    if j + 1 < cap {
                        assert(t[j + 1] == before[j + 1]);
                    }
                }
                assert(self.view() =~= expected);
            }
        }
    }

    /// The retained samples, oldest first.
    pub fn snapshot(&self) -> (r: Vec<T>)
        requires
            self.well_formed(),
        ensures
            r@ == self.view(),
    {
        let len = self.samples.len();
        let mut out: Vec<T> = Vec::new();
        if len < self.capacity {
            let mut i: usize = 0;
            while i < len
                invariant
                    len == self.samples@.len(),
                    i <= len,
                    out@ == self.samples@.subrange(0, i as int),
                decreases len - i,
            {
                out.push(self.samples[i]);
                i = i + 1;
                proof {
                    assert(out@ =~= self.samples@.subrange(0, i as int));
                }
            }
            proof {
                assert(out@ =~= self.samples@);
            }
        } else {
            let start = self.next;
            let mut i: usize = start;
            while i < len
                invariant
                    len == self.samples@.len(),
                    start <= i <= len,
                    out@ == self.samples@.subrange(start as int, i as int),
                decreases len - i,
            {
                out.push(self.samples[i]);
                i = i + 1;
                proof {
                    assert(out@ =~= self.samples@.subrange(start as int, i as int));
                }
            }
            let mut j: usize = 0;
            while j < start
                invariant
                    len == self.samples@.len(),
                    start <= len,
                    j <= start,
                    out@ == self.samples@.subrange(start as int, len as int)
                        + self.samples@.subrange(0, j as int),
                decreases start - j,
            {
                out.push(self.samples[j]);
                j = j + 1;
                proof {
                    assert(out@ =~= self.samples@.subrange(start as int, len as int)
                        + self.samples@.subrange(0, j as int));
                }
            }
        }
        out
    }

    /// Discard every retained sample; the capacity is kept.
    pub fn clear(&mut self)
        requires
            old(self).well_formed(),
        ensures
            final(self).well_formed(),
            final(self).spec_capacity() == old(self).spec_capacity(),
            final(self).view() == Seq::<T>::empty(),
    {
        self.samples.clear();
        self.next = 0;
    }
}

} // verus!
