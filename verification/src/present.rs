//! Presentation telemetry counters for the owned presentation layer.
//!
//! The counters separate a frame that never ran from one that ran and was
//! skipped: `encoded` counts presents put on a command buffer, `dropped`
//! presents that found no drawable, `displayed` presentation reports with a
//! positive timestamp, `callbacks` every presentation report, `committed`
//! completions of the presentation command buffer, and `inversions`
//! timestamps that did not advance past the previous one. All are cumulative
//! since the last reset; unlike the bounded sample ring, `displayed` never
//! saturates.

use vstd::prelude::*;

verus! {

/// The cumulative presentation counters, in the order `counts` reports them
/// followed by the inversion count.
#[derive(Debug, Clone, Copy, PartialEq, Eq, Structural)]
pub struct PresentCountsView {
    pub encoded: u64,
    pub dropped: u64,
    pub displayed: u64,
    pub callbacks: u64,
    pub committed: u64,
    pub inversions: u64,
}

/// Cumulative presentation counters since the last reset.
#[derive(Debug, Clone, Copy)]
pub struct PresentCounters {
    encoded: u64,
    dropped: u64,
    displayed: u64,
    callbacks: u64,
    committed: u64,
    inversions: u64,
}

impl PresentCounters {
    /// The current counter values.
    pub closed spec fn view(self) -> PresentCountsView {
        PresentCountsView {
            encoded: self.encoded,
            dropped: self.dropped,
            displayed: self.displayed,
            callbacks: self.callbacks,
            committed: self.committed,
            inversions: self.inversions,
        }
    }

    /// All counters at zero.
    pub fn new() -> (r: Self)
        ensures
            r.view() == (PresentCountsView {
                encoded: 0,
                dropped: 0,
                displayed: 0,
                callbacks: 0,
                committed: 0,
                inversions: 0,
            }),
    {
        PresentCounters {
            encoded: 0,
            dropped: 0,
            displayed: 0,
            callbacks: 0,
            committed: 0,
            inversions: 0,
        }
    }

    /// Record one frame that reached the display; `inverted` says its
    /// timestamp did not advance past the previous positive one.
    pub fn record_presented(&mut self, inverted: bool)
        requires
            old(self).view().displayed < u64::MAX,
            inverted ==> old(self).view().inversions < u64::MAX,
        ensures
            final(self).view() == (PresentCountsView {
                displayed: (old(self).view().displayed + 1) as u64,
                inversions: if inverted {
                    (old(self).view().inversions + 1) as u64
                } else {
                    old(self).view().inversions
                },
                ..old(self).view()
            }),
    {
        self.displayed = self.displayed + 1;
        if inverted {
            self.inversions = self.inversions + 1;
        }
    }

    /// Record a present that could not be issued for want of a drawable or
    /// a command buffer.
    pub fn record_dropped(&mut self)
        requires
            old(self).view().dropped < u64::MAX,
        ensures
            final(self).view() == (PresentCountsView {
                dropped: (old(self).view().dropped + 1) as u64,
                ..old(self).view()
            }),
    {
        self.dropped = self.dropped + 1;
    }

    /// Record a present encoded onto a command buffer.
    pub fn record_encoded(&mut self)
        requires
            old(self).view().encoded < u64::MAX,
        ensures
            final(self).view() == (PresentCountsView {
                encoded: (old(self).view().encoded + 1) as u64,
                ..old(self).view()
            }),
    {
        self.encoded = self.encoded + 1;
    }

    /// Record a presentation callback, shown or skipped.
    pub fn record_callback(&mut self)
        requires
            old(self).view().callbacks < u64::MAX,
        ensures
            final(self).view() == (PresentCountsView {
                callbacks: (old(self).view().callbacks + 1) as u64,
                ..old(self).view()
            }),
    {
        self.callbacks = self.callbacks + 1;
    }

    /// Record a completion of the presentation command buffer.
    pub fn record_committed(&mut self)
        requires
            old(self).view().committed < u64::MAX,
        ensures
            final(self).view() == (PresentCountsView {
                committed: (old(self).view().committed + 1) as u64,
                ..old(self).view()
            }),
    {
        self.committed = self.committed + 1;
    }

    /// `(encoded, dropped, displayed, callbacks, committed)`.
    pub fn counts(&self) -> (r: (u64, u64, u64, u64, u64))
        ensures
            r == (
                self.view().encoded,
                self.view().dropped,
                self.view().displayed,
                self.view().callbacks,
                self.view().committed,
            ),
    {
        (self.encoded, self.dropped, self.displayed, self.callbacks, self.committed)
    }

    /// Non-advancing positive timestamps seen since the last reset.
    pub fn inversions(&self) -> (r: u64)
        ensures
            r == self.view().inversions,
    {
        self.inversions
    }

    /// Clear every counter, for example to drop warmup frames.
    pub fn reset(&mut self)
        ensures
            final(self).view() == (PresentCountsView {
                encoded: 0,
                dropped: 0,
                displayed: 0,
                callbacks: 0,
                committed: 0,
                inversions: 0,
            }),
    {
        *self = PresentCounters::new();
    }
}

impl Default for PresentCounters {
    fn default() -> (r: Self)
        ensures
            r.view() == (PresentCountsView {
                encoded: 0,
                dropped: 0,
                displayed: 0,
                callbacks: 0,
                committed: 0,
                inversions: 0,
            }),
    {
        PresentCounters::new()
    }
}

} // verus!
