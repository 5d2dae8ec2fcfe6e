//! Temporal reset requests persist until their encoded frame acknowledges them.
//!
//! A request after a camera cut, teleport or scene load raises the request
//! generation. Extraction freezes the generation a render frame observed;
//! encoding a reset acknowledges only that generation, so it can never clear
//! a later cut. Acknowledgements only move forward, so one arriving late
//! cannot reopen a request that was already consumed. Acknowledgement
//! establishes command encoding, not GPU completion.
//!
//! The ledger is the shared state behind every copy of the reset resource;
//! a main-world copy reads the current generation (`frozen` is `None`), an
//! extracted render-world copy reads the generation frozen at extraction.

use vstd::prelude::*;

verus! {

/// The request and acknowledgement generations behind a reset resource.
#[derive(Debug, Clone, Copy)]
pub struct ResetLedger {
    requested: u64,
    acknowledged: u64,
}

/// A captured request. Dropping it without encoding leaves the request pending.
#[derive(Debug, Clone, Copy, PartialEq, Eq)]
pub struct HistoryResetRequest {
    generation: u64,
}

/// The acknowledged generation after acknowledging `generation` when
/// `acknowledged` was recorded: acknowledgements only move forward.
pub open spec fn acknowledged_after(acknowledged: u64, generation: u64) -> u64 {
    if generation > acknowledged {
        generation
    } else {
        acknowledged
    }
}

impl HistoryResetRequest {
    /// The request generation this token acknowledges.
    pub closed spec fn spec_generation(self) -> u64 {
        self.generation
    }

    /// The request generation this token acknowledges.
    pub fn generation(&self) -> (r: u64)
        ensures
            r == self.spec_generation(),
    {
        self.generation
    }
}

impl ResetLedger {
    /// The newest request generation.
    pub closed spec fn requested_generation(self) -> u64 {
        self.requested
    }

    /// The newest acknowledged generation.
    pub closed spec fn acknowledged_generation(self) -> u64 {
        self.acknowledged
    }

    /// Nothing is acknowledged that was never requested.
    pub open spec fn well_formed(self) -> bool {
        self.acknowledged_generation() <= self.requested_generation()
    }

    /// The generation a copy reads: its frozen one, else the current one.
    pub open spec fn generation_for(self, frozen: Option<u64>) -> u64 {
        match frozen {
            Some(g) => g,
            None => self.requested_generation(),
        }
    }

    /// Whether the copy reading `frozen` still owes a reset.
    pub open spec fn owes_reset(self, frozen: Option<u64>) -> bool {
        self.generation_for(frozen) > self.acknowledged_generation()
    }

    /// No request and no acknowledgement yet.
    pub fn new() -> (r: Self)
        ensures
            r.well_formed(),
            r.requested_generation() == 0,
            r.acknowledged_generation() == 0,
    {
        ResetLedger { requested: 0, acknowledged: 0 }
    }

    /// Keep a reset pending until a temporal encode acknowledges this request.
    pub fn request(&mut self)
        requires
            old(self).requested_generation() < u64::MAX,
        ensures
            final(self).requested_generation() == old(self).requested_generation() + 1,
            final(self).acknowledged_generation() == old(self).acknowledged_generation(),
            old(self).well_formed() ==> final(self).well_formed(),
    {
        self.requested = self.requested + 1;
    }

    /// The generation a copy reads: its frozen one, else the current one.
    /// Extraction freezes this value for a render frame.
    pub fn generation(&self, frozen: Option<u64>) -> (r: u64)
        ensures
            r == self.generation_for(frozen),
    {
        match frozen {
            Some(g) => g,
            None => self.requested,
        }
    }

    /// Whether the copy reading `frozen` has an unacknowledged request.
    pub fn is_requested(&self, frozen: Option<u64>) -> (r: bool)
        ensures
            r == self.owes_reset(frozen),
    {
        self.generation(frozen) > self.acknowledged
    }

    /// Capture the request the copy reading `frozen` owes, if any.
    pub fn pending_request(&self, frozen: Option<u64>) -> (r: Option<HistoryResetRequest>)
        ensures
            r is Some <==> self.owes_reset(frozen),
            r matches Some(t) ==> t.spec_generation() == self.generation_for(frozen),
    {
        let generation = self.generation(frozen);
        if generation > self.acknowledged {
            Some(HistoryResetRequest { generation })
        } else {
            None
        }
    }

    /// Record that an actual temporal or interpolation reset encode
    /// succeeded for `request`. Only a newer generation moves the
    /// acknowledgement forward.
    pub fn acknowledge(&mut self, request: HistoryResetRequest)
        requires
            request.spec_generation() <= old(self).requested_generation(),
        ensures
            final(self).requested_generation() == old(self).requested_generation(),
            final(self).acknowledged_generation() == acknowledged_after(
                old(self).acknowledged_generation(),
                request.spec_generation(),
            ),
            old(self).well_formed() ==> final(self).well_formed(),
    {
        if request.generation > self.acknowledged {
            self.acknowledged = request.generation;
        }
    }
}

impl Default for ResetLedger {
    fn default() -> (r: Self)
        ensures
            r.requested_generation() == 0,
            r.acknowledged_generation() == 0,
    {
        ResetLedger::new()
    }
}

/// An acknowledgement never consumes a request newer than the one its
/// frame observed: if a later cut was requested, the current copy still owes
/// a reset afterwards.
pub proof fn law_old_acknowledgement_keeps_newer_request(
    before: ResetLedger,
    request: HistoryResetRequest,
    after: ResetLedger,
)
    requires
        before.well_formed(),
        request.spec_generation() < before.requested_generation(),
        after.requested_generation() == before.requested_generation(),
        after.acknowledged_generation() == acknowledged_after(
            before.acknowledged_generation(),
            request.spec_generation(),
        ),
        before.owes_reset(None),
    ensures
        after.owes_reset(None),
{
}

/// Acknowledgements arriving in any order never reopen a consumed request:
/// the acknowledged generation never decreases.
pub proof fn law_acknowledgement_is_monotone(
    before: ResetLedger,
    request: HistoryResetRequest,
    after: ResetLedger,
)
    requires
        after.acknowledged_generation() == acknowledged_after(
            before.acknowledged_generation(),
            request.spec_generation(),
        ),
    ensures
        after.acknowledged_generation() >= before.acknowledged_generation(),
        after.acknowledged_generation() >= request.spec_generation(),
        forall|g: u64| #[trigger] after.owes_reset(Some(g)) ==> before.owes_reset(Some(g)),
{
}

/// Acknowledging the request a copy observed clears it for every copy that
/// observed that generation or an earlier one, including the main world when
/// no later request arrived: requests known before extraction coalesce.
pub proof fn law_acknowledged_generation_is_consumed(
    before: ResetLedger,
    request: HistoryResetRequest,
    after: ResetLedger,
)
    requires
        after.requested_generation() == before.requested_generation(),
        after.acknowledged_generation() == acknowledged_after(
            before.acknowledged_generation(),
            request.spec_generation(),
        ),
    ensures
        forall|g: u64| g <= request.spec_generation() ==> !#[trigger] after.owes_reset(Some(g)),
        request.spec_generation() == before.requested_generation() ==> !after.owes_reset(None),
{
}

/// A request made after an acknowledgement is owed again.
pub proof fn law_request_after_acknowledgement_is_owed(before: ResetLedger, after: ResetLedger)
    requires
        before.well_formed(),
        after.requested_generation() == before.requested_generation() + 1,
        after.acknowledged_generation() == before.acknowledged_generation(),
    ensures
        after.owes_reset(None),
{
}

} // verus!
