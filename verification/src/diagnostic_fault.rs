//! Explicit, default-off scaler-creation faults for bounded diagnostic fixtures.
//!
//! These controls simulate a missing creation result or delayed completion at
//! the creation boundary. They do not provoke a Metal driver failure.

use std::sync::mpsc::{Receiver, Sender};
use vstd::prelude::*;

verus! {

/// A diagnostic replacement for starting a new scaler-creation attempt.
#[derive(Debug, Clone, Copy, PartialEq, Eq, Structural)]
pub enum ScalerCreationFault {
    /// Use normal MetalFX creation.
    Off,
    /// Complete an attempt with no scaler, using the ordinary failure path.
    ReturnNone,
    /// Keep the attempt pending until the fixture clears or changes this fault.
    HoldPending,
}

impl Default for ScalerCreationFault {
    fn default() -> (r: Self)
        ensures
            r == ScalerCreationFault::Off,
    {
        ScalerCreationFault::Off
    }
}

/// A frozen fault identity carried into one extracted render frame.
#[derive(Debug, Clone, Copy, PartialEq, Eq, Structural)]
pub struct ScalerFaultSnapshot {
    /// Changes whenever the selected fault changes, including its release.
    pub generation: u64,
    /// Fault selected for this generation.
    pub fault: ScalerCreationFault,
}

impl Default for ScalerFaultSnapshot {
    fn default() -> (r: Self)
        ensures
            r.generation == 0,
            r.fault == ScalerCreationFault::Off,
    {
        ScalerFaultSnapshot { generation: 0, fault: ScalerCreationFault::Off }
    }
}

/// Diagnostic-only control; leave it at its default in normal use.
///
/// Extraction copies the generation and fault, so updating the main copy
/// cannot mutate an already-extracted frame's decision.
#[derive(Debug, Clone)]
pub struct MetalFxDiagnosticFault {
    current: ScalerFaultSnapshot,
}

impl MetalFxDiagnosticFault {
    /// The identity this control currently reports.
    pub closed spec fn view(self) -> ScalerFaultSnapshot {
        self.current
    }

    /// Whether selecting `fault` can be done without exhausting generations.
    pub open spec fn can_select(self, fault: ScalerCreationFault) -> bool {
        fault != self.view().fault ==> self.view().generation < u64::MAX
    }

    /// The control at its default: normal creation, generation zero.
    pub fn new() -> (r: Self)
        ensures
            r.view() == (ScalerFaultSnapshot { generation: 0, fault: ScalerCreationFault::Off }),
    {
        MetalFxDiagnosticFault { current: ScalerFaultSnapshot::default() }
    }

    /// Select a fault. Selecting the same value again preserves its generation.
    pub fn set(&mut self, fault: ScalerCreationFault)
        requires
            old(self).can_select(fault),
        ensures
            final(self).view().fault == fault,
            fault == old(self).view().fault ==> final(self).view() == old(self).view(),
            fault != old(self).view().fault ==> final(self).view().generation
                == old(self).view().generation + 1,
    {
        if fault != self.current.fault {
            self.current.generation = self.current.generation + 1;
            self.current.fault = fault;
        }
    }

    /// Resume normal creation in a new generation if a fault was selected.
    pub fn clear(&mut self)
        requires
            old(self).can_select(ScalerCreationFault::Off),
        ensures
            final(self).view().fault == ScalerCreationFault::Off,
            old(self).view().fault == ScalerCreationFault::Off ==> final(self).view()
                == old(self).view(),
            old(self).view().fault != ScalerCreationFault::Off ==> final(self).view().generation
                == old(self).view().generation + 1,
    {
        self.set(ScalerCreationFault::Off);
    }

    /// Return the immutable identity used by the render creation/cache path.
    pub fn snapshot(&self) -> (r: ScalerFaultSnapshot)
        ensures
            r == self.view(),
    {
        self.current
    }
}

impl Default for MetalFxDiagnosticFault {
    fn default() -> (r: Self)
        ensures
            r.view() == (ScalerFaultSnapshot { generation: 0, fault: ScalerCreationFault::Off }),
    {
        MetalFxDiagnosticFault::new()
    }
}

/// The sending half of a standard channel, carried through unchanged.
#[verifier::external_type_specification]
#[verifier::external_body]
#[verifier::reject_recursive_types(T)]
pub struct ExSender<T>(Sender<T>);

/// The receiving half of a standard channel, carried through unchanged.
#[verifier::external_type_specification]
#[verifier::external_body]
#[verifier::reject_recursive_types(T)]
pub struct ExReceiver<T>(Receiver<T>);

/// Calls `std::sync::mpsc::channel`, which creates a connected pair.
/// Nothing is stated of the pair: the channel's queue is not modelled.
#[verifier::external_body]
fn new_channel<T>() -> (Sender<T>, Receiver<T>) {
    std::sync::mpsc::channel()
}

/// Calls `Sender::send`. The documentation says it fails only when the
/// receiving half has been dropped; the outcome is not stated here.
#[verifier::external_body]
fn send_message<T>(sender: &Sender<T>, message: T) {
    let _ = sender.send(message);
}

/// A receiver that stands in for a scaler-creation attempt, with the sender
/// that keeps a held attempt connected.
pub type InjectedReceiver<T> = (Receiver<Option<T>>, Option<Sender<Option<T>>>);

/// Replace a creation attempt according to `fault`.
///
/// `Off` keeps normal creation (`None`). `ReturnNone` hands back a receiver
/// that already holds an empty creation result and keeps no sender.
/// `HoldPending` hands back a receiver whose sender is kept, so the attempt
/// stays pending until that sender is dropped.
pub fn injected_receiver<T>(fault: ScalerCreationFault) -> (r: Option<InjectedReceiver<T>>)
    ensures
        r is None <==> fault == ScalerCreationFault::Off,
        fault == ScalerCreationFault::ReturnNone ==> (r matches Some(pair) && pair.1 is None),
        fault == ScalerCreationFault::HoldPending ==> (r matches Some(pair) && pair.1 is Some),
{
    match fault {
        ScalerCreationFault::Off => None,
        ScalerCreationFault::ReturnNone => {
            let (sender, receiver) = new_channel();
            send_message(&sender, None);
            Some((receiver, None))
        },
        ScalerCreationFault::HoldPending => {
            let (sender, receiver) = new_channel();
            Some((receiver, Some(sender)))
        },
    }
}

} // verus!
