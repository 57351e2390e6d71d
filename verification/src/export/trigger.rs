//! When to export: a trigger hands "export now" signals to the exporter
//! through a channel with a single slot. A signal that finds the slot taken
//! is dropped, so a burst of signals wakes the exporter once.
//!
//! `TriggerSlot` is a model of that channel. The running program passes its
//! signals through the channel of its async runtime, made with capacity one
//! and fed without waiting. What is proved in this module is proved of the
//! model; it says what that channel is relied on to do, and proves nothing
//! of the runtime's code.

use crate::export::{export_mode, ExportMode};
use vstd::prelude::*;

verus! {

/// What a trigger is driven by.
#[derive(Clone, Copy, Debug, PartialEq, Eq, Structural)]
pub enum TriggerKind {
    /// No signal ever: the sequence of signals ends at once.
    Never,
    /// A signal every given number of seconds, until cancelled.
    Periodic { seconds: u64 },
    /// A signal for every change that the remote service announces.
    Push,
}

impl TriggerKind {
    /// Chooses what drives the export. Change notices win where they are
    /// asked for; otherwise a polling interval of at least one second means a
    /// timer; otherwise nothing drives it, and the export runs once.
    pub fn select(push: bool, interval_seconds: Option<u64>) -> (kind: TriggerKind)
        ensures
            kind == if push {
                TriggerKind::Push
            } else {
                match interval_seconds {
                    Some(seconds) if seconds > 0 => TriggerKind::Periodic { seconds },
                    _ => TriggerKind::Never,
                }
            },
    {
        if push {
            TriggerKind::Push
        } else {
            match export_mode(interval_seconds) {
                ExportMode::Periodic { seconds } => TriggerKind::Periodic { seconds },
                ExportMode::Once => TriggerKind::Never,
            }
        }
    }
}

/// What the exporter finds when it looks into the slot.
#[derive(Clone, Copy, Debug, PartialEq, Eq, Structural)]
pub enum Taken {
    /// A signal was pending and is taken out.
    Signal,
    /// No signal is pending, and the trigger is still alive: wait.
    Empty,
    /// No signal is pending, and none will ever come.
    Ended,
}

/// A model of the channel between a trigger and the exporter: its single
/// slot, and whether the trigger behind it is still alive. The program's own
/// channel belongs to its async runtime; this type states how that channel
/// is expected to behave and is not what carries the signals there.
#[derive(Clone, Copy, Debug, PartialEq, Eq, Structural)]
pub struct TriggerSlot {
    /// Whether a signal waits to be taken.
    pub pending: bool,
    /// Whether the trigger has gone away.
    pub closed: bool,
}

impl TriggerSlot {
    /// The number of wake-ups that the slot holds: one or none.
    pub open spec fn queued(self) -> nat {
        if self.pending {
            1
        } else {
            0
        }
    }

    /// The slot after one more signal was offered.
    pub open spec fn offered(self) -> TriggerSlot {
        TriggerSlot { pending: self.pending || !self.closed, closed: self.closed }
    }

    /// The slot after the pending signal, if any, was taken out.
    pub open spec fn emptied(self) -> TriggerSlot {
        TriggerSlot { pending: false, closed: self.closed }
    }

    /// The slot after `n` more signals were offered.
    pub open spec fn offered_times(self, n: nat) -> TriggerSlot
        decreases n,
    {
        if n == 0 {
            self
        } else {
            self.offered().offered_times((n - 1) as nat)
        }
    }

    /// An empty slot with a live trigger behind it.
    pub fn new() -> (slot: TriggerSlot)
        ensures
            slot == (TriggerSlot { pending: false, closed: false }),
    {
        TriggerSlot { pending: false, closed: false }
    }

    /// The slot of a trigger that never signals: empty and closed.
    pub fn none() -> (slot: TriggerSlot)
        ensures
            slot == (TriggerSlot { pending: false, closed: true }),
    {
        TriggerSlot { pending: false, closed: true }
    }

    /// Offers a signal. It is taken in where the slot is free and open and
    /// dropped otherwise; the result says which.
    pub fn try_send(&mut self) -> (accepted: bool)
        ensures
            *final(self) == old(self).offered(),
            accepted == (!old(self).pending && !old(self).closed),
    {
        if self.pending || self.closed {
            false
        } else {
            self.pending = true;
            true
        }
    }

    /// Marks the trigger as gone. A pending signal stays.
    pub fn close(&mut self)
        ensures
            *final(self) == (TriggerSlot { pending: old(self).pending, closed: true }),
    {
        self.closed = true;
    }

    /// Takes the pending signal out, if there is one.
    pub fn take(&mut self) -> (taken: Taken)
        ensures
            *final(self) == old(self).emptied(),
            taken == if old(self).pending {
                Taken::Signal
            } else if old(self).closed {
                Taken::Ended
            } else {
                Taken::Empty
            },
    {
        if self.pending {
            self.pending = false;
            Taken::Signal
        } else if self.closed {
            Taken::Ended
        } else {
            Taken::Empty
        }
    }
}

/// Coalescing: however many signals are offered, the slot holds one wake-up
/// at most; and a slot that holds a signal holds exactly that one, whatever
/// is offered on top.
pub proof fn lemma_signals_coalesce(slot: TriggerSlot, n: nat)
    ensures
        slot.offered_times(n).queued() <= 1,
        slot.pending ==> slot.offered_times(n) == slot,
        slot.offered_times(n).closed == slot.closed,
    decreases n,
{
    if n > 0 {
        lemma_signals_coalesce(slot.offered(), (n - 1) as nat);
    }
}

/// A burst wakes the exporter once: two signals that find a signal pending
/// are both dropped; and once the exporter has taken the pending signal out,
/// two signals queue one wake-up, not two.
pub proof fn lemma_burst_wakes_once(slot: TriggerSlot)
    requires
        slot.pending,
        !slot.closed,
    ensures
        slot.offered().offered() == slot,
        slot.emptied().offered().queued() == 1,
        slot.emptied().offered().offered().queued() == 1,
{
}

/// Nothing gets into a slot that is empty and closed.
pub proof fn lemma_closed_stays_empty(n: nat)
    ensures
        (TriggerSlot { pending: false, closed: true }).offered_times(n) == (TriggerSlot {
            pending: false,
            closed: true,
        }),
    decreases n,
{
    if n > 0 {
        lemma_closed_stays_empty((n - 1) as nat);
    }
}

} // verus!
