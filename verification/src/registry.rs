//! The process-wide state container: the settings snapshot, the one-shot
//! slot holding the from-minions receiver until the overlord claims it, and
//! the cloneable to-overlord sender.
//!
//! Exactly one `Registry` exists per process run. It is built once, before
//! any task starts, and passed to the tasks that need it; the embedding
//! program guards it with a lock when several threads share it, and holds
//! that lock for the shortest scope each access needs.

use vstd::prelude::*;
use tokio::sync::mpsc::UnboundedReceiver;
use tokio::sync::mpsc::UnboundedSender;
use crate::bus::clone_sender;
use crate::comms::BusMessage;
use crate::settings::Settings;

verus! {

/// The process-wide state container.
pub struct Registry {
    settings: Settings,
    from_minions: Option<UnboundedReceiver<BusMessage>>,
    to_overlord: UnboundedSender<BusMessage>,
}

/// What a single take does to a registry: it yields whatever the slot held,
/// leaves the slot permanently empty, and touches nothing else.
pub open spec fn take_transition(
    pre: Registry,
    post: Registry,
    taken: Option<UnboundedReceiver<BusMessage>>,
) -> bool {
    &&& taken == pre.slot()
    &&& post.slot() is None
    &&& post.settings_view() == pre.settings_view()
    &&& post.sender_view() == pre.sender_view()
}

/// What a settings write does to a registry: the snapshot is replaced as a
/// whole, and nothing else moves.
pub open spec fn write_transition(pre: Registry, post: Registry, new: Settings) -> bool {
    &&& post.settings_view() == new
    &&& post.slot() == pre.slot()
    &&& post.sender_view() == pre.sender_view()
}

impl Registry {
    /// The settings snapshot the registry currently holds.
    pub closed spec fn settings_view(&self) -> Settings {
        self.settings
    }

    /// The one-shot slot: full until the overlord's constructor takes it.
    pub closed spec fn slot(&self) -> Option<UnboundedReceiver<BusMessage>> {
        self.from_minions
    }

    /// The to-overlord sender the registry hands clones of.
    pub closed spec fn sender_view(&self) -> UnboundedSender<BusMessage> {
        self.to_overlord
    }

    /// Installs the registry: settings loaded, the from-minions receiver
    /// parked in the slot, the to-overlord sender ready to be cloned. Run
    /// once, before the async runtime starts.
    pub fn new(
        settings: Settings,
        from_minions: UnboundedReceiver<BusMessage>,
        to_overlord: UnboundedSender<BusMessage>,
    ) -> (r: Registry)
        ensures
            r.settings_view() == settings,
            r.slot() == Some(from_minions),
            r.sender_view() == to_overlord,
    {
        Registry { settings, from_minions: Some(from_minions), to_overlord }
    }

    /// Claims the from-minions receiver. The first call yields it; the slot
    /// is empty from then on, so every later call yields `None`. Calling
    /// this twice is a startup-sequencing bug; the caller fails fast on
    /// `None` rather than proceeding with a stale value.
    pub fn take_minion_receiver(&mut self) -> (taken: Option<UnboundedReceiver<BusMessage>>)
        ensures
            take_transition(*old(self), *final(self), taken),
    {
        self.from_minions.take()
    }

    /// Reads the current settings snapshot, whole.
    pub fn read_settings(&self) -> (s: Settings)
        ensures
            s == self.settings_view(),
    {
        self.settings
    }

    /// Replaces the settings snapshot, whole: no reader ever sees a mix of
    /// the old snapshot and the new.
    pub fn write_settings(&mut self, new: Settings)
        ensures
            write_transition(*old(self), *final(self), new),
    {
        self.settings = new;
    }

    /// Hands out another writer for the to-overlord path — the same
    /// channel, not a fresh one; cloning the sender is the only supported
    /// way to obtain one.
    pub fn to_overlord_sender(&self) -> (r: UnboundedSender<BusMessage>)
        ensures
            r == self.sender_view(),
    {
        clone_sender(&self.to_overlord)
    }
}

/// Law: the slot gives its receiver up at most once. Whatever the first
/// take yielded, a second take on the same registry yields nothing — and
/// the settings and the sender are untouched by either.
pub proof fn lemma_slot_take_once(
    r0: Registry,
    r1: Registry,
    r2: Registry,
    t1: Option<UnboundedReceiver<BusMessage>>,
    t2: Option<UnboundedReceiver<BusMessage>>,
)
    requires
        take_transition(r0, r1, t1),
        take_transition(r1, r2, t2),
    ensures
        t2 is None,
        r2.settings_view() == r0.settings_view(),
        r2.sender_view() == r0.sender_view(),
{
}

/// Law: a settings write completed before a read is observed by that read,
/// and the read sees the written snapshot whole, never a partial one.
pub proof fn lemma_write_then_read(r0: Registry, r1: Registry, s: Settings)
    requires
        write_transition(r0, r1, s),
    ensures
        r1.settings_view() == s,
{
}

} // verus!
