//! The lifecycle contract every worker task keeps.
//!
//! A minion serves one remote connection. Its task alternates between
//! connection work and checking its inbound channel for instructions, and on
//! any terminal condition — graceful close, unrecoverable error, or a
//! shutdown instruction — it sends exactly one final status report upstream
//! before returning. A minion that exits without reporting would leave the
//! overlord tracking a dead entry, so the report is mandatory: here the only
//! way to the terminal phase is through the report.

use vstd::prelude::*;
use tokio::sync::mpsc::UnboundedSender;
use crate::bus;
use crate::comms::str_eq;
use crate::comms::BusMessage;

verus! {

/// Where the minion's task stands.
#[derive(Clone, Copy, PartialEq, Eq, Structural, Debug)]
pub enum MinionPhase {
    /// Alternating connection work with checks of the inbound channel.
    Working,
    /// Terminal: the final report went out and the task returns.
    Done,
}

/// One worker's identity, upward path, and lifecycle position.
pub struct Minion {
    id: String,
    to_overlord: UnboundedSender<BusMessage>,
    phase: MinionPhase,
    reported: bool,
}

/// The instruction asks this minion to stop: a shutdown addressed to every
/// minion or to this one by identifier.
pub open spec fn is_shutdown_for(m: BusMessage, id: Seq<char>) -> bool {
    m.kind@ == "shutdown"@ && (m.target@ == "all"@ || m.target@ == id)
}

impl Minion {
    /// The identifier this minion serves under.
    pub closed spec fn id_view(&self) -> Seq<char> {
        self.id@
    }

    /// The upward sender the final report goes out on.
    pub closed spec fn sender_view(&self) -> UnboundedSender<BusMessage> {
        self.to_overlord
    }

    /// Where the lifecycle stands.
    pub closed spec fn phase(&self) -> MinionPhase {
        self.phase
    }

    /// Whether the final status report has gone out.
    pub closed spec fn has_reported(&self) -> bool {
        self.reported
    }

    /// The report goes out exactly at the step into the terminal phase:
    /// a working minion has not reported, a finished one has.
    pub open spec fn inv(&self) -> bool {
        self.has_reported() <==> self.phase() is Done
    }

    /// Where the lifecycle stands, for the running task and for tests.
    pub fn current_phase(&self) -> (p: MinionPhase)
        ensures
            p == self.phase(),
    {
        self.phase
    }

    /// A fresh minion for one connection, holding a clone of the
    /// to-overlord sender for its reports.
    pub fn new(id: String, to_overlord: UnboundedSender<BusMessage>) -> (m: Minion)
        ensures
            m.inv(),
            m.phase() is Working,
            !m.has_reported(),
            m.id_view() == id@,
            m.sender_view() == to_overlord,
    {
        Minion { id, to_overlord, phase: MinionPhase::Working, reported: false }
    }

    /// Sends the one final report and enters the terminal phase. Reachable
    /// only while working, so the report cannot be repeated; a send failure
    /// means the overlord is already gone and the report is moot.
    fn report_and_finish(&mut self)
        requires
            old(self).inv(),
            old(self).phase() is Working,
        ensures
            final(self).inv(),
            final(self).phase() is Done,
            final(self).has_reported(),
            final(self).id_view() == old(self).id_view(),
            final(self).sender_view() == old(self).sender_view(),
    {
        let report = BusMessage::exit_report(self.id.as_str());
        let _ = bus::send(&self.to_overlord, report);
        self.reported = true;
        self.phase = MinionPhase::Done;
    }

    /// Handles one instruction from the inbound channel. A shutdown meant
    /// for this minion — addressed to it or to every minion — finishes it,
    /// final report included; anything else leaves it working, for the task
    /// to interpret.
    pub fn on_command(&mut self, m: &BusMessage) -> (done: bool)
        requires
            old(self).inv(),
            old(self).phase() is Working,
        ensures
            final(self).inv(),
            done == is_shutdown_for(*m, old(self).id_view()),
            done ==> final(self).phase() is Done && final(self).has_reported(),
            !done ==> *final(self) == *old(self),
            final(self).id_view() == old(self).id_view(),
            final(self).sender_view() == old(self).sender_view(),
    {
        if str_eq(m.kind.as_str(), "shutdown") && (str_eq(m.target.as_str(), "all") || str_eq(
            m.target.as_str(),
            self.id.as_str(),
        )) {
            self.report_and_finish();
            true
        } else {
            false
        }
    }

    /// Ends the minion on its own terminal condition — graceful close or
    /// unrecoverable error — with the same mandatory final report.
    pub fn complete(&mut self)
        requires
            old(self).inv(),
            old(self).phase() is Working,
        ensures
            final(self).inv(),
            final(self).phase() is Done,
            final(self).has_reported(),
            final(self).id_view() == old(self).id_view(),
            final(self).sender_view() == old(self).sender_view(),
    {
        self.report_and_finish();
    }
}

/// Law: a minion that has finished has reported — no tracked-but-dead
/// entry is left behind by a well-formed minion.
pub proof fn lemma_done_implies_reported(m: Minion)
    requires
        m.inv(),
        m.phase() is Done,
    ensures
        m.has_reported(),
{
}

} // verus!
