//! The asynchronous control plane of a client that keeps many concurrent
//! connections open: a single supervising task (the overlord) owns a set of
//! per-connection worker tasks (minions), and every instruction or report
//! between the presentation thread, the overlord, and the minions travels as
//! a [`comms::BusMessage`] over multi-producer channels.
//!
//! The crate holds the decision logic of that skeleton — the message
//! envelope, the process registry with its one-shot receiver handoff, the
//! overlord state machine, and the minion lifecycle contract — each with a
//! proved contract. The event loop that awaits the channels lives with the
//! embedding program, which feeds each received message to
//! [`overlord::Overlord::handle_message`] and performs the returned action.

use vstd::prelude::*;

pub mod bus;
pub mod comms;
pub mod overlord;
pub mod error;
pub mod fifo;
pub mod minion;
pub mod registry;
pub mod settings;

use tokio::sync::mpsc::UnboundedSender;
use crate::comms::BusMessage;
use crate::error::Error;

verus! {

/// Any task calls this to bring the whole system down: it puts the
/// shutdown broadcast — `target` `"all"`, `kind` `"shutdown"`, an empty
/// payload — on the to-overlord path. A send failure is ignored: if the
/// overlord is already gone, shutdown is moot.
pub fn initiate_shutdown(to_overlord: &UnboundedSender<BusMessage>) -> (r: Result<(), Error>)
    ensures
        r is Ok,
{
    let m = BusMessage::shutdown_all();
    let _ = bus::send(to_overlord, m);
    Ok(())
}

} // verus!
