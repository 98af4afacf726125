//! The channels that carry [`BusMessage`] values between tasks.
//!
//! Both paths — any task to the overlord, and minions back to the overlord —
//! are unbounded multi-producer/single-consumer channels. Any number of
//! senders may push concurrently; each sender's own messages reach the
//! receiver in the order that sender issued them, while order across senders
//! is left open. A send fails only when the receiving half is gone, and the
//! failure is final: callers drop the message, they never retry.

use vstd::prelude::*;
use tokio::sync::mpsc::UnboundedReceiver;
use tokio::sync::mpsc::UnboundedSender;
use crate::comms::BusMessage;
use crate::error::Error;

verus! {

/// Declares tokio's UnboundedSender so it can stand in signatures and
/// fields; the value itself is opaque here.
#[verifier::external_type_specification]
#[verifier::external_body]
#[verifier::reject_recursive_types(T)]
pub struct ExUnboundedSender<T>(UnboundedSender<T>);

/// Declares tokio's UnboundedReceiver, likewise opaque.
#[verifier::external_type_specification]
#[verifier::external_body]
#[verifier::reject_recursive_types(T)]
pub struct ExUnboundedReceiver<T>(UnboundedReceiver<T>);

/// Relies on tokio::sync::mpsc::unbounded_channel: a fresh, connected
/// sender/receiver pair.
#[verifier::external_body]
pub(crate) fn channel_pair() -> (UnboundedSender<BusMessage>, UnboundedReceiver<BusMessage>) {
    tokio::sync::mpsc::unbounded_channel()
}

/// Relies on tokio's UnboundedSender::send: it never waits, and it fails
/// exactly when the receiving half is gone, handing the undelivered message
/// back inside the error.
#[verifier::external_body]
pub(crate) fn send_message(tx: &UnboundedSender<BusMessage>, m: BusMessage) -> (r: Result<
    (),
    BusMessage,
>)
    ensures
        r matches Err(back) ==> back == m,
{
    match tx.send(m) {
        Ok(()) => Ok(()),
        Err(tokio::sync::mpsc::error::SendError(back)) => Err(back),
    }
}

/// Relies on tokio's Clone for UnboundedSender: a second handle onto the
/// same channel — a reference-count bump, nothing distinguishes the clone
/// from the original — and cloning is the only supported way to obtain
/// another writer.
#[verifier::external_body]
pub(crate) fn clone_sender(tx: &UnboundedSender<BusMessage>) -> (r: UnboundedSender<BusMessage>)
    ensures
        r == *tx,
{
    tx.clone()
}

/// Pushes a message onto the bus. Fails only when the recipient is gone;
/// the message is then dropped and the caller proceeds.
pub fn send(tx: &UnboundedSender<BusMessage>, m: BusMessage) -> (r: Result<(), Error>)
    ensures
        r matches Err(e) ==> e is RecipientGone,
{
    match send_message(tx, m) {
        Ok(()) => Ok(()),
        Err(_) => Err(Error::RecipientGone),
    }
}

} // verus!
