//! Errors surfaced by the bus.

use vstd::prelude::*;
use vstd::string::StringExecFns;

verus! {

/// Why a bus operation failed.
#[derive(Clone, Copy, PartialEq, Eq, Structural, Debug)]
pub enum Error {
    /// The receiving half of the channel is gone; the message was dropped.
    /// Callers treat this as final, never as something to retry.
    RecipientGone,
}

impl Error {
    /// A short description for diagnostics.
    pub fn describe(&self) -> (s: String)
        ensures
            s@ == "recipient gone; message dropped"@,
    {
        String::from_str("recipient gone; message dropped")
    }
}

} // verus!
