//! The immutable-after-load configuration snapshot.
//!
//! A `Settings` value is loaded once at process start and then replaced only
//! as a whole, never field by field, so a reader always sees one complete
//! snapshot.

use vstd::prelude::*;

verus! {

/// The configuration snapshot shared by every task.
#[derive(Clone, Copy, PartialEq, Eq, Structural, Debug)]
pub struct Settings {
    /// How many seconds of feed history a single load pulls in.
    pub feed_chunk: u64,
    /// How many seconds two successive feed loads overlap.
    pub overlap: u64,
    /// Whether newly seen peers are followed without being asked.
    pub autofollow: bool,
}

impl Settings {
    /// The snapshot used until a loaded one replaces it.
    pub open spec fn initial() -> Settings {
        Settings { feed_chunk: 43200, overlap: 600, autofollow: false }
    }
}

impl Default for Settings {
    fn default() -> (s: Settings)
        ensures
            s == Settings::initial(),
    {
        Settings { feed_chunk: 43200, overlap: 600, autofollow: false }
    }
}

} // verus!
