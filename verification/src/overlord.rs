//! The single supervising task's decision core.
//!
//! The overlord owns the set of tracked minions and the shutdown protocol.
//! Its run is a state machine — starting, running, draining, stopped — and
//! every inbound envelope is dispatched here: a shutdown broadcast begins
//! the drain, a minion's exit report removes it from the tracked set, a
//! message addressed to a live minion is forwarded to that minion's inbound
//! channel, and a message for an unknown minion is dropped with a
//! diagnostic, never a panic and never a stall. The embedding program runs
//! the event loop: it awaits the channels, hands each message to
//! [`Overlord::handle_message`], performs the returned [`Action`], and
//! bounds the drain with a timeout before calling [`Overlord::finish_drain`].

use vstd::prelude::*;
use vstd::assert_seqs_equal;
use tokio::sync::mpsc::UnboundedReceiver;
use tokio::sync::mpsc::UnboundedSender;
use crate::bus::channel_pair;
use crate::bus::send_message;
use crate::comms::is_shutdown_all;
use crate::comms::json_parsed;
use crate::comms::str_eq;
use crate::comms::BusMessage;

verus! {

/// Where the overlord's run stands.
#[derive(Clone, Copy, PartialEq, Eq, Structural, Debug)]
pub enum OverlordState {
    /// Constructed; no minion spawned yet.
    Starting,
    /// The main loop is dispatching messages.
    Running,
    /// Shutdown has been broadcast; waiting, bounded, for exits.
    Draining,
    /// Terminal; the run loop returns.
    Stopped,
}

/// What a dispatched message led to; the embedding loop acts on it.
#[derive(Clone, Copy, PartialEq, Eq, Structural, Debug)]
pub enum Action {
    /// The drain began: shutdown went out to every tracked minion.
    ShutdownInitiated,
    /// A minion's exit report was taken; it is no longer tracked.
    MinionExited,
    /// The message went out to every tracked minion.
    Broadcast,
    /// The message went to the one minion it addressed.
    Forwarded,
    /// The target names no live minion; the message was dropped.
    DroppedUnknown,
    /// The kind or payload was not understood; the message was dropped.
    Unrecognized,
    /// Arrived while draining; no new work is taken on.
    Ignored,
}

/// One tracked minion: its identifier and the sending half of its dedicated
/// inbound channel.
struct MinionHandle {
    id: String,
    inbound: UnboundedSender<BusMessage>,
}

/// The supervisor: the current state and the tracked minions, keyed by
/// identifier — inserted on spawn, removed on confirmed exit.
pub struct Overlord {
    state: OverlordState,
    minions: Vec<MinionHandle>,
}

impl Overlord {
    /// The overlord's current state.
    pub closed spec fn state(&self) -> OverlordState {
        self.state
    }

    /// The identifiers of the tracked minions, in spawn order.
    pub closed spec fn ids(&self) -> Seq<Seq<char>> {
        self.minions@.map(|i: int, h: MinionHandle| h.id@)
    }

    /// Whether a minion with this identifier is tracked.
    pub open spec fn tracks(&self, id: Seq<char>) -> bool {
        self.ids().contains(id)
    }

    /// Tracked identifiers are distinct: the set is keyed by identifier.
    pub open spec fn inv(&self) -> bool {
        distinct_seqs(self.ids())
    }
}

/// The reserved target names differ from one another, as do the reserved
/// kinds; dispatch may rely on a message for the overlord not also reading
/// as one for every minion.
proof fn lemma_reserved_names()
    ensures
        "all"@ != "overlord"@,
        "shutdown"@ != "minion_is_done"@,
{
    reveal_strlit("all");
    reveal_strlit("overlord");
    reveal_strlit("shutdown");
    reveal_strlit("minion_is_done");
    assert("all"@.len() == 3);
    assert("overlord"@.len() == 8);
    assert("shutdown"@.len() == 8);
    assert("minion_is_done"@.len() == 14);
}

/// No two entries of `s` are the same sequence.
pub open spec fn distinct_seqs(s: Seq<Seq<char>>) -> bool {
    forall|i: int, j: int| 0 <= i < j < s.len() ==> s[i] != s[j]
}

/// What one dispatched message does to the overlord. Every case leaves the
/// tracked set and the state fully determined by the incoming envelope:
/// - a shutdown broadcast received while running begins the drain;
/// - a minion's exit report removes exactly that minion, in any state;
/// - while draining, everything else is ignored;
/// - while running, a message for every minion is broadcast, one for a live
///   minion is forwarded, and anything else is dropped as unknown or
///   unrecognized, with the overlord untouched.
pub open spec fn handle_transition(
    pre: Overlord,
    m: BusMessage,
    post: Overlord,
    a: Action,
) -> bool {
    if pre.state() is Running && is_shutdown_all(m) {
        &&& post.state() is Draining
        &&& post.ids() == pre.ids()
        &&& a is ShutdownInitiated
    } else if m.target@ == "overlord"@ && m.kind@ == "minion_is_done"@ {
        &&& post.state() == pre.state()
        &&& match json_parsed(m.json_payload@) {
            Some(id) => {
                if pre.tracks(id) {
                    &&& a is MinionExited
                    &&& post.ids().len() == pre.ids().len() - 1
                    &&& forall|x: Seq<char>| post.tracks(x) <==> (pre.tracks(x) && x != id)
                } else {
                    &&& a is DroppedUnknown
                    &&& post.ids() == pre.ids()
                }
            },
            None => {
                &&& a is Unrecognized
                &&& post.ids() == pre.ids()
            },
        }
    } else if pre.state() is Draining {
        post == pre && a is Ignored
    } else if m.target@ == "all"@ {
        post == pre && a is Broadcast
    } else if m.target@ == "overlord"@ {
        post == pre && a is Unrecognized
    } else if pre.tracks(m.target@) {
        post == pre && a is Forwarded
    } else {
        post == pre && a is DroppedUnknown
    }
}

/// What the end of the drain does: however many minions still had not
/// reported — each forcibly cancelled — the overlord stops, tracking none.
pub open spec fn drain_transition(pre: Overlord, post: Overlord, forced: int) -> bool {
    &&& post.state() is Stopped
    &&& post.ids().len() == 0
    &&& forced == pre.ids().len()
}

impl Overlord {
    /// A fresh overlord: starting, with no minion tracked. The embedding
    /// program constructs it with the receiver it claimed from the
    /// registry's one-shot slot.
    pub fn new() -> (o: Overlord)
        ensures
            o.inv(),
            o.state() is Starting,
            o.ids() == Seq::<Seq<char>>::empty(),
    {
        let o = Overlord { state: OverlordState::Starting, minions: Vec::new() };
        proof {
            assert_seqs_equal!(o.ids(), Seq::<Seq<char>>::empty());
        }
        o
    }

    /// Enters the main loop's state.
    pub fn start(&mut self)
        requires
            old(self).inv(),
            old(self).state() is Starting,
        ensures
            final(self).inv(),
            final(self).state() is Running,
            final(self).ids() == old(self).ids(),
    {
        self.state = OverlordState::Running;
        proof {
            assert(self.minions@ == old(self).minions@);
            assert(self.ids() == old(self).ids());
        }
    }

    /// The overlord's current state, for the embedding loop and for tests.
    pub fn current_state(&self) -> (s: OverlordState)
        ensures
            s == self.state(),
    {
        self.state
    }

    /// How many minions are tracked.
    pub fn minion_count(&self) -> (n: usize)
        ensures
            n == self.ids().len(),
    {
        self.minions.len()
    }

    /// Whether a minion with this identifier is tracked.
    pub fn is_tracked(&self, id: &str) -> (b: bool)
        ensures
            b == self.tracks(id@),
    {
        self.find_minion(id).is_some()
    }

    /// Looks a tracked minion up by identifier.
    fn find_minion(&self, id: &str) -> (r: Option<usize>)
        ensures
            r matches Some(i) ==> 0 <= i < self.ids().len() && self.ids()[i as int] == id@,
            r is None ==> !self.tracks(id@),
            r is Some <==> self.tracks(id@),
    {
        let n = self.minions.len();
        let mut i: usize = 0;
        while i < n
            invariant
                n == self.minions.len(),
                i <= n,
                forall|k: int| 0 <= k < i ==> self.ids()[k] != id@,
            decreases n - i,
        {
            if str_eq(self.minions[i].id.as_str(), id) {
                assert(self.ids()[i as int] == id@);
                return Some(i);
            }
            i += 1;
        }
        assert(!self.ids().contains(id@));
        None
    }

    /// Records a new minion and opens its dedicated inbound channel: the
    /// sending half is tracked under the identifier, the receiving half is
    /// returned for the embedding program to hand to the spawned task. No
    /// minion is spawned while draining.
    pub fn spawn_minion(&mut self, id: String) -> (rx: UnboundedReceiver<BusMessage>)
        requires
            old(self).inv(),
            old(self).state() is Running,
            !old(self).tracks(id@),
        ensures
            final(self).inv(),
            final(self).state() is Running,
            final(self).ids() == old(self).ids().push(id@),
            final(self).tracks(id@),
    {
        let ghost pre_ids = self.ids();
        let ghost idv = id@;
        let (tx, rx) = channel_pair();
        self.minions.push(MinionHandle { id, inbound: tx });
        proof {
            assert_seqs_equal!(self.ids(), pre_ids.push(idv));
            assert(self.ids().last() == idv);
            assert(self.tracks(idv));
            assert forall|i: int, j: int|
                0 <= i < j < self.ids().len() implies self.ids()[i] != self.ids()[j] by {
                if j == pre_ids.len() {
                    assert(self.ids()[j] == idv);
                    assert(self.ids()[i] == pre_ids[i]);
                    assert(!pre_ids.contains(idv));
                } else {
                    assert(self.ids()[i] == pre_ids[i]);
                    assert(self.ids()[j] == pre_ids[j]);
                }
            }
        }
        rx
    }

    /// Sends a copy of the message to every tracked minion, ignoring
    /// recipients that are already gone.
    fn broadcast(&self, m: &BusMessage) {
        let n = self.minions.len();
        let mut i: usize = 0;
        while i < n
            invariant
                n == self.minions.len(),
                i <= n,
            decreases n - i,
        {
            let copy = m.clone();
            let _ = send_message(&self.minions[i].inbound, copy);
            i += 1;
        }
    }

    /// Drops the minion with this identifier from the tracked set, if it is
    /// there.
    fn remove_minion(&mut self, id: &str) -> (a: Action)
        requires
            old(self).inv(),
        ensures
            final(self).inv(),
            final(self).state() == old(self).state(),
            old(self).tracks(id@) ==> {
                &&& a is MinionExited
                &&& final(self).ids().len() == old(self).ids().len() - 1
                &&& forall|x: Seq<char>|
                    final(self).tracks(x) <==> (old(self).tracks(x) && x != id@)
            },
            !old(self).tracks(id@) ==> a is DroppedUnknown && *final(self) == *old(self),
    {
        let ghost pre = *self;
        match self.find_minion(id) {
            Some(i) => {
                self.minions.remove(i);
                proof {
                    lemma_ids_after_remove(pre, *self, i as int, id@);
                }
                Action::MinionExited
            },
            None => Action::DroppedUnknown,
        }
    }

    /// Dispatches one inbound envelope; see [`handle_transition`] for what
    /// each case does. Dispatch is total: it never panics, and the sends it
    /// performs never wait, so the loop around it is never blocked.
    pub fn handle_message(&mut self, m: &BusMessage) -> (a: Action)
        requires
            old(self).inv(),
            old(self).state() is Running || old(self).state() is Draining,
        ensures
            final(self).inv(),
            handle_transition(*old(self), *m, *final(self), a),
    {
        proof {
            lemma_reserved_names();
        }
        let running = self.state == OverlordState::Running;
        let a: Action;
        if str_eq(m.target.as_str(), "all") && str_eq(m.kind.as_str(), "shutdown") {
            if running {
                let sd = BusMessage::shutdown_all();
                self.broadcast(&sd);
                self.state = OverlordState::Draining;
                proof {
                    assert(self.minions@ == old(self).minions@);
                    assert(self.ids() == old(self).ids());
                }
                a = Action::ShutdownInitiated;
            } else {
                a = Action::Ignored;
            }
        } else if str_eq(m.target.as_str(), "overlord") {
            if str_eq(m.kind.as_str(), "minion_is_done") {
                match m.payload() {
                    Some(id) => {
                        a = self.remove_minion(id.as_str());
                    },
                    None => {
                        a = Action::Unrecognized;
                    },
                }
            } else if running {
                a = Action::Unrecognized;
            } else {
                a = Action::Ignored;
            }
        } else if !running {
            a = Action::Ignored;
        } else if str_eq(m.target.as_str(), "all") {
            self.broadcast(m);
            a = Action::Broadcast;
        } else {
            match self.find_minion(m.target.as_str()) {
                Some(i) => {
                    let copy = m.clone();
                    let _ = send_message(&self.minions[i].inbound, copy);
                    a = Action::Forwarded;
                    },
                None => {
                    a = Action::DroppedUnknown;
                    },
            }
        }
        a
    }

    /// Ends the drain: every minion still tracked failed to report within
    /// the embedding loop's bounded wait and is forcibly cancelled —
    /// dropping its inbound channel severs it — and the overlord stops.
    /// Returns how many were cancelled that way, for the loop's warning.
    pub fn finish_drain(&mut self) -> (forced: usize)
        requires
            old(self).inv(),
            old(self).state() is Draining,
        ensures
            final(self).inv(),
            drain_transition(*old(self), *final(self), forced as int),
    {
        let forced = self.minions.len();
        self.minions = Vec::new();
        self.state = OverlordState::Stopped;
        proof {
            assert(self.ids().len() == 0);
        }
        forced
    }
}

/// After removing the entry at `i`, whose identifier is `id`, from an
/// overlord whose identifiers are distinct: the remaining identifiers are
/// exactly the old ones except `id`.
proof fn lemma_ids_after_remove(pre: Overlord, post: Overlord, i: int, id: Seq<char>)
    requires
        pre.inv(),
        0 <= i < pre.ids().len(),
        pre.ids()[i] == id,
        post.minions@ == pre.minions@.remove(i),
        post.state == pre.state,
    ensures
        post.inv(),
        post.state() == pre.state(),
        post.ids().len() == pre.ids().len() - 1,
        forall|x: Seq<char>| post.tracks(x) <==> (pre.tracks(x) && x != id),
{
    assert_seqs_equal!(post.ids(), pre.ids().remove(i), k => {
        if k < i {
            assert(post.minions@[k] == pre.minions@[k]);
        } else {
            assert(post.minions@[k] == pre.minions@[k + 1]);
        }
    });
    let pre_ids = pre.ids();
    let post_ids = post.ids();
    assert forall|x: Seq<char>| post.tracks(x) implies (pre.tracks(x) && x != id) by {
        let k = choose|k: int| 0 <= k < post_ids.len() && post_ids[k] == x;
        if k < i {
            assert(pre_ids[k] == x);
        } else {
            assert(pre_ids[k + 1] == x);
        }
        if x == id {
            if k < i {
                assert(pre_ids[k] == pre_ids[i]);
                assert(false);
            } else {
                assert(pre_ids[k + 1] == pre_ids[i]);
                assert(false);
            }
        }
    }
    assert forall|x: Seq<char>| (pre.tracks(x) && x != id) implies post.tracks(x) by {
        let k = choose|k: int| 0 <= k < pre_ids.len() && pre_ids[k] == x;
        if k < i {
            assert(post_ids[k] == x);
            assert(post_ids.contains(x));
        } else {
            assert(k != i);
            assert(post_ids[k - 1] == x);
            assert(post_ids.contains(x));
        }
    }
    assert forall|a: int, b: int| 0 <= a < b < post_ids.len() implies post_ids[a] != post_ids[b] by {
        let a0 = if a < i { a } else { a + 1 };
        let b0 = if b < i { b } else { b + 1 };
        assert(post_ids[a] == pre_ids[a0]);
        assert(post_ids[b] == pre_ids[b0]);
        assert(a0 < b0);
    }
}

/// Law: a shutdown addressed to every minion, received while the overlord
/// is running, drives it — through the drain, however the embedding loop's
/// bounded wait ends — to stopped, whatever the number of minions tracked:
/// zero, one, or many.
pub proof fn lemma_shutdown_drives_to_stopped(
    pre: Overlord,
    mid: Overlord,
    post: Overlord,
    m: BusMessage,
    a: Action,
    forced: int,
)
    requires
        pre.state() is Running,
        is_shutdown_all(m),
        handle_transition(pre, m, mid, a),
        drain_transition(mid, post, forced),
    ensures
        mid.state() is Draining,
        a is ShutdownInitiated,
        post.state() is Stopped,
        post.ids().len() == 0,
{
}

/// Law: a message for an unknown minion identifier leaves the running
/// overlord exactly as it was — it is dropped with a diagnostic, the
/// dispatch neither panics (it is verified total) nor blocks (its sends
/// never wait).
pub proof fn lemma_unknown_target_harmless(
    pre: Overlord,
    post: Overlord,
    m: BusMessage,
    a: Action,
)
    requires
        pre.state() is Running,
        m.target@ != "all"@,
        m.target@ != "overlord"@,
        !pre.tracks(m.target@),
        handle_transition(pre, m, post, a),
    ensures
        post == pre,
        a is DroppedUnknown,
{
    assert(!is_shutdown_all(m));
}

} // verus!
