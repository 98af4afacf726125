//! Per-producer delivery order on the bus.
//!
//! The channels behind [`crate::bus`] promise each sender's messages to the
//! single receiver in the order that sender issued them, with no ordering
//! across senders. What the receiver observes over time is therefore an
//! interleaving of the producers' send sequences — and the law below shows
//! that filtering the observed sequence down to one producer yields exactly
//! that producer's sends, in order. Messages carry their producer's tag
//! here only to name which producer an event belongs to; on the real bus
//! the envelope itself is self-describing.

use vstd::prelude::*;

verus! {

/// The events of `trace` that belong to producer `p`, in observed order,
/// stripped of the producer tag.
pub open spec fn project<T>(trace: Seq<(int, T)>, p: int) -> Seq<T>
    decreases trace.len(),
{
    if trace.len() == 0 {
        Seq::empty()
    } else if trace.first().0 == p {
        seq![trace.first().1] + project(trace.drop_first(), p)
    } else {
        project(trace.drop_first(), p)
    }
}

/// `trace` merges the two producers' send sequences without reordering
/// either: every event is the next unconsumed send of its producer.
pub open spec fn is_interleaving<T>(trace: Seq<(int, T)>, a: Seq<T>, b: Seq<T>) -> bool
    decreases trace.len(),
{
    if trace.len() == 0 {
        a.len() == 0 && b.len() == 0
    } else {
        ||| (trace.first().0 == 0 && a.len() > 0 && trace.first().1 == a.first()
            && is_interleaving(trace.drop_first(), a.drop_first(), b))
        ||| (trace.first().0 == 1 && b.len() > 0 && trace.first().1 == b.first()
            && is_interleaving(trace.drop_first(), a, b.drop_first()))
    }
}

/// Law: per-producer order is kept. However the receiver's observation
/// interleaves two producers' sends, the observation filtered to one
/// producer is exactly that producer's send sequence, in the order it was
/// sent.
pub proof fn lemma_per_producer_fifo<T>(trace: Seq<(int, T)>, a: Seq<T>, b: Seq<T>)
    requires
        is_interleaving(trace, a, b),
    ensures
        project(trace, 0) == a,
        project(trace, 1) == b,
    decreases trace.len(),
{
    if trace.len() == 0 {
        assert(project(trace, 0) =~= a);
        assert(project(trace, 1) =~= b);
    } else if trace.first().0 == 0 && a.len() > 0 && trace.first().1 == a.first()
        && is_interleaving(trace.drop_first(), a.drop_first(), b) {
        lemma_per_producer_fifo(trace.drop_first(), a.drop_first(), b);
        assert(project(trace, 0) =~= a);
        assert(project(trace, 1) =~= b);
    } else {
        lemma_per_producer_fifo(trace.drop_first(), a, b.drop_first());
        assert(project(trace, 1) =~= b);
        assert(project(trace, 0) =~= a);
    }
}

} // verus!
