//! Properties of the console's queues that span several operations.

use vstd::prelude::*;
use crate::byte_queue::append_bounded;

verus! {

/// While a queue has room for every byte, nothing is dropped: the bytes are
/// kept after those already queued, in the order they were given.
pub proof fn lemma_append_within_capacity(q: Seq<u8>, d: Seq<u8>, cap: nat)
    requires
        q.len() + d.len() <= cap,
    ensures
        append_bounded(q, d, cap) == q + d,
{
}

/// A bounded append never disturbs the bytes already queued, never exceeds
/// the capacity, and keeps exactly the oldest of the new bytes that fit:
/// the result is the prefix of `q + d` of length `min(cap, |q| + |d|)`.
pub proof fn lemma_append_keeps_oldest(q: Seq<u8>, d: Seq<u8>, cap: nat)
    requires
        q.len() <= cap,
    ensures
        append_bounded(q, d, cap).len() == if q.len() + d.len() <= cap {
            q.len() + d.len()
        } else {
            cap
        },
        append_bounded(q, d, cap) == (q + d).take(append_bounded(q, d, cap).len() as int),
        append_bounded(q, d, cap).take(q.len() as int) == q,
{
    let r = append_bounded(q, d, cap);
    if q.len() >= cap {
        assert((q + d).take(q.len() as int) =~= q);
    } else if d.len() <= cap - q.len() {
        assert((q + d).take((q + d).len() as int) =~= q + d);
    } else {
        assert((q + d).take(cap as int) =~= q + d.take(cap - q.len()));
    }
    assert(r.take(q.len() as int) =~= q);
}

/// A full queue ignores everything appended to it.
pub proof fn lemma_append_to_full(q: Seq<u8>, d: Seq<u8>, cap: nat)
    requires
        q.len() >= cap,
    ensures
        append_bounded(q, d, cap) == q,
{
}

/// Reading hands back exactly what it removes: the bytes given to the reader
/// followed by the bytes left queued are the bytes that were queued.
pub proof fn lemma_read_partition(q: Seq<u8>, n: int)
    requires
        0 <= n <= q.len(),
    ensures
        q.take(n) + q.skip(n) == q,
{
    assert(q.take(n) + q.skip(n) =~= q);
}

/// Receiving into an empty receive queue and then reading with a buffer at
/// least as long as the chunk gives the chunk back whole and empties the
/// queue, provided the chunk fits.
pub proof fn lemma_receive_then_read(d: Seq<u8>, buf: Seq<u8>, cap: nat)
    requires
        d.len() <= cap,
        d.len() <= buf.len(),
    ensures
        ({
            let q = append_bounded(Seq::<u8>::empty(), d, cap);
            &&& q.len() == d.len()
            &&& q.take(d.len() as int) + buf.skip(d.len() as int) == d + buf.skip(d.len() as int)
            &&& q.skip(d.len() as int) == Seq::<u8>::empty()
        }),
{
    let q = append_bounded(Seq::<u8>::empty(), d, cap);
    assert(q =~= d);
    assert(q.take(d.len() as int) =~= d);
    assert(q.skip(d.len() as int) =~= Seq::<u8>::empty());
}

/// Echo: one received chunk lands at the end of both queues alike when both
/// have room for it.
pub proof fn lemma_echo_mirrors_receive(rx: Seq<u8>, tx: Seq<u8>, d: Seq<u8>, cap: nat)
    requires
        rx.len() + d.len() <= cap,
        tx.len() + d.len() <= cap,
    ensures
        append_bounded(rx, d, cap).skip(rx.len() as int) == d,
        append_bounded(tx, d, cap).skip(tx.len() as int) == d,
{
    assert((rx + d).skip(rx.len() as int) =~= d);
    assert((tx + d).skip(tx.len() as int) =~= d);
}

/// A byte that the endpoint refuses is not lost: taking the oldest byte and
/// putting it back leaves the same bytes queued, with that byte moved to
/// the back.
pub proof fn lemma_refused_byte_kept(q: Seq<u8>, cap: nat)
    requires
        q.len() > 0,
        q.len() <= cap,
    ensures
        append_bounded(q.drop_first(), seq![q[0]], cap) == q.drop_first().push(q[0]),
        append_bounded(q.drop_first(), seq![q[0]], cap).len() == q.len(),
        append_bounded(q.drop_first(), seq![q[0]], cap).to_multiset() == q.to_multiset(),
{
    let r = append_bounded(q.drop_first(), seq![q[0]], cap);
    assert(q.drop_first() + seq![q[0]] =~= q.drop_first().push(q[0]));
    assert(q =~= seq![q[0]] + q.drop_first());
    vstd::seq_lib::lemma_multiset_commutative(seq![q[0]], q.drop_first());
    vstd::seq_lib::lemma_multiset_commutative(q.drop_first(), seq![q[0]]);
}

/// While every byte is accepted, bytes leave the transmit queue in the order
/// they were queued: after `k` bytes were sent the next one is `q[k]`.
pub proof fn lemma_send_order(q: Seq<u8>, k: int)
    requires
        0 <= k < q.len(),
    ensures
        q.skip(k)[0] == q[k],
        q.skip(k).drop_first() == q.skip(k + 1),
{
    assert(q.skip(k).drop_first() =~= q.skip(k + 1));
}

} // verus!
