//! The bounded single-producer/single-consumer byte queue used for both
//! directions of the console, and the arithmetic of bounded appends.

use vstd::prelude::*;

verus! {

/// Number of slots of each queue's storage.
pub const QUEUE_SLOTS: usize = 1024;

/// `heapless::spsc::Queue` is a ring buffer that keeps one slot free, so it
/// holds at most one element fewer than its number of slots.
pub open spec fn queue_capacity() -> nat {
    (QUEUE_SLOTS - 1) as nat
}

/// The sequence `q` after `d` is appended byte by byte to a queue that
/// refuses bytes once it holds `cap` of them: the bytes that find room are
/// kept in order, the rest are dropped.
pub open spec fn append_bounded(q: Seq<u8>, d: Seq<u8>, cap: nat) -> Seq<u8> {
    if q.len() >= cap {
        q
    } else if d.len() <= cap - q.len() {
        q + d
    } else {
        q + d.take(cap - q.len())
    }
}

/// Appending a prefix one byte longer either appends that byte (when there
/// is room) or changes nothing.
pub proof fn lemma_append_bounded_step(q: Seq<u8>, d: Seq<u8>, i: int, cap: nat)
    requires
        0 <= i < d.len(),
        q.len() <= cap,
    ensures
        append_bounded(q, d.take(i), cap).len() <= cap,
        append_bounded(q, d.take(i), cap).len() < cap ==> append_bounded(q, d.take(i + 1), cap)
            == append_bounded(q, d.take(i), cap).push(d[i]),
        append_bounded(q, d.take(i), cap).len() >= cap ==> append_bounded(q, d.take(i + 1), cap)
            == append_bounded(q, d.take(i), cap),
{
    let a = append_bounded(q, d.take(i), cap);
    let b = append_bounded(q, d.take(i + 1), cap);
    if q.len() >= cap {
    } else if i + 1 <= cap - q.len() {
        assert(d.take(i + 1) =~= d.take(i).push(d[i]));
        assert(b =~= a.push(d[i]));
    } else {
        assert(d.take(i + 1).take(cap - q.len()) =~= d.take(i).take(cap - q.len()));
        if i <= cap - q.len() {
            assert(d.take(i).take(cap - q.len()) =~= d.take(i));
        }
    }
}

/// The whole sequence is the prefix of its own length.
pub proof fn lemma_take_full(d: Seq<u8>)
    ensures
        d.take(d.len() as int) == d,
{
    assert(d.take(d.len() as int) =~= d);
}

#[verifier::external_type_specification]
#[verifier::external_body]
#[verifier::reject_recursive_types(T)]
pub struct ExSpscQueue<T, const N: usize>(heapless::spsc::Queue<T, N>);

/// The bytes held by a queue, oldest first.
pub uninterp spec fn queue_items(q: heapless::spsc::Queue<u8, 1024>) -> Seq<u8>;

/// Calls `heapless::spsc::Queue::new`: the new queue holds nothing.
#[verifier::external_body]
pub(crate) fn queue_new() -> (q: heapless::spsc::Queue<u8, 1024>)
    ensures
        queue_items(q) == Seq::<u8>::empty(),
{
    heapless::spsc::Queue::new()
}

/// Calls `heapless::spsc::Queue::enqueue`: when the queue holds fewer than
/// its capacity, the byte is appended at the back and `Ok(())` comes back;
/// otherwise the queue is unchanged and the byte comes back in `Err`.
#[verifier::external_body]
pub(crate) fn queue_enqueue(q: &mut heapless::spsc::Queue<u8, 1024>, byte: u8) -> (r: Result<(), u8>)
    ensures
        queue_items(*old(q)).len() < queue_capacity() ==> {
            &&& r is Ok
            &&& queue_items(*final(q)) == queue_items(*old(q)).push(byte)
        },
        queue_items(*old(q)).len() >= queue_capacity() ==> {
            &&& r == Err::<(), u8>(byte)
            &&& queue_items(*final(q)) == queue_items(*old(q))
        },
{
    q.enqueue(byte)
}

/// Calls `heapless::spsc::Queue::dequeue`: an empty queue stays empty and
/// gives `None`; otherwise the oldest byte is removed and returned.
#[verifier::external_body]
pub(crate) fn queue_dequeue(q: &mut heapless::spsc::Queue<u8, 1024>) -> (r: Option<u8>)
    ensures
        queue_items(*old(q)).len() == 0 ==> {
            &&& r is None
            &&& queue_items(*final(q)) == queue_items(*old(q))
        },
        queue_items(*old(q)).len() > 0 ==> {
            &&& r == Some(queue_items(*old(q))[0])
            &&& queue_items(*final(q)) == queue_items(*old(q)).drop_first()
        },
{
    q.dequeue()
}

} // verus!
