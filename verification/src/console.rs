//! The console's queue state and every operation on it.

use vstd::prelude::*;
use vstd::string::StringSliceAdditionalSpecFns;
use crate::byte_queue::{
    append_bounded, lemma_append_bounded_step, lemma_take_full, queue_capacity, queue_dequeue,
    queue_enqueue, queue_items, queue_new,
};

verus! {

/// Whether bytes received from the host are also queued for transmission
/// back to it.
pub const AUTO_ECHO: bool = true;

/// What the caller does next while it services the USB endpoint.
#[derive(Clone, Copy, Debug, PartialEq, Eq, Structural)]
pub enum PollAction {
    /// Read the next chunk that the host sent from the endpoint.
    ReadEndpoint,
    /// Hand this one byte to the endpoint for transmission.
    Send(u8),
    /// Nothing more to do in this poll.
    Finish,
}

/// The transmit and receive queues of the console.
///
/// Both queues are bounded: a byte that finds a queue full is dropped.
pub struct RpUsbConsole {
    tx_buf: heapless::spsc::Queue<u8, 1024>,
    rx_buf: heapless::spsc::Queue<u8, 1024>,
}

impl RpUsbConsole {
    /// Bytes waiting to be sent to the host, oldest first.
    pub closed spec fn tx_queue(&self) -> Seq<u8> {
        queue_items(self.tx_buf)
    }

    /// Bytes received from the host and not yet read, oldest first.
    pub closed spec fn rx_queue(&self) -> Seq<u8> {
        queue_items(self.rx_buf)
    }

    /// Neither queue holds more than its capacity.
    pub open spec fn wf(&self) -> bool {
        &&& self.tx_queue().len() <= queue_capacity()
        &&& self.rx_queue().len() <= queue_capacity()
    }

    /// A console with both queues empty.
    pub fn init() -> (c: Self)
        ensures
            c.wf(),
            c.tx_queue() == Seq::<u8>::empty(),
            c.rx_queue() == Seq::<u8>::empty(),
    {
        RpUsbConsole { tx_buf: queue_new(), rx_buf: queue_new() }
    }

    /// Queues `data` for transmission; bytes that do not fit are dropped.
    pub fn write(&mut self, data: &[u8])
        requires
            old(self).wf(),
        ensures
            final(self).wf(),
            final(self).tx_queue() == append_bounded(old(self).tx_queue(), data@, queue_capacity()),
            final(self).rx_queue() == old(self).rx_queue(),
    {
        let mut i: usize = 0;
        while i < data.len()
            invariant
                i <= data@.len(),
                self.wf(),
                self.tx_queue() == append_bounded(old(self).tx_queue(), data@.take(i as int), queue_capacity()),
                self.rx_queue() == old(self).rx_queue(),
                old(self).wf(),
            decreases data@.len() - i,
        {
            proof {
                lemma_append_bounded_step(old(self).tx_queue(), data@, i as int, queue_capacity());
            }
            let _ = queue_enqueue(&mut self.tx_buf, data[i]);
            i = i + 1;
        }
        proof {
            lemma_take_full(data@);
        }
    }

    /// Absorbs one chunk that the host sent: each byte is queued for reading
    /// and, with [`AUTO_ECHO`], queued for transmission back to the host.
    /// Bytes that find a queue full are dropped from that queue.
    pub fn pump_rx_echo(&mut self, received: &[u8])
        requires
            old(self).wf(),
        ensures
            final(self).wf(),
            final(self).rx_queue() == append_bounded(old(self).rx_queue(), received@, queue_capacity()),
            AUTO_ECHO ==> final(self).tx_queue() == append_bounded(
                old(self).tx_queue(),
                received@,
                queue_capacity(),
            ),
            !AUTO_ECHO ==> final(self).tx_queue() == old(self).tx_queue(),
    {
        let mut i: usize = 0;
        while i < received.len()
            invariant
                i <= received@.len(),
                self.wf(),
                old(self).wf(),
                self.rx_queue() == append_bounded(old(self).rx_queue(), received@.take(i as int), queue_capacity()),
                self.tx_queue() == append_bounded(old(self).tx_queue(), received@.take(i as int), queue_capacity()),
            decreases received@.len() - i,
        {
            proof {
                lemma_append_bounded_step(old(self).rx_queue(), received@, i as int, queue_capacity());
                lemma_append_bounded_step(old(self).tx_queue(), received@, i as int, queue_capacity());
            }
            let b = received[i];
            let _ = queue_enqueue(&mut self.rx_buf, b);
            if AUTO_ECHO {
                let _ = queue_enqueue(&mut self.tx_buf, b);
            }
            i = i + 1;
        }
        proof {
            lemma_take_full(received@);
        }
    }

    /// Moves the oldest received bytes into `buf`, as many as fit and are
    /// queued, and returns how many were moved.  The rest of `buf` is left
    /// as it was.
    pub fn read(&mut self, buf: &mut [u8]) -> (n: usize)
        requires
            old(self).wf(),
        ensures
            final(self).wf(),
            n as int == if old(buf)@.len() <= old(self).rx_queue().len() {
                old(buf)@.len() as int
            } else {
                old(self).rx_queue().len() as int
            },
            final(buf)@ == old(self).rx_queue().take(n as int) + old(buf)@.skip(n as int),
            final(self).rx_queue() == old(self).rx_queue().skip(n as int),
            final(self).tx_queue() == old(self).tx_queue(),
    {
        let mut n: usize = 0;
        loop
            invariant
                n <= old(buf)@.len(),
                n <= old(self).rx_queue().len(),
                buf@.len() == old(buf)@.len(),
                buf@ == old(self).rx_queue().take(n as int) + old(buf)@.skip(n as int),
                self.rx_queue() == old(self).rx_queue().skip(n as int),
                self.tx_queue() == old(self).tx_queue(),
                old(self).wf(),
            ensures
                n as int == if old(buf)@.len() <= old(self).rx_queue().len() {
                    old(buf)@.len() as int
                } else {
                    old(self).rx_queue().len() as int
                },
                buf@ == old(self).rx_queue().take(n as int) + old(buf)@.skip(n as int),
                self.rx_queue() == old(self).rx_queue().skip(n as int),
                self.tx_queue() == old(self).tx_queue(),
            decreases old(buf)@.len() - n,
        {
            if n >= buf.len() {
                break;
            }
            match queue_dequeue(&mut self.rx_buf) {
                Some(b) => {
                    buf[n] = b;
                    proof {
                        assert(old(self).rx_queue().skip(n as int)[0] == old(self).rx_queue()[n as int]);
                        assert(old(self).rx_queue().skip(n as int).drop_first()
                            =~= old(self).rx_queue().skip(n + 1));
                    }
                    n = n + 1;
                    assert(buf@ =~= old(self).rx_queue().take(n as int) + old(buf)@.skip(n as int));
                },
                None => {
                    break;
                },
            }
        }
        n
    }

    /// Takes the oldest byte waiting for transmission, if any, so that the
    /// caller can hand it to the endpoint.
    fn next_tx_byte(&mut self) -> (r: Option<u8>)
        requires
            old(self).wf(),
        ensures
            final(self).wf(),
            old(self).tx_queue().len() == 0 ==> r is None && final(self).tx_queue() == old(self).tx_queue(),
            old(self).tx_queue().len() > 0 ==> r == Some(old(self).tx_queue()[0])
                && final(self).tx_queue() == old(self).tx_queue().drop_first(),
            final(self).rx_queue() == old(self).rx_queue(),
    {
        queue_dequeue(&mut self.tx_buf)
    }

    /// Puts back a byte that the endpoint refused.  It goes to the back of
    /// the transmit queue (dropped only if the queue has no room).
    fn tx_send_failed(&mut self, byte: u8)
        requires
            old(self).wf(),
        ensures
            final(self).wf(),
            final(self).tx_queue() == append_bounded(old(self).tx_queue(), seq![byte], queue_capacity()),
            final(self).rx_queue() == old(self).rx_queue(),
    {
        let _ = queue_enqueue(&mut self.tx_buf, byte);
        proof {
            if old(self).tx_queue().len() < queue_capacity() {
                assert(old(self).tx_queue() + seq![byte] =~= old(self).tx_queue().push(byte));
            }
        }
    }

    /// The first step of the transmit half of a poll: send the oldest queued
    /// byte, or finish when nothing is queued.
    fn start_send(&mut self) -> (a: PollAction)
        requires
            old(self).wf(),
        ensures
            final(self).wf(),
            old(self).tx_queue().len() == 0 ==> a == PollAction::Finish
                && final(self).tx_queue() == old(self).tx_queue(),
            old(self).tx_queue().len() > 0 ==> a == PollAction::Send(old(self).tx_queue()[0])
                && final(self).tx_queue() == old(self).tx_queue().drop_first(),
            final(self).rx_queue() == old(self).rx_queue(),
    {
        match self.next_tx_byte() {
            Some(b) => PollAction::Send(b),
            None => PollAction::Finish,
        }
    }

    /// Begins a poll, once the device stack has been polled.  The endpoint
    /// is serviced only when the host has configured the device.
    pub fn poll_begin(&self, configured: bool) -> (a: PollAction)
        ensures
            configured ==> a == PollAction::ReadEndpoint,
            !configured ==> a == PollAction::Finish,
    {
        if configured {
            PollAction::ReadEndpoint
        } else {
            PollAction::Finish
        }
    }

    /// Takes the outcome of a read of the endpoint: the bytes it gave, or
    /// `None` when the read failed.  A non-empty chunk is absorbed (see
    /// [`Self::pump_rx_echo`]) and the endpoint is read again; an empty chunk
    /// or a failure ends the receive half and the transmit half begins.
    pub fn on_read(&mut self, received: Option<&[u8]>) -> (a: PollAction)
        requires
            old(self).wf(),
        ensures
            final(self).wf(),
            (received matches Some(d) && d@.len() > 0) ==> {
                &&& a == PollAction::ReadEndpoint
                &&& final(self).rx_queue() == append_bounded(
                    old(self).rx_queue(),
                    received.unwrap()@,
                    queue_capacity(),
                )
                &&& final(self).tx_queue() == if AUTO_ECHO {
                    append_bounded(old(self).tx_queue(), received.unwrap()@, queue_capacity())
                } else {
                    old(self).tx_queue()
                }
            },
            !(received matches Some(d) && d@.len() > 0) ==> {
                &&& final(self).rx_queue() == old(self).rx_queue()
                &&& old(self).tx_queue().len() == 0 ==> a == PollAction::Finish
                    && final(self).tx_queue() == old(self).tx_queue()
                &&& old(self).tx_queue().len() > 0 ==> a == PollAction::Send(old(self).tx_queue()[0])
                    && final(self).tx_queue() == old(self).tx_queue().drop_first()
            },
    {
        match received {
            Some(d) => {
                if d.len() > 0 {
                    self.pump_rx_echo(d);
                    PollAction::ReadEndpoint
                } else {
                    self.start_send()
                }
            },
            None => self.start_send(),
        }
    }

    /// Takes the outcome of handing `byte` to the endpoint.  When it was
    /// accepted the next queued byte follows; when it was refused the byte is
    /// put back at the end of the transmit queue and the poll finishes.
    pub fn on_sent(&mut self, byte: u8, accepted: bool) -> (a: PollAction)
        requires
            old(self).wf(),
        ensures
            final(self).wf(),
            final(self).rx_queue() == old(self).rx_queue(),
            accepted ==> {
                &&& old(self).tx_queue().len() == 0 ==> a == PollAction::Finish
                    && final(self).tx_queue() == old(self).tx_queue()
                &&& old(self).tx_queue().len() > 0 ==> a == PollAction::Send(old(self).tx_queue()[0])
                    && final(self).tx_queue() == old(self).tx_queue().drop_first()
            },
            !accepted ==> a == PollAction::Finish && final(self).tx_queue() == append_bounded(
                old(self).tx_queue(),
                seq![byte],
                queue_capacity(),
            ),
    {
        if accepted {
            self.start_send()
        } else {
            self.tx_send_failed(byte);
            PollAction::Finish
        }
    }

    /// Queues the UTF-8 bytes of `s` for transmission.
    pub fn print(&mut self, s: &str)
        requires
            old(self).wf(),
        ensures
            final(self).wf(),
            final(self).tx_queue() == append_bounded(old(self).tx_queue(), s.spec_bytes(), queue_capacity()),
            final(self).rx_queue() == old(self).rx_queue(),
    {
        self.write(s.as_bytes());
    }

    /// Queues the UTF-8 bytes of `s` followed by a carriage return and a
    /// line feed.
    pub fn println(&mut self, s: &str)
        requires
            old(self).wf(),
        ensures
            final(self).wf(),
            final(self).tx_queue() == append_bounded(
                append_bounded(old(self).tx_queue(), s.spec_bytes(), queue_capacity()),
                seq![13u8, 10u8],
                queue_capacity(),
            ),
            final(self).rx_queue() == old(self).rx_queue(),
    {
        self.print(s);
        let crlf: [u8; 2] = [13u8, 10u8];
        assert(crlf@ =~= seq![13u8, 10u8]);
        self.write(&crlf);
    }
}

/// The line that the example firmware logs from a helper function, queued
/// as a printed line.
pub fn test(console: &mut RpUsbConsole)
    requires
        old(console).wf(),
    ensures
        final(console).wf(),
        final(console).tx_queue() == append_bounded(
            append_bounded(old(console).tx_queue(), "这是在外部函数测试".spec_bytes(), queue_capacity()),
            seq![13u8, 10u8],
            queue_capacity(),
        ),
        final(console).rx_queue() == old(console).rx_queue(),
{
    console.println("这是在外部函数测试");
}

/// The same helper-function log line, as the echo example firmware names it.
pub fn test_log(console: &mut RpUsbConsole)
    requires
        old(console).wf(),
    ensures
        final(console).wf(),
        final(console).tx_queue() == append_bounded(
            append_bounded(old(console).tx_queue(), "这是在外部函数测试".spec_bytes(), queue_capacity()),
            seq![13u8, 10u8],
            queue_capacity(),
        ),
        final(console).rx_queue() == old(console).rx_queue(),
{
    console.println("这是在外部函数测试");
}

} // verus!
