//! Flow control of one port.
//!
//! Data is sent in chunks of at most `chunk_size` bytes. The sender may only
//! hand a chunk to the transport while it holds credits for all of its
//! bytes; the receiver buffers at most its advertised window and gives
//! credits back as the buffered bytes are consumed.
use std::collections::VecDeque;
use vstd::prelude::*;

verus! {

/// Why sending an item to the remote endpoint failed.
#[derive(Debug, Clone, Copy, PartialEq, Eq, Structural)]
pub enum SendErrorKind {
    /// The item could not be serialized.
    Serialize,
    /// The serialized item exceeds the maximum item size.
    ItemTooLarge,
    /// The remote receiver has been dropped.
    Closed,
    /// The connection to the remote endpoint was lost.
    ConnectionClosed,
}

impl SendErrorKind {
    /// An error that concerns only the item that was being sent; later items
    /// may still go through.
    pub open spec fn spec_is_item_specific(self) -> bool {
        self is Serialize || self is ItemTooLarge
    }

    /// Whether the error concerns only the item that was being sent.
    #[verifier::when_used_as_spec(spec_is_item_specific)]
    pub fn is_item_specific(self) -> (r: bool)
        ensures
            r == self.spec_is_item_specific(),
    {
        match self {
            SendErrorKind::Serialize | SendErrorKind::ItemTooLarge => true,
            SendErrorKind::Closed | SendErrorKind::ConnectionClosed => false,
        }
    }
}

/// A flow-control violation by the peer. It is fatal for the connection.
#[derive(Debug, Clone, Copy, PartialEq, Eq, Structural)]
pub enum FlowError {
    /// The peer sent more data than the receive window allows.
    WindowExceeded,
    /// The peer granted more credits than were ever taken.
    CreditOverflow,
}

/// Checks the size of a serialized item against the peer's maximum item
/// size: an item of exactly `max_item_size` bytes is accepted.
pub fn check_item_size(len: usize, max_item_size: usize) -> (r: Result<(), SendErrorKind>)
    ensures
        r is Ok <==> len <= max_item_size,
        r is Err ==> r == Err::<(), SendErrorKind>(SendErrorKind::ItemTooLarge),
{
    if len <= max_item_size {
        Ok(())
    } else {
        Err(SendErrorKind::ItemTooLarge)
    }
}

/// The views of a sequence of chunks.
pub open spec fn chunk_views(chunks: Seq<Vec<u8>>) -> Seq<Seq<u8>> {
    chunks.map_values(|c: Vec<u8>| c@)
}

/// Splits `data` into chunks of at most `chunk_size` bytes, in order. Only
/// the last chunk may be shorter than `chunk_size`.
pub fn split_chunks(data: &[u8], chunk_size: usize) -> (chunks: Vec<Vec<u8>>)
    requires
        chunk_size > 0,
    ensures
        chunk_views(chunks@).flatten() == data@,
        forall|i: int|
            0 <= i < chunks@.len() ==> 0 < #[trigger] chunks@[i]@.len() <= chunk_size,
        forall|i: int| 0 <= i < chunks@.len() - 1 ==> #[trigger] chunks@[i]@.len() == chunk_size,
{
    let mut chunks: Vec<Vec<u8>> = Vec::new();
    let mut pos: usize = 0;
    while pos < data.len()
        invariant
            pos <= data@.len(),
            chunk_size > 0,
            chunk_views(chunks@).flatten() == data@.subrange(0, pos as int),
            forall|i: int|
                0 <= i < chunks@.len() ==> 0 < #[trigger] chunks@[i]@.len() <= chunk_size,
            forall|i: int|
                0 <= i < chunks@.len() - 1 ==> #[trigger] chunks@[i]@.len() == chunk_size,
            pos < data@.len() ==> forall|i: int|
                0 <= i < chunks@.len() ==> #[trigger] chunks@[i]@.len() == chunk_size,
        decreases data@.len() - pos,
    {
        let end: usize = if data.len() - pos > chunk_size {
            pos + chunk_size
        } else {
            data.len()
        };
        let mut chunk: Vec<u8> = Vec::new();
        let mut j: usize = pos;
        while j < end
            invariant
                pos <= j <= end <= data@.len(),
                chunk@ == data@.subrange(pos as int, j as int),
            decreases end - j,
        {
            chunk.push(data[j]);
            j = j + 1;
        }
        proof {
            chunk_views(chunks@).lemma_flatten_push(chunk@);
            assert(chunk_views(chunks@.push(chunk)) == chunk_views(chunks@).push(chunk@));
            assert(data@.subrange(0, end as int) == data@.subrange(0, pos as int) + chunk@);
        }
        chunks.push(chunk);
        pos = end;
    }
    assert(data@.subrange(0, pos as int) == data@);
    chunks
}

/// The sending side's credits on one port.
pub struct SendCredits {
    credits: u32,
    window: u32,
    sent: Ghost<nat>,
    acked: Ghost<nat>,
}

impl SendCredits {
    /// Bytes that may be sent now.
    pub closed spec fn credits(&self) -> u32 {
        self.credits
    }

    /// The peer's receive window: the credits held initially.
    pub closed spec fn window(&self) -> u32 {
        self.window
    }

    /// Bytes sent so far, all of which were paid for with credits.
    pub closed spec fn sent(&self) -> nat {
        self.sent@
    }

    /// Credits the peer has given back so far.
    pub closed spec fn acked(&self) -> nat {
        self.acked@
    }

    /// Credits are what the window allows less what was sent and not given
    /// back yet.
    pub closed spec fn wf(&self) -> bool {
        &&& self.credits + self.sent@ == self.window + self.acked@
        &&& self.acked@ <= self.sent@
    }

    /// Credits for a peer that advertised a receive window of `window` bytes.
    pub fn new(window: u32) -> (r: SendCredits)
        ensures
            r.wf(),
            r.credits() == window,
            r.window() == window,
            r.sent() == 0,
            r.acked() == 0,
    {
        SendCredits { credits: window, window, sent: Ghost(0), acked: Ghost(0) }
    }

    /// Bytes that may be sent now.
    pub fn available(&self) -> (r: u32)
        ensures
            r == self.credits(),
    {
        self.credits
    }

    /// Pays for a chunk of `len` bytes if enough credits are held; otherwise
    /// the sender has to wait and nothing changes.
    pub fn try_consume(&mut self, len: u32) -> (ok: bool)
        requires
            old(self).wf(),
        ensures
            final(self).wf(),
            ok == (len <= old(self).credits()),
            final(self).window() == old(self).window(),
            final(self).acked() == old(self).acked(),
            ok ==> final(self).credits() == old(self).credits() - len && final(self).sent() == old(self).sent() + len,
            !ok ==> final(self).credits() == old(self).credits() && final(self).sent() == old(self).sent(),
    {
        if len <= self.credits {
            self.credits = self.credits - len;
            self.sent = Ghost((self.sent@ + len) as nat);
            true
        } else {
            false
        }
    }

    /// Takes a credit grant of `n` bytes from the peer. A grant that would
    /// lift the credits above the window is a protocol violation.
    pub fn grant(&mut self, n: u32) -> (r: Result<(), FlowError>)
        requires
            old(self).wf(),
        ensures
            final(self).wf(),
            final(self).window() == old(self).window(),
            final(self).sent() == old(self).sent(),
            r is Ok <==> old(self).credits() + n <= old(self).window(),
            r is Ok ==> final(self).credits() == old(self).credits() + n && final(self).acked()
                == old(self).acked() + n,
            r is Err ==> r == Err::<(), FlowError>(FlowError::CreditOverflow) && final(self).credits()
                == old(self).credits() && final(self).acked() == old(self).acked(),
    {
        if n <= self.window - self.credits {
            self.credits = self.credits + n;
            self.acked = Ghost((self.acked@ + n) as nat);
            Ok(())
        } else {
            Err(FlowError::CreditOverflow)
        }
    }
}

/// The receiving side's buffer and window on one port.
pub struct RecvWindow {
    buffer: VecDeque<u8>,
    window: u32,
    unacked: u32,
    received: Ghost<Seq<u8>>,
    delivered: Ghost<Seq<u8>>,
    granted: Ghost<nat>,
}

impl RecvWindow {
    /// Bytes received and not consumed yet, oldest first.
    pub closed spec fn buffered(&self) -> Seq<u8> {
        self.buffer@
    }

    /// The advertised receive window.
    pub closed spec fn window(&self) -> u32 {
        self.window
    }

    /// Bytes consumed whose credits have not been given back yet.
    pub closed spec fn unacked(&self) -> u32 {
        self.unacked
    }

    /// Every byte received so far, in order of arrival.
    pub closed spec fn received(&self) -> Seq<u8> {
        self.received@
    }

    /// Every byte consumed so far, in order.
    pub closed spec fn delivered(&self) -> Seq<u8> {
        self.delivered@
    }

    /// Credits given back so far.
    pub closed spec fn granted(&self) -> nat {
        self.granted@
    }

    /// The consumed bytes followed by the buffered ones are the received
    /// bytes; buffered and unacknowledged bytes fit in the window.
    pub closed spec fn wf(&self) -> bool {
        &&& self.delivered@ + self.buffer@ == self.received@
        &&& self.buffer@.len() + self.unacked <= self.window
        &&& self.granted@ + self.unacked == self.delivered@.len()
    }

    /// Neither buffered bytes nor credits owed to the peer remain.
    pub open spec fn is_drained(&self) -> bool {
        self.buffered().len() == 0 && self.unacked() == 0
    }

    /// A receiver that advertises a window of `window` bytes.
    pub fn new(window: u32) -> (r: RecvWindow)
        ensures
            r.wf(),
            r.window() == window,
            r.buffered() == Seq::<u8>::empty(),
            r.unacked() == 0,
            r.received() == Seq::<u8>::empty(),
            r.delivered() == Seq::<u8>::empty(),
            r.granted() == 0,
    {
        RecvWindow {
            buffer: VecDeque::new(),
            window,
            unacked: 0,
            received: Ghost(Seq::empty()),
            delivered: Ghost(Seq::empty()),
            granted: Ghost(0),
        }
    }

    /// Number of bytes buffered.
    pub fn len(&self) -> (r: usize)
        ensures
            r == self.buffered().len(),
    {
        self.buffer.len()
    }

    /// Appends a chunk from the peer. A chunk that does not fit in what is
    /// left of the window is a protocol violation and is not taken.
    pub fn accept(&mut self, data: &[u8]) -> (r: Result<(), FlowError>)
        requires
            old(self).wf(),
        ensures
            final(self).wf(),
            final(self).window() == old(self).window(),
            final(self).unacked() == old(self).unacked(),
            final(self).delivered() == old(self).delivered(),
            final(self).granted() == old(self).granted(),
            r is Ok <==> old(self).buffered().len() + old(self).unacked() + data@.len() <= old(self).window(),
            r is Ok ==> final(self).buffered() == old(self).buffered() + data@ && final(self).received() == old(self).received() + data@,
            r is Err ==> r == Err::<(), FlowError>(FlowError::WindowExceeded) && final(self).buffered() == old(self).buffered() && final(self).received() == old(self).received(),
    {
        let room: usize = (self.window - self.unacked) as usize - self.buffer.len();
        if data.len() > room {
            return Err(FlowError::WindowExceeded);
        }
        let ghost old_buffer = self.buffer@;
        let ghost old_received = self.received@;
        let mut i: usize = 0;
        while i < data.len()
            invariant
                i <= data@.len(),
                self.buffer@ == old_buffer + data@.subrange(0, i as int),
                self.window == old(self).window,
                self.unacked == old(self).unacked,
                self.delivered == old(self).delivered,
                self.granted == old(self).granted,
                self.received == old(self).received,
            decreases data@.len() - i,
        {
            self.buffer.push_back(data[i]);
            i = i + 1;
        }
        assert(data@.subrange(0, i as int) == data@);
        self.received = Ghost(old_received + data@);
        assert(self.delivered@ + self.buffer@ =~= self.received@);
        Ok(())
    }

    /// Takes up to `max` of the oldest buffered bytes. Their credits are
    /// owed to the peer from now on.
    pub fn consume(&mut self, max: usize) -> (r: Vec<u8>)
        requires
            old(self).wf(),
        ensures
            final(self).wf(),
            final(self).window() == old(self).window(),
            final(self).received() == old(self).received(),
            final(self).granted() == old(self).granted(),
            r@.len() == if max < old(self).buffered().len() {
                max as int
            } else {
                old(self).buffered().len() as int
            },
            r@ == old(self).buffered().take(r@.len() as int),
            final(self).buffered() == old(self).buffered().skip(r@.len() as int),
            final(self).delivered() == old(self).delivered() + r@,
            final(self).unacked() == old(self).unacked() + r@.len(),
    {
        let n: usize = if max < self.buffer.len() {
            max
        } else {
            self.buffer.len()
        };
        let ghost old_buffer = self.buffer@;
        let mut out: Vec<u8> = Vec::new();
        let mut i: usize = 0;
        while i < n
            invariant
                i <= n <= old_buffer.len(),
                out@ == old_buffer.take(i as int),
                self.buffer@ == old_buffer.skip(i as int),
                self.window == old(self).window,
                self.unacked == old(self).unacked,
                self.delivered == old(self).delivered,
                self.granted == old(self).granted,
                self.received == old(self).received,
            decreases n - i,
        {
            let b = self.buffer.pop_front();
            match b {
                Some(b) => {
                    out.push(b);
                },
                None => {},
            }
            assert(old_buffer.take(i as int + 1) == old_buffer.take(i as int).push(
                old_buffer[i as int],
            ));
            assert(old_buffer.skip(i as int + 1) == old_buffer.skip(i as int).drop_first());
            i = i + 1;
        }
        self.unacked = self.unacked + n as u32;
        self.delivered = Ghost(self.delivered@ + out@);
        assert(old_buffer =~= old_buffer.take(n as int) + old_buffer.skip(n as int));
        assert(self.delivered@ + self.buffer@ =~= self.received@);
        out
    }

    /// Whether the owed credits are due: once at least half the window has
    /// been consumed, or once the buffer has been drained completely.
    pub open spec fn grant_due(&self) -> bool {
        self.unacked() > 0 && (2 * self.unacked() >= self.window() || self.buffered().len() == 0)
    }

    /// Hands out the credits owed to the peer when they are due, and
    /// otherwise zero.
    pub fn take_grant(&mut self) -> (n: u32)
        requires
            old(self).wf(),
        ensures
            final(self).wf(),
            final(self).window() == old(self).window(),
            final(self).buffered() == old(self).buffered(),
            final(self).received() == old(self).received(),
            final(self).delivered() == old(self).delivered(),
            old(self).grant_due() ==> n == old(self).unacked() && final(self).unacked() == 0
                && final(self).granted() == old(self).granted() + n,
            !old(self).grant_due() ==> n == 0 && final(self).unacked() == old(self).unacked()
                && final(self).granted() == old(self).granted(),
    {
        if self.unacked > 0 && (self.unacked as u64 * 2 >= self.window as u64
            || self.buffer.len() == 0) {
            let n = self.unacked;
            self.unacked = 0;
            self.granted = Ghost((self.granted@ + n) as nat);
            n
        } else {
            0
        }
    }
}

/// Which directions of a port are still open.
#[derive(Debug, Clone, Copy, PartialEq, Eq, Structural)]
pub struct PortEnds {
    /// The local sender may still send.
    pub send_open: bool,
    /// The local receiver may still receive.
    pub recv_open: bool,
}

impl PortEnds {
    /// A port with both directions open.
    pub fn new() -> (r: PortEnds)
        ensures
            r.send_open && r.recv_open,
    {
        PortEnds { send_open: true, recv_open: true }
    }

    /// Records a hangup of one direction; `send` tells which.
    pub fn hangup(&mut self, send: bool)
        ensures
            send ==> final(self).send_open == false && final(self).recv_open == old(self).recv_open,
            !send ==> final(self).recv_open == false && final(self).send_open == old(self).send_open,
    {
        if send {
            self.send_open = false;
        } else {
            self.recv_open = false;
        }
    }

    /// Whether data may be sent: sending fails with `Closed` once the
    /// sending direction is closed.
    pub fn check_send(&self) -> (r: Result<(), SendErrorKind>)
        ensures
            r is Ok <==> self.send_open,
            r is Err ==> r == Err::<(), SendErrorKind>(SendErrorKind::Closed),
    {
        if self.send_open {
            Ok(())
        } else {
            Err(SendErrorKind::Closed)
        }
    }

    /// The port's state may be freed once both directions are closed.
    pub fn can_free(&self) -> (r: bool)
        ensures
            r == (!self.send_open && !self.recv_open),
    {
        !self.send_open && !self.recv_open
    }
}

/// Bytes are consumed in the order in which they were received: what has
/// been consumed is always a prefix of what has arrived.
pub proof fn lemma_delivery_in_order(r: &RecvWindow)
    requires
        r.wf(),
    ensures
        r.delivered().len() <= r.received().len(),
        r.received().take(r.delivered().len() as int) == r.delivered(),
{
    assert(r.received().take(r.delivered().len() as int) == r.delivered());
}

/// At quiescence every byte sent has been acknowledged by credits: when the
/// receiver holds every sent byte, has consumed them all and given all their
/// credits back, and every grant has reached the sender, then the sender's
/// acknowledged bytes equal its sent bytes and its credits are back at the
/// full window.
pub proof fn lemma_credits_balance(s: &SendCredits, r: &RecvWindow)
    requires
        s.wf(),
        r.wf(),
        r.received().len() == s.sent(),
        s.acked() == r.granted(),
        r.is_drained(),
    ensures
        s.acked() == s.sent(),
        s.credits() == s.window(),
{
}

/// While the peer's window is respected, the receiver never holds more
/// bytes than the window it advertised.
pub proof fn lemma_buffer_within_window(r: &RecvWindow)
    requires
        r.wf(),
    ensures
        r.buffered().len() + r.unacked() <= r.window(),
{
}

} // verus!
