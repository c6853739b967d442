//! Connection-level state of the multiplexer: its lifecycle, the ordered
//! queue of outbound frames, and the admission of ports opened by the peer.
use crate::frame::{Frame, FrameView};
use crate::port::SendErrorKind;
use std::collections::HashSet;
use std::collections::VecDeque;
use vstd::prelude::*;

verus! {

broadcast use vstd::std_specs::hash::group_hash_axioms;

/// Where a connection is in its life.
#[derive(Debug, Clone, Copy, PartialEq, Eq, Structural)]
pub enum Lifecycle {
    /// Ports may be opened and data flows.
    Running,
    /// Goodbye was initiated: no new ports; queued frames are still sent.
    GoodbyeSent,
    /// The transport is closed or lost.
    Terminated,
}

/// Why opening a port failed.
#[derive(Debug, Clone, Copy, PartialEq, Eq, Structural)]
pub enum OpenError {
    /// The connection is closing or closed.
    ConnectionClosed,
}

/// What the writer task does next.
#[derive(Debug, PartialEq, Eq)]
pub enum Outbound {
    /// Write this frame to the transport.
    Send(Frame),
    /// Every queued frame has been written after goodbye: close the transport.
    Close,
    /// Nothing to write now.
    Idle,
}

/// The views of queued frames.
pub open spec fn frame_views(q: Seq<Frame>) -> Seq<FrameView> {
    q.map_values(|f: Frame| f@)
}

/// Connection-level multiplexer state.
pub struct Connection {
    state: Lifecycle,
    outbound: VecDeque<Frame>,
    remote_ports: HashSet<u32>,
    max_ports: u32,
}

impl Connection {
    pub closed spec fn state(&self) -> Lifecycle {
        self.state
    }

    /// Frames waiting to be written, oldest first.
    pub closed spec fn queued(&self) -> Seq<FrameView> {
        frame_views(self.outbound@)
    }

    /// Ports that the peer opened and that are still open.
    pub closed spec fn remote_ports(&self) -> Set<u32> {
        self.remote_ports@
    }

    pub closed spec fn max_ports(&self) -> u32 {
        self.max_ports
    }

    /// At most `max_ports` remote ports; nothing queued once terminated.
    pub closed spec fn wf(&self) -> bool {
        &&& self.remote_ports@.finite()
        &&& self.remote_ports@.len() <= self.max_ports
        &&& self.state == Lifecycle::Terminated ==> self.outbound@.len() == 0
    }

    /// A running connection that admits at most `max_ports` remote ports.
    pub fn new(max_ports: u32) -> (r: Connection)
        ensures
            r.wf(),
            r.state() == Lifecycle::Running,
            r.queued() == Seq::<FrameView>::empty(),
            r.remote_ports() == Set::<u32>::empty(),
            r.max_ports() == max_ports,
    {
        let r = Connection {
            state: Lifecycle::Running,
            outbound: VecDeque::new(),
            remote_ports: HashSet::new(),
            max_ports,
        };
        assert(r.queued() =~= Seq::<FrameView>::empty());
        r
    }

    pub fn lifecycle(&self) -> (r: Lifecycle)
        ensures
            r == self.state(),
    {
        self.state
    }

    /// Number of frames waiting to be written.
    pub fn queued_len(&self) -> (r: usize)
        ensures
            r == self.queued().len(),
    {
        self.outbound.len()
    }

    fn push(&mut self, f: Frame)
        ensures
            final(self).queued() == old(self).queued().push(f@),
            final(self).state == old(self).state,
            final(self).remote_ports == old(self).remote_ports,
            final(self).max_ports == old(self).max_ports,
    {
        self.outbound.push_back(f);
        assert(frame_views(self.outbound@) =~= frame_views(old(self).outbound@).push(f@));
    }

    /// Queues a frame of an open port. Until the connection has terminated,
    /// frames are taken, also while goodbye drains the queue.
    pub fn queue(&mut self, f: Frame) -> (r: Result<(), SendErrorKind>)
        requires
            old(self).wf(),
        ensures
            final(self).wf(),
            final(self).state() == old(self).state(),
            final(self).remote_ports() == old(self).remote_ports(),
            final(self).max_ports() == old(self).max_ports(),
            r is Ok <==> old(self).state() != Lifecycle::Terminated,
            r is Ok ==> final(self).queued() == old(self).queued().push(f@),
            r is Err ==> r == Err::<(), SendErrorKind>(SendErrorKind::ConnectionClosed)
                && final(self).queued() == old(self).queued(),
    {
        if self.state == Lifecycle::Terminated {
            Err(SendErrorKind::ConnectionClosed)
        } else {
            self.push(f);
            Ok(())
        }
    }

    /// Queues a request to open a port; only a running connection opens
    /// ports.
    pub fn open(&mut self, request_id: u32, port: u32, user_id: Option<u32>, flags: u8) -> (r:
        Result<(), OpenError>)
        requires
            old(self).wf(),
        ensures
            final(self).wf(),
            final(self).state() == old(self).state(),
            final(self).remote_ports() == old(self).remote_ports(),
            final(self).max_ports() == old(self).max_ports(),
            r is Ok <==> old(self).state() == Lifecycle::Running,
            r is Ok ==> final(self).queued() == old(self).queued().push(
                FrameView::Open { request_id, port, user_id, flags },
            ),
            r is Err ==> r == Err::<(), OpenError>(OpenError::ConnectionClosed) && final(self).queued() == old(self).queued(),
    {
        if self.state == Lifecycle::Running {
            self.push(Frame::Open { request_id, port, user_id, flags });
            Ok(())
        } else {
            Err(OpenError::ConnectionClosed)
        }
    }

    /// Whether the peer may open a further port now.
    pub open spec fn admits(&self, port: u32) -> bool {
        &&& self.state() == Lifecycle::Running
        &&& self.remote_ports().len() < self.max_ports()
        &&& !self.remote_ports().contains(port)
    }

    /// Decides on a port opened by the peer: it is admitted while the
    /// connection runs, the port is new and fewer than `max_ports` are open.
    pub fn admit_remote(&mut self, port: u32) -> (admitted: bool)
        requires
            old(self).wf(),
        ensures
            final(self).wf(),
            final(self).state() == old(self).state(),
            final(self).queued() == old(self).queued(),
            final(self).max_ports() == old(self).max_ports(),
            admitted == old(self).admits(port),
            admitted ==> final(self).remote_ports() == old(self).remote_ports().insert(port),
            !admitted ==> final(self).remote_ports() == old(self).remote_ports(),
    {
        if self.state == Lifecycle::Running && self.remote_ports.len() < self.max_ports as usize
            && !self.remote_ports.contains(&port) {
            self.remote_ports.insert(port);
            true
        } else {
            false
        }
    }

    /// Frees the slot of a remote port whose two directions are closed.
    pub fn remove_remote(&mut self, port: u32)
        requires
            old(self).wf(),
        ensures
            final(self).wf(),
            final(self).state() == old(self).state(),
            final(self).queued() == old(self).queued(),
            final(self).max_ports() == old(self).max_ports(),
            final(self).remote_ports() == old(self).remote_ports().remove(port),
    {
        self.remote_ports.remove(&port);
    }

    /// Initiates goodbye: no further ports are opened, and a goodbye frame
    /// is queued behind every frame already waiting.
    pub fn goodbye(&mut self)
        requires
            old(self).wf(),
        ensures
            final(self).wf(),
            final(self).remote_ports() == old(self).remote_ports(),
            final(self).max_ports() == old(self).max_ports(),
            old(self).state() == Lifecycle::Running ==> final(self).state()
                == Lifecycle::GoodbyeSent && final(self).queued() == old(self).queued().push(
                FrameView::Goodbye,
            ),
            old(self).state() != Lifecycle::Running ==> final(self).state() == old(self).state()
                && final(self).queued() == old(self).queued(),
    {
        if self.state == Lifecycle::Running {
            self.push(Frame::Goodbye);
            self.state = Lifecycle::GoodbyeSent;
        }
    }

    /// The transport was lost: the connection terminates and every queued
    /// frame is dropped; later sends fail with `ConnectionClosed`.
    pub fn transport_lost(&mut self)
        requires
            old(self).wf(),
        ensures
            final(self).wf(),
            final(self).state() == Lifecycle::Terminated,
            final(self).queued() == Seq::<FrameView>::empty(),
            final(self).remote_ports() == old(self).remote_ports(),
            final(self).max_ports() == old(self).max_ports(),
    {
        self.outbound.clear();
        self.state = Lifecycle::Terminated;
        assert(self.queued() =~= Seq::<FrameView>::empty());
    }

    /// The writer's next step: the oldest queued frame; once goodbye was
    /// initiated and the queue is empty, closing the transport.
    pub fn next_outbound(&mut self) -> (r: Outbound)
        requires
            old(self).wf(),
        ensures
            final(self).wf(),
            final(self).remote_ports() == old(self).remote_ports(),
            final(self).max_ports() == old(self).max_ports(),
            old(self).queued().len() > 0 ==> (r matches Outbound::Send(f) && f@ == old(self).queued()[0] && final(self).queued() == old(self).queued().drop_first() && final(self).state() == old(self).state()),
            old(self).queued().len() == 0 && old(self).state() == Lifecycle::GoodbyeSent ==> (r
                == Outbound::Close && final(self).state() == Lifecycle::Terminated),
            old(self).queued().len() == 0 && old(self).state() != Lifecycle::GoodbyeSent ==> (r
                == Outbound::Idle && *final(self) == *old(self)),
            r == Outbound::Close ==> old(self).queued().len() == 0,
    {
        if self.outbound.len() > 0 {
            let ghost q = self.outbound@;
            match self.outbound.pop_front() {
                Some(f) => {
                    assert(frame_views(self.outbound@) =~= frame_views(q).drop_first());
                    Outbound::Send(f)
                },
                None => Outbound::Idle,
            }
        } else if self.state == Lifecycle::GoodbyeSent {
            self.state = Lifecycle::Terminated;
            Outbound::Close
        } else {
            Outbound::Idle
        }
    }
}

/// The peer's open ports never exceed `max_ports`, and a terminated
/// connection holds no queued frames.
pub proof fn lemma_connection_bounds(c: &Connection)
    requires
        c.wf(),
    ensures
        c.remote_ports().len() <= c.max_ports(),
        c.state() == Lifecycle::Terminated ==> c.queued().len() == 0,
{
}

} // verus!
