//! The multiplexer's frames and their encoding.
//!
//! A frame is one tag byte followed by its payload. Integers are four bytes,
//! least significant first. Frames arrive already delimited by the
//! transport, so the bytes of a data frame run to its end.
use vstd::prelude::*;

verus! {

/// Tag byte of each frame kind.
pub const TAG_OPEN: u8 = 1;
pub const TAG_OPENED: u8 = 2;
pub const TAG_REJECTED: u8 = 3;
pub const TAG_DATA: u8 = 4;
pub const TAG_PORT_DATA: u8 = 5;
pub const TAG_CREDIT: u8 = 6;
pub const TAG_HANGUP: u8 = 7;
pub const TAG_GOODBYE: u8 = 8;
pub const TAG_PING: u8 = 9;
pub const TAG_PONG: u8 = 10;
pub const TAG_BACKCHANNEL: u8 = 11;

/// Which direction of a port a hangup closes.
#[derive(Debug, Clone, Copy, PartialEq, Eq, Structural)]
pub enum Direction {
    Send,
    Receive,
}

/// A multiplexer frame.
#[derive(Debug, PartialEq, Eq)]
pub enum Frame {
    /// Request to open a port.
    Open { request_id: u32, port: u32, user_id: Option<u32>, flags: u8 },
    /// The peer accepted an open request.
    Opened { request_id: u32, port: u32, credits: u32 },
    /// The peer refused an open request.
    Rejected { request_id: u32, reason: u8 },
    /// A chunk of port data.
    Data { port: u32, data: Vec<u8> },
    /// The serialized set of ports sent along with port data.
    PortData { port: u32, data: Vec<u8> },
    /// A credit grant.
    Credit { port: u32, credits: u32 },
    /// One direction of a port was closed.
    Hangup { port: u32, direction: Direction },
    /// The connection is being closed.
    Goodbye,
    /// Keepalive request.
    Ping { nonce: u32 },
    /// Keepalive answer.
    Pong { nonce: u32 },
    /// An out-of-band byte for a port.
    Backchannel { port: u32, byte: u8 },
}

/// A frame as a mathematical value.
pub enum FrameView {
    Open { request_id: u32, port: u32, user_id: Option<u32>, flags: u8 },
    Opened { request_id: u32, port: u32, credits: u32 },
    Rejected { request_id: u32, reason: u8 },
    Data { port: u32, data: Seq<u8> },
    PortData { port: u32, data: Seq<u8> },
    Credit { port: u32, credits: u32 },
    Hangup { port: u32, direction: Direction },
    Goodbye,
    Ping { nonce: u32 },
    Pong { nonce: u32 },
    Backchannel { port: u32, byte: u8 },
}

impl View for Frame {
    type V = FrameView;

    open spec fn view(&self) -> FrameView {
        match self {
            Frame::Open { request_id, port, user_id, flags } => FrameView::Open {
                request_id: *request_id,
                port: *port,
                user_id: *user_id,
                flags: *flags,
            },
            Frame::Opened { request_id, port, credits } => FrameView::Opened {
                request_id: *request_id,
                port: *port,
                credits: *credits,
            },
            Frame::Rejected { request_id, reason } => FrameView::Rejected {
                request_id: *request_id,
                reason: *reason,
            },
            Frame::Data { port, data } => FrameView::Data { port: *port, data: data@ },
            Frame::PortData { port, data } => FrameView::PortData { port: *port, data: data@ },
            Frame::Credit { port, credits } => FrameView::Credit { port: *port, credits: *credits },
            Frame::Hangup { port, direction } => FrameView::Hangup {
                port: *port,
                direction: *direction,
            },
            Frame::Goodbye => FrameView::Goodbye,
            Frame::Ping { nonce } => FrameView::Ping { nonce: *nonce },
            Frame::Pong { nonce } => FrameView::Pong { nonce: *nonce },
            Frame::Backchannel { port, byte } => FrameView::Backchannel {
                port: *port,
                byte: *byte,
            },
        }
    }
}

/// Why bytes are not a frame. Each is a fatal protocol error.
#[derive(Debug, Clone, Copy, PartialEq, Eq, Structural)]
pub enum FrameError {
    /// No bytes at all.
    Empty,
    /// The tag byte names no frame kind.
    UnknownTag(u8),
    /// The frame is shorter or longer than its kind requires.
    BadLength,
    /// A field holds a value its kind does not allow.
    BadField,
}

/// The four bytes of `x`, least significant first.
pub open spec fn le32(x: u32) -> Seq<u8> {
    seq![(x & 0xff) as u8, ((x >> 8) & 0xff) as u8, ((x >> 16) & 0xff) as u8, (x >> 24) as u8]
}

/// The integer held in the four bytes of `b` from `i` on, least
/// significant first.
pub open spec fn read32(b: Seq<u8>, i: int) -> u32 {
    (b[i] as u32) | ((b[i + 1] as u32) << 8u32) | ((b[i + 2] as u32) << 16u32) | ((
    b[i + 3] as u32) << 24u32)
}

pub open spec fn direction_byte(d: Direction) -> u8 {
    match d {
        Direction::Send => 0,
        Direction::Receive => 1,
    }
}

/// The encoding of a frame.
pub open spec fn frame_bytes(f: FrameView) -> Seq<u8> {
    match f {
        FrameView::Open { request_id, port, user_id, flags } => match user_id {
            Some(u) => seq![TAG_OPEN] + le32(request_id) + le32(port) + seq![flags, 1u8] + le32(u),
            None => seq![TAG_OPEN] + le32(request_id) + le32(port) + seq![flags, 0u8],
        },
        FrameView::Opened { request_id, port, credits } => seq![TAG_OPENED] + le32(request_id)
            + le32(port) + le32(credits),
        FrameView::Rejected { request_id, reason } => seq![TAG_REJECTED] + le32(request_id)
            + seq![reason],
        FrameView::Data { port, data } => seq![TAG_DATA] + le32(port) + data,
        FrameView::PortData { port, data } => seq![TAG_PORT_DATA] + le32(port) + data,
        FrameView::Credit { port, credits } => seq![TAG_CREDIT] + le32(port) + le32(credits),
        FrameView::Hangup { port, direction } => seq![TAG_HANGUP] + le32(port) + seq![
            direction_byte(direction),
        ],
        FrameView::Goodbye => seq![TAG_GOODBYE],
        FrameView::Ping { nonce } => seq![TAG_PING] + le32(nonce),
        FrameView::Pong { nonce } => seq![TAG_PONG] + le32(nonce),
        FrameView::Backchannel { port, byte } => seq![TAG_BACKCHANNEL] + le32(port) + seq![byte],
    }
}

/// The frame whose encoding `b` is, field by field; used to show that the
/// encoding is injective.
spec fn parse(b: Seq<u8>) -> Result<FrameView, FrameError> {
    let n = b.len();
    if n == 0 {
        Err(FrameError::Empty)
    } else {
        let tag = b[0];
        if tag == TAG_OPEN {
            if n == 11 && b[10] == 0 {
                Ok(
                    FrameView::Open {
                        request_id: read32(b, 1),
                        port: read32(b, 5),
                        user_id: None,
                        flags: b[9],
                    },
                )
            } else if n == 15 && b[10] == 1 {
                Ok(
                    FrameView::Open {
                        request_id: read32(b, 1),
                        port: read32(b, 5),
                        user_id: Some(read32(b, 11)),
                        flags: b[9],
                    },
                )
            } else if n == 11 || n == 15 {
                Err(FrameError::BadField)
            } else {
                Err(FrameError::BadLength)
            }
        } else if tag == TAG_OPENED {
            if n == 13 {
                Ok(
                    FrameView::Opened {
                        request_id: read32(b, 1),
                        port: read32(b, 5),
                        credits: read32(b, 9),
                    },
                )
            } else {
                Err(FrameError::BadLength)
            }
        } else if tag == TAG_REJECTED {
            if n == 6 {
                Ok(FrameView::Rejected { request_id: read32(b, 1), reason: b[5] })
            } else {
                Err(FrameError::BadLength)
            }
        } else if tag == TAG_DATA {
            if n >= 5 {
                Ok(FrameView::Data { port: read32(b, 1), data: b.subrange(5, n as int) })
            } else {
                Err(FrameError::BadLength)
            }
        } else if tag == TAG_PORT_DATA {
            if n >= 5 {
                Ok(FrameView::PortData { port: read32(b, 1), data: b.subrange(5, n as int) })
            } else {
                Err(FrameError::BadLength)
            }
        } else if tag == TAG_CREDIT {
            if n == 9 {
                Ok(FrameView::Credit { port: read32(b, 1), credits: read32(b, 5) })
            } else {
                Err(FrameError::BadLength)
            }
        } else if tag == TAG_HANGUP {
            if n != 6 {
                Err(FrameError::BadLength)
            } else if b[5] == 0 {
                Ok(FrameView::Hangup { port: read32(b, 1), direction: Direction::Send })
            } else if b[5] == 1 {
                Ok(FrameView::Hangup { port: read32(b, 1), direction: Direction::Receive })
            } else {
                Err(FrameError::BadField)
            }
        } else if tag == TAG_GOODBYE {
            if n == 1 {
                Ok(FrameView::Goodbye)
            } else {
                Err(FrameError::BadLength)
            }
        } else if tag == TAG_PING || tag == TAG_PONG {
            if n != 5 {
                Err(FrameError::BadLength)
            } else if tag == TAG_PING {
                Ok(FrameView::Ping { nonce: read32(b, 1) })
            } else {
                Ok(FrameView::Pong { nonce: read32(b, 1) })
            }
        } else if tag == TAG_BACKCHANNEL {
            if n == 6 {
                Ok(FrameView::Backchannel { port: read32(b, 1), byte: b[5] })
            } else {
                Err(FrameError::BadLength)
            }
        } else {
            Err(FrameError::UnknownTag(tag))
        }
    }
}

/// Reading back the four bytes of an integer gives the integer.
proof fn lemma_le32_round_trip(x: u32)
    ensures
        ((((x & 0xff) as u8) as u32) | (((((x >> 8) & 0xff) as u8) as u32) << 8u32) | (((((x
            >> 16) & 0xff) as u8) as u32) << 16u32) | ((((x >> 24) as u8) as u32) << 24u32)) == x,
{
    assert(((((x & 0xff) as u8) as u32) | (((((x >> 8) & 0xff) as u8) as u32) << 8u32) | (((((x
        >> 16) & 0xff) as u8) as u32) << 16u32) | ((((x >> 24) as u8) as u32) << 24u32)) == x)
        by (bit_vector);
}

proof fn lemma_read32_le32(b: Seq<u8>, i: int, x: u32)
    requires
        0 <= i,
        i + 4 <= b.len(),
        b.subrange(i, i + 4) == le32(x),
    ensures
        read32(b, i) == x,
{
    assert(b[i] == le32(x)[0]);
    assert(b[i + 1] == le32(x)[1]);
    assert(b[i + 2] == le32(x)[2]);
    assert(b[i + 3] == le32(x)[3]);
    lemma_le32_round_trip(x);
}

/// Reading the fields back out of the encoding of `f` yields `f`.
#[verifier::spinoff_prover]
#[verifier::rlimit(50)]
proof fn lemma_parse_frame_bytes(f: FrameView)
    ensures
        parse(frame_bytes(f)) == Ok::<FrameView, FrameError>(f),
{
    let b = frame_bytes(f);
    match f {
        FrameView::Open { request_id, port, user_id, flags } => {
            assert(b.subrange(1, 5) =~= le32(request_id));
            assert(b.subrange(5, 9) =~= le32(port));
            lemma_read32_le32(b, 1, request_id);
            lemma_read32_le32(b, 5, port);
            if let Some(u) = user_id {
                assert(b.subrange(11, 15) =~= le32(u));
                lemma_read32_le32(b, 11, u);
            }
        },
        FrameView::Opened { request_id, port, credits } => {
            assert(b.subrange(1, 5) =~= le32(request_id));
            assert(b.subrange(5, 9) =~= le32(port));
            assert(b.subrange(9, 13) =~= le32(credits));
            lemma_read32_le32(b, 1, request_id);
            lemma_read32_le32(b, 5, port);
            lemma_read32_le32(b, 9, credits);
        },
        FrameView::Rejected { request_id, reason } => {
            assert(b.subrange(1, 5) =~= le32(request_id));
            lemma_read32_le32(b, 1, request_id);
        },
        FrameView::Data { port, data } => {
            assert(b.subrange(1, 5) =~= le32(port));
            lemma_read32_le32(b, 1, port);
            assert(b.subrange(5, b.len() as int) =~= data);
        },
        FrameView::PortData { port, data } => {
            assert(b.subrange(1, 5) =~= le32(port));
            lemma_read32_le32(b, 1, port);
            assert(b.subrange(5, b.len() as int) =~= data);
        },
        FrameView::Credit { port, credits } => {
            assert(b.subrange(1, 5) =~= le32(port));
            assert(b.subrange(5, 9) =~= le32(credits));
            lemma_read32_le32(b, 1, port);
            lemma_read32_le32(b, 5, credits);
        },
        FrameView::Hangup { port, direction } => {
            assert(b.subrange(1, 5) =~= le32(port));
            lemma_read32_le32(b, 1, port);
        },
        FrameView::Goodbye => {},
        FrameView::Ping { nonce } => {
            assert(b.subrange(1, 5) =~= le32(nonce));
            lemma_read32_le32(b, 1, nonce);
        },
        FrameView::Pong { nonce } => {
            assert(b.subrange(1, 5) =~= le32(nonce));
            lemma_read32_le32(b, 1, nonce);
        },
        FrameView::Backchannel { port, byte } => {
            assert(b.subrange(1, 5) =~= le32(port));
            lemma_read32_le32(b, 1, port);
        },
    }
}

/// Appends the four bytes of `x` to `out`.
fn push_u32(out: &mut Vec<u8>, x: u32)
    ensures
        final(out)@ == old(out)@ + le32(x),
{
    out.push((x & 0xff) as u8);
    out.push(((x >> 8) & 0xff) as u8);
    out.push(((x >> 16) & 0xff) as u8);
    out.push((x >> 24) as u8);
    assert(final(out)@ =~= old(out)@ + le32(x));
}

/// Appends all of `data` to `out`.
fn push_bytes(out: &mut Vec<u8>, data: &Vec<u8>)
    ensures
        final(out)@ == old(out)@ + data@,
{
    let mut i: usize = 0;
    while i < data.len()
        invariant
            i <= data@.len(),
            out@ == old(out)@ + data@.subrange(0, i as int),
        decreases data@.len() - i,
    {
        out.push(data[i]);
        i = i + 1;
        assert(out@ =~= old(out)@ + data@.subrange(0, i as int));
    }
    assert(data@.subrange(0, i as int) =~= data@);
}

/// The integer in the four bytes of `b` from `i` on.
fn get_u32(b: &[u8], i: usize) -> (r: u32)
    requires
        i + 4 <= b@.len(),
    ensures
        r == read32(b@, i as int),
{
    (b[i] as u32) | ((b[i + 1] as u32) << 8u32) | ((b[i + 2] as u32) << 16u32) | ((
    b[i + 3] as u32) << 24u32)
}

/// Encodes a frame.
pub fn encode(f: &Frame) -> (r: Vec<u8>)
    ensures
        r@ == frame_bytes(f@),
{
    let mut out: Vec<u8> = Vec::new();
    match f {
        Frame::Open { request_id, port, user_id, flags } => {
            out.push(TAG_OPEN);
            push_u32(&mut out, *request_id);
            push_u32(&mut out, *port);
            out.push(*flags);
            match user_id {
                Some(u) => {
                    out.push(1);
                    push_u32(&mut out, *u);
                },
                None => {
                    out.push(0);
                },
            }
        },
        Frame::Opened { request_id, port, credits } => {
            out.push(TAG_OPENED);
            push_u32(&mut out, *request_id);
            push_u32(&mut out, *port);
            push_u32(&mut out, *credits);
        },
        Frame::Rejected { request_id, reason } => {
            out.push(TAG_REJECTED);
            push_u32(&mut out, *request_id);
            out.push(*reason);
        },
        Frame::Data { port, data } => {
            out.push(TAG_DATA);
            push_u32(&mut out, *port);
            push_bytes(&mut out, data);
        },
        Frame::PortData { port, data } => {
            out.push(TAG_PORT_DATA);
            push_u32(&mut out, *port);
            push_bytes(&mut out, data);
        },
        Frame::Credit { port, credits } => {
            out.push(TAG_CREDIT);
            push_u32(&mut out, *port);
            push_u32(&mut out, *credits);
        },
        Frame::Hangup { port, direction } => {
            out.push(TAG_HANGUP);
            push_u32(&mut out, *port);
            match direction {
                Direction::Send => out.push(0),
                Direction::Receive => out.push(1),
            }
        },
        Frame::Goodbye => {
            out.push(TAG_GOODBYE);
        },
        Frame::Ping { nonce } => {
            out.push(TAG_PING);
            push_u32(&mut out, *nonce);
        },
        Frame::Pong { nonce } => {
            out.push(TAG_PONG);
            push_u32(&mut out, *nonce);
        },
        Frame::Backchannel { port, byte } => {
            out.push(TAG_BACKCHANNEL);
            push_u32(&mut out, *port);
            out.push(*byte);
        },
    }
    assert(out@ =~= frame_bytes(f@));
    out
}

/// Copies the bytes of `b` from `start` on.
fn tail_bytes(b: &[u8], start: usize) -> (r: Vec<u8>)
    requires
        start <= b@.len(),
    ensures
        r@ == b@.subrange(start as int, b@.len() as int),
{
    let mut out: Vec<u8> = Vec::new();
    let mut i: usize = start;
    while i < b.len()
        invariant
            start <= i <= b@.len(),
            out@ == b@.subrange(start as int, i as int),
        decreases b@.len() - i,
    {
        out.push(b[i]);
        i = i + 1;
        assert(out@ =~= b@.subrange(start as int, i as int));
    }
    out
}

/// Writing the four bytes read at `i` gives those bytes back.
proof fn lemma_le32_read32(b: Seq<u8>, i: int)
    requires
        0 <= i,
        i + 4 <= b.len(),
    ensures
        le32(read32(b, i)) == b.subrange(i, i + 4),
{
    let b0 = b[i];
    let b1 = b[i + 1];
    let b2 = b[i + 2];
    let b3 = b[i + 3];
    let x = read32(b, i);
    assert(x == (b0 as u32) | ((b1 as u32) << 8u32) | ((b2 as u32) << 16u32) | ((b3 as u32)
        << 24u32));
    assert(((x & 0xff) as u8) == b0 && (((x >> 8) & 0xff) as u8) == b1 && (((x >> 16) & 0xff)
        as u8) == b2 && ((x >> 24) as u8) == b3) by (bit_vector)
        requires
            x == (b0 as u32) | ((b1 as u32) << 8u32) | ((b2 as u32) << 16u32) | ((b3 as u32)
                << 24u32),
    ;
    assert(le32(x) =~= b.subrange(i, i + 4));
}

/// What `parse` reads out of bytes is encoded as those very bytes.
#[verifier::spinoff_prover]
#[verifier::rlimit(50)]
proof fn lemma_parse_sound(b: Seq<u8>)
    ensures
        parse(b) matches Ok(v) ==> frame_bytes(v) == b,
{
    if parse(b) is Ok {
        let n = b.len();
        if n >= 5 {
            lemma_le32_read32(b, 1);
        }
        if b[0] == TAG_OPEN || b[0] == TAG_OPENED || b[0] == TAG_CREDIT {
            lemma_le32_read32(b, 5);
        }
        if b[0] == TAG_OPEN && n == 15 {
            lemma_le32_read32(b, 11);
        }
        if b[0] == TAG_OPENED {
            lemma_le32_read32(b, 9);
        }
        assert(frame_bytes(parse(b)->Ok_0) =~= b);
    }
}

/// Different frames have different encodings.
pub proof fn lemma_frame_bytes_injective(f: FrameView, g: FrameView)
    requires
        frame_bytes(f) == frame_bytes(g),
    ensures
        f == g,
{
    lemma_parse_frame_bytes(f);
    lemma_parse_frame_bytes(g);
}

/// Whether `n` bytes is a length that frames with tag `tag` can have.
pub open spec fn length_fits(tag: u8, n: nat) -> bool {
    if tag == TAG_OPEN {
        n == 11 || n == 15
    } else if tag == TAG_OPENED {
        n == 13
    } else if tag == TAG_REJECTED || tag == TAG_HANGUP || tag == TAG_BACKCHANNEL {
        n == 6
    } else if tag == TAG_DATA || tag == TAG_PORT_DATA {
        n >= 5
    } else if tag == TAG_CREDIT {
        n == 9
    } else if tag == TAG_GOODBYE {
        n == 1
    } else {
        n == 5
    }
}

/// Decodes the bytes of one frame: the frame whose encoding they are, or an
/// error when they are the encoding of none.
pub fn decode(b: &[u8]) -> (r: Result<Frame, FrameError>)
    ensures
        r matches Ok(f) ==> frame_bytes(f@) == b@,
        r is Err <==> forall|g: FrameView| #[trigger] frame_bytes(g) != b@,
        b@.len() == 0 ==> r == Err::<Frame, FrameError>(FrameError::Empty),
        b@.len() > 0 && !(TAG_OPEN <= b@[0] <= TAG_BACKCHANNEL) ==> r == Err::<Frame, FrameError>(
            FrameError::UnknownTag(b@[0]),
        ),
        r is Err && b@.len() > 0 && TAG_OPEN <= b@[0] <= TAG_BACKCHANNEL ==> r == Err::<
            Frame,
            FrameError,
        >(
            if length_fits(b@[0], b@.len()) {
                FrameError::BadField
            } else {
                FrameError::BadLength
            },
        ),
{
    let r = decode_fields(b);
    proof {
        lemma_parse_sound(b@);
        if r is Err {
            assert forall|g: FrameView| #[trigger] frame_bytes(g) != b@ by {
                lemma_parse_frame_bytes(g);
            }
        } else {
            assert(frame_bytes(r->Ok_0@) == b@);
        }
    }
    r
}

/// Reads a frame's fields out of its bytes.
fn decode_fields(b: &[u8]) -> (r: Result<Frame, FrameError>)
    ensures
        r matches Ok(f) ==> parse(b@) == Ok::<FrameView, FrameError>(f@),
        r matches Err(e) ==> parse(b@) == Err::<FrameView, FrameError>(e),
{
    let n = b.len();
    if n == 0 {
        return Err(FrameError::Empty);
    }
    let tag = b[0];
    if tag == TAG_OPEN {
        if n == 11 && b[10] == 0 {
            Ok(Frame::Open { request_id: get_u32(b, 1), port: get_u32(b, 5), user_id: None, flags: b[9] })
        } else if n == 15 && b[10] == 1 {
            Ok(
                Frame::Open {
                    request_id: get_u32(b, 1),
                    port: get_u32(b, 5),
                    user_id: Some(get_u32(b, 11)),
                    flags: b[9],
                },
            )
        } else if n == 11 || n == 15 {
            Err(FrameError::BadField)
        } else {
            Err(FrameError::BadLength)
        }
    } else if tag == TAG_OPENED {
        if n == 13 {
            Ok(Frame::Opened { request_id: get_u32(b, 1), port: get_u32(b, 5), credits: get_u32(b, 9) })
        } else {
            Err(FrameError::BadLength)
        }
    } else if tag == TAG_REJECTED {
        if n == 6 {
            Ok(Frame::Rejected { request_id: get_u32(b, 1), reason: b[5] })
        } else {
            Err(FrameError::BadLength)
        }
    } else if tag == TAG_DATA {
        if n >= 5 {
            Ok(Frame::Data { port: get_u32(b, 1), data: tail_bytes(b, 5) })
        } else {
            Err(FrameError::BadLength)
        }
    } else if tag == TAG_PORT_DATA {
        if n >= 5 {
            Ok(Frame::PortData { port: get_u32(b, 1), data: tail_bytes(b, 5) })
        } else {
            Err(FrameError::BadLength)
        }
    } else if tag == TAG_CREDIT {
        if n == 9 {
            Ok(Frame::Credit { port: get_u32(b, 1), credits: get_u32(b, 5) })
        } else {
            Err(FrameError::BadLength)
        }
    } else if tag == TAG_HANGUP {
        if n != 6 {
            Err(FrameError::BadLength)
        } else if b[5] == 0 {
            Ok(Frame::Hangup { port: get_u32(b, 1), direction: Direction::Send })
        } else if b[5] == 1 {
            Ok(Frame::Hangup { port: get_u32(b, 1), direction: Direction::Receive })
        } else {
            Err(FrameError::BadField)
        }
    } else if tag == TAG_GOODBYE {
        if n == 1 {
            Ok(Frame::Goodbye)
        } else {
            Err(FrameError::BadLength)
        }
    } else if tag == TAG_PING || tag == TAG_PONG {
        if n != 5 {
            Err(FrameError::BadLength)
        } else if tag == TAG_PING {
            Ok(Frame::Ping { nonce: get_u32(b, 1) })
        } else {
            Ok(Frame::Pong { nonce: get_u32(b, 1) })
        }
    } else if tag == TAG_BACKCHANNEL {
        if n == 6 {
            Ok(Frame::Backchannel { port: get_u32(b, 1), byte: b[5] })
        } else {
            Err(FrameError::BadLength)
        }
    } else {
        Err(FrameError::UnknownTag(tag))
    }
}

} // verus!
