//! Wire protocol: the message vocabulary and the length-prefixed framing used
//! on every connection.
//!
//! A frame is a 4-byte big-endian unsigned length followed by exactly that
//! many payload bytes. The payload is one tag byte naming the variant,
//! followed by the variant's fields: `Data` carries its bytes verbatim,
//! `Resize` carries two big-endian 16-bit fields, `Detach` and `Shutdown`
//! carry nothing.
//!
//! Known gap, kept deliberately: the decoder puts no upper bound on a
//! declared length, so a malformed or adversarial peer can make a receiver
//! buffer up to four binary gigabytes before the payload is judged.

use vstd::prelude::*;

verus! {

/// Tag byte of a `Data` payload.
pub const TAG_DATA: u8 = 0;

/// Tag byte of a `Resize` payload.
pub const TAG_RESIZE: u8 = 1;

/// Tag byte of a `Detach` payload.
pub const TAG_DETACH: u8 = 2;

/// Tag byte of a `Shutdown` payload.
pub const TAG_SHUTDOWN: u8 = 3;

/// A message exchanged between a client and the session daemon.
#[derive(Debug, Clone, PartialEq, Eq)]
pub enum Message {
    /// Terminal I/O data, arbitrary binary, no text assumption.
    Data(Vec<u8>),
    /// Terminal resize notification.
    Resize { cols: u16, rows: u16 },
    /// The sending client wants to detach; the session is unaffected.
    Detach,
    /// Ask the session's child process to terminate.
    Shutdown,
}

/// Mathematical model of a `Message`: the payload bytes become a sequence.
pub enum MessageView {
    Data(Seq<u8>),
    Resize { cols: u16, rows: u16 },
    Detach,
    Shutdown,
}

impl View for Message {
    type V = MessageView;

    open spec fn view(&self) -> MessageView {
        match self {
            Message::Data(d) => MessageView::Data(d@),
            Message::Resize { cols, rows } => MessageView::Resize { cols: *cols, rows: *rows },
            Message::Detach => MessageView::Detach,
            Message::Shutdown => MessageView::Shutdown,
        }
    }
}

/// Why a frame could not be produced or consumed.
#[derive(Debug, Clone, PartialEq, Eq, Structural)]
pub enum CodecError {
    /// The payload would not fit behind a 32-bit length field.
    FrameTooLarge,
    /// The stream ended while a frame's length field or payload was still owed.
    Truncated,
    /// A complete payload was read but matches no known variant.
    Malformed,
}

/// The two bytes of `x` in big-endian order.
pub open spec fn spec_u16_be(x: u16) -> Seq<u8> {
    seq![(x >> 8) as u8, (x & 0xff) as u8]
}

/// The 16-bit value read from two big-endian bytes.
pub open spec fn spec_u16_from_be(s: Seq<u8>) -> u16
    recommends
        s.len() == 2,
{
    (((s[0] as u16) << 8) | (s[1] as u16)) as u16
}

/// The four bytes of `x` in big-endian order.
pub open spec fn spec_u32_be(x: u32) -> Seq<u8> {
    seq![
        (x >> 24) as u8,
        ((x >> 16) & 0xff) as u8,
        ((x >> 8) & 0xff) as u8,
        (x & 0xff) as u8,
    ]
}

/// The 32-bit value read from four big-endian bytes.
pub open spec fn spec_u32_from_be(s: Seq<u8>) -> u32
    recommends
        s.len() == 4,
{
    (((s[0] as u32) << 24) | ((s[1] as u32) << 16) | ((s[2] as u32) << 8) | (s[3] as u32)) as u32
}

/// Two big-endian bytes read back as the 16-bit value they were written from.
pub proof fn lemma_u16_be_roundtrip(x: u16)
    ensures
        spec_u16_be(x).len() == 2,
        spec_u16_from_be(spec_u16_be(x)) == x,
{
    let s = spec_u16_be(x);
    assert(((((x >> 8) as u8) as u16) << 8) | (((x & 0xff) as u8) as u16) == x) by (bit_vector);
    assert(spec_u16_from_be(s) == ((((x >> 8) as u8) as u16) << 8) | (((x & 0xff) as u8) as u16));
}

/// Four big-endian bytes read back as the 32-bit value they were written from.
pub proof fn lemma_u32_be_roundtrip(x: u32)
    ensures
        spec_u32_be(x).len() == 4,
        spec_u32_from_be(spec_u32_be(x)) == x,
{
    let s = spec_u32_be(x);
    assert(((((x >> 24) as u8) as u32) << 24) | (((((x >> 16) & 0xff) as u8) as u32) << 16) | (((((
    x >> 8) & 0xff) as u8) as u32) << 8) | (((x & 0xff) as u8) as u32) == x) by (bit_vector);
}

/// Serialized payload of a message: the tag byte, then the variant's fields.
pub open spec fn spec_payload(m: MessageView) -> Seq<u8> {
    match m {
        MessageView::Data(d) => seq![TAG_DATA] + d,
        MessageView::Resize { cols, rows } => seq![TAG_RESIZE] + spec_u16_be(cols) + spec_u16_be(
            rows,
        ),
        MessageView::Detach => seq![TAG_DETACH],
        MessageView::Shutdown => seq![TAG_SHUTDOWN],
    }
}

/// One complete frame: the payload's length as four big-endian bytes, then
/// the payload.
pub open spec fn spec_frame(m: MessageView) -> Seq<u8>
    recommends
        spec_payload(m).len() <= u32::MAX,
{
    spec_u32_be(spec_payload(m).len() as u32) + spec_payload(m)
}

/// What a complete payload means, if anything: the inverse of
/// `spec_payload`, `None` on bytes that match no variant.
pub open spec fn spec_parse_payload(p: Seq<u8>) -> Option<MessageView> {
    if p.len() == 0 {
        None
    } else if p[0] == TAG_DATA {
        Some(MessageView::Data(p.subrange(1, p.len() as int)))
    } else if p[0] == TAG_RESIZE {
        if p.len() == 5 {
            Some(
                MessageView::Resize {
                    cols: spec_u16_from_be(p.subrange(1, 3)),
                    rows: spec_u16_from_be(p.subrange(3, 5)),
                },
            )
        } else {
            None
        }
    } else if p[0] == TAG_DETACH {
        if p.len() == 1 {
            Some(MessageView::Detach)
        } else {
            None
        }
    } else if p[0] == TAG_SHUTDOWN {
        if p.len() == 1 {
            Some(MessageView::Shutdown)
        } else {
            None
        }
    } else {
        None
    }
}

/// What a prefix of the connection's byte stream holds: not yet a whole
/// frame, one whole frame and how many bytes it took, or garbage.
pub enum FrameModel {
    /// The length field, or the payload it promises, is not all there yet.
    NeedMore,
    /// A complete frame: the message and the count of bytes it occupied.
    Frame(MessageView, int),
    /// The declared payload is all there but matches no known variant.
    Malformed,
}

/// Decoding a buffered stream prefix: read the 4-byte big-endian length if
/// present, then the declared payload if present, then parse it.
pub open spec fn spec_decode_frame(b: Seq<u8>) -> FrameModel {
    if b.len() < 4 {
        FrameModel::NeedMore
    } else {
        let n = spec_u32_from_be(b.subrange(0, 4)) as int;
        if b.len() < 4 + n {
            FrameModel::NeedMore
        } else {
            match spec_parse_payload(b.subrange(4, 4 + n)) {
                Some(m) => FrameModel::Frame(m, 4 + n),
                None => FrameModel::Malformed,
            }
        }
    }
}

/// Append the two big-endian bytes of `x`.
fn push_u16_be(buf: &mut Vec<u8>, x: u16)
    ensures
        final(buf)@ == old(buf)@ + spec_u16_be(x),
{
    buf.push((x >> 8) as u8);
    buf.push((x & 0xff) as u8);
    assert(buf@ =~= old(buf)@ + spec_u16_be(x));
}

/// Append the four big-endian bytes of `x`.
fn push_u32_be(buf: &mut Vec<u8>, x: u32)
    ensures
        final(buf)@ == old(buf)@ + spec_u32_be(x),
{
    buf.push((x >> 24) as u8);
    buf.push(((x >> 16) & 0xff) as u8);
    buf.push(((x >> 8) & 0xff) as u8);
    buf.push((x & 0xff) as u8);
    assert(buf@ =~= old(buf)@ + spec_u32_be(x));
}

/// Append a copy of every byte of `src`.
fn push_bytes(buf: &mut Vec<u8>, src: &[u8])
    requires
        old(buf)@.len() + src@.len() <= usize::MAX,
    ensures
        final(buf)@ == old(buf)@ + src@,
{
    let mut i: usize = 0;
    while i < src.len()
        invariant
            i <= src@.len(),
            buf@ == old(buf)@ + src@.subrange(0, i as int),
            old(buf)@.len() + src@.len() <= usize::MAX,
        decreases src@.len() - i,
    {
        let b: u8 = src[i];
        buf.push(b);
        i = i + 1;
        assert(buf@ =~= old(buf)@ + src@.subrange(0, i as int));
    }
    assert(src@.subrange(0, src@.len() as int) =~= src@);
}

/// Encode one message as one complete frame.
///
/// Succeeds exactly when the payload fits behind the 32-bit length field;
/// a `Data` payload within four binary gigabytes always does.
pub fn encode(msg: &Message) -> (r: Result<Vec<u8>, CodecError>)
    ensures
        match r {
            Ok(f) => spec_payload(msg@).len() <= u32::MAX && f@ == spec_frame(msg@),
            Err(e) => spec_payload(msg@).len() > u32::MAX && e == CodecError::FrameTooLarge,
        },
{
    let mut payload: Vec<u8> = Vec::new();
    match msg {
        Message::Data(d) => {
            if d.len() > (u32::MAX - 1) as usize {
                return Err(CodecError::FrameTooLarge);
            }
            payload.push(TAG_DATA);
            push_bytes(&mut payload, d.as_slice());
            assert(payload@ =~= spec_payload(msg@));
        },
        Message::Resize { cols, rows } => {
            payload.push(TAG_RESIZE);
            push_u16_be(&mut payload, *cols);
            push_u16_be(&mut payload, *rows);
            assert(payload@ =~= spec_payload(msg@));
        },
        Message::Detach => {
            payload.push(TAG_DETACH);
            assert(payload@ =~= spec_payload(msg@));
        },
        Message::Shutdown => {
            payload.push(TAG_SHUTDOWN);
            assert(payload@ =~= spec_payload(msg@));
        },
    }
    let n: u32 = payload.len() as u32;
    let mut frame: Vec<u8> = Vec::new();
    push_u32_be(&mut frame, n);
    frame.append(&mut payload);
    assert(frame@ =~= spec_frame(msg@));
    Ok(frame)
}

/// Parse one complete payload into a message.
///
/// Returns the message the bytes spell, or `Malformed` exactly when they
/// spell none.
pub fn decode_payload(p: &[u8]) -> (r: Result<Message, CodecError>)
    ensures
        match r {
            Ok(m) => spec_parse_payload(p@) == Some(m@),
            Err(e) => spec_parse_payload(p@) is None && e == CodecError::Malformed,
        },
{
    if p.len() == 0 {
        return Err(CodecError::Malformed);
    }
    let tag: u8 = p[0];
    if tag == TAG_DATA {
        let mut d: Vec<u8> = Vec::new();
        let mut i: usize = 1;
        assert(d@ =~= p@.subrange(1, 1));
        while i < p.len()
            invariant
                1 <= i <= p@.len(),
                d@ == p@.subrange(1, i as int),
            decreases p@.len() - i,
        {
            let b: u8 = p[i];
            d.push(b);
            i = i + 1;
            assert(d@ =~= p@.subrange(1, i as int));
        }
        Ok(Message::Data(d))
    } else if tag == TAG_RESIZE {
        if p.len() != 5 {
            return Err(CodecError::Malformed);
        }
        let cols: u16 = ((p[1] as u16) << 8) | (p[2] as u16);
        let rows: u16 = ((p[3] as u16) << 8) | (p[4] as u16);
        assert(cols == spec_u16_from_be(p@.subrange(1, 3)));
        assert(rows == spec_u16_from_be(p@.subrange(3, 5)));
        Ok(Message::Resize { cols, rows })
    } else if tag == TAG_DETACH {
        if p.len() != 1 {
            return Err(CodecError::Malformed);
        }
        Ok(Message::Detach)
    } else if tag == TAG_SHUTDOWN {
        if p.len() != 1 {
            return Err(CodecError::Malformed);
        }
        Ok(Message::Shutdown)
    } else {
        Err(CodecError::Malformed)
    }
}

/// What the decoder found at the front of the buffered stream bytes.
#[derive(Debug, PartialEq, Eq)]
pub enum FrameOutcome {
    /// Keep the bytes and read more before trying again.
    NeedMore,
    /// One whole frame: the message and how many leading bytes it took.
    Frame(Message, usize),
    /// The declared payload arrived whole but spells no known variant.
    Malformed,
}

/// Try to take one frame off the front of the buffered stream bytes.
///
/// Never panics and never waits: a buffer that stops short of the length
/// field or of the declared payload yields `NeedMore`.
pub fn decode(buf: &[u8]) -> (r: FrameOutcome)
    ensures
        match r {
            FrameOutcome::NeedMore => spec_decode_frame(buf@) is NeedMore,
            FrameOutcome::Frame(m, c) => spec_decode_frame(buf@) == FrameModel::Frame(
                m@,
                c as int,
            ),
            FrameOutcome::Malformed => spec_decode_frame(buf@) is Malformed,
        },
{
    if buf.len() < 4 {
        return FrameOutcome::NeedMore;
    }
    let n32: u32 = ((buf[0] as u32) << 24) | ((buf[1] as u32) << 16) | ((buf[2] as u32) << 8) | (
    buf[3] as u32);
    assert(n32 == spec_u32_from_be(buf@.subrange(0, 4)));
    let n: usize = n32 as usize;
    if buf.len() - 4 < n {
        return FrameOutcome::NeedMore;
    }
    let payload: &[u8] = &buf[4..4 + n];
    match decode_payload(payload) {
        Ok(m) => FrameOutcome::Frame(m, 4 + n),
        Err(_) => FrameOutcome::Malformed,
    }
}

/// What the end of the stream means: clean only if no bytes are pending.
///
/// A connection that closes while the buffer still holds the start of a
/// frame ended inside that frame: the failure is `Truncated`, distinct from
/// `Malformed`.
pub fn stream_end_outcome(buf: &[u8]) -> (r: Result<(), CodecError>)
    ensures
        match r {
            Ok(u) => buf@.len() == 0,
            Err(e) => buf@.len() > 0 && e == CodecError::Truncated,
        },
{
    if buf.len() == 0 {
        Ok(())
    } else {
        Err(CodecError::Truncated)
    }
}

/// Every message's payload parses back to exactly that message.
pub proof fn lemma_payload_roundtrip(m: MessageView)
    ensures
        spec_parse_payload(spec_payload(m)) == Some(m),
{
    let p = spec_payload(m);
    match m {
        MessageView::Data(d) => {
            assert(p.subrange(1, p.len() as int) =~= d);
        },
        MessageView::Resize { cols, rows } => {
            lemma_u16_be_roundtrip(cols);
            lemma_u16_be_roundtrip(rows);
            assert(p.subrange(1, 3) =~= spec_u16_be(cols));
            assert(p.subrange(3, 5) =~= spec_u16_be(rows));
        },
        MessageView::Detach => {},
        MessageView::Shutdown => {},
    }
}

/// Protocol round-trip: a whole encoded frame decodes back to exactly the
/// message that was encoded, consuming exactly the frame's bytes.
pub proof fn lemma_frame_roundtrip(m: MessageView)
    requires
        spec_payload(m).len() <= u32::MAX,
    ensures
        spec_decode_frame(spec_frame(m)) == FrameModel::Frame(m, spec_frame(m).len() as int),
{
    let p = spec_payload(m);
    let f = spec_frame(m);
    lemma_u32_be_roundtrip(p.len() as u32);
    assert(f.subrange(0, 4) =~= spec_u32_be(p.len() as u32));
    assert(f.subrange(4, 4 + p.len() as int) =~= p);
    lemma_payload_roundtrip(m);
}

/// Framing locates message boundaries unambiguously: at the front of any
/// stream that starts with a whole frame, the decoder takes exactly that
/// frame and leaves whatever follows untouched — so back-to-back frames
/// decode one by one, each message intact and in sending order.
pub proof fn lemma_frames_compose(m: MessageView, rest: Seq<u8>)
    requires
        spec_payload(m).len() <= u32::MAX,
    ensures
        spec_decode_frame(spec_frame(m) + rest) == FrameModel::Frame(
            m,
            spec_frame(m).len() as int,
        ),
        (spec_frame(m) + rest).subrange(
            spec_frame(m).len() as int,
            (spec_frame(m) + rest).len() as int,
        ) == rest,
{
    let p = spec_payload(m);
    let f = spec_frame(m);
    let b = f + rest;
    lemma_u32_be_roundtrip(p.len() as u32);
    assert(b.subrange(0, 4) =~= spec_u32_be(p.len() as u32));
    assert(b.subrange(4, 4 + p.len() as int) =~= p);
    lemma_payload_roundtrip(m);
    assert(b.subrange(f.len() as int, b.len() as int) =~= rest);
}

/// The byte stream a handler sends for a sequence of published chunks:
/// each chunk framed as `Data`, back to back, in publication order.
pub open spec fn spec_data_stream(items: Seq<Seq<u8>>) -> Seq<u8>
    decreases items.len(),
{
    if items.len() == 0 {
        Seq::empty()
    } else {
        spec_frame(MessageView::Data(items[0])) + spec_data_stream(items.drop_first())
    }
}

/// Byte-order preservation across the wire: a client decoding a stream of
/// back-to-back `Data` frames recovers the chunks one frame at a time, in
/// order — the first frame yields exactly the first chunk, and the bytes
/// left over are exactly the stream of the remaining chunks.
pub proof fn lemma_data_stream_step(items: Seq<Seq<u8>>)
    requires
        items.len() > 0,
        items[0].len() + 1 <= u32::MAX,
    ensures
        ({
            let b = spec_data_stream(items);
            let f = spec_frame(MessageView::Data(items[0]));
            &&& spec_decode_frame(b) == FrameModel::Frame(
                MessageView::Data(items[0]),
                f.len() as int,
            )
            &&& b.subrange(f.len() as int, b.len() as int) == spec_data_stream(items.drop_first())
        }),
{
    lemma_frames_compose(MessageView::Data(items[0]), spec_data_stream(items.drop_first()));
}

/// Truncated-frame handling: a strict prefix of a frame is never mistaken
/// for a message and never rejected as garbage; the decoder reports that
/// bytes are still owed, whether the cut falls in the length field or in
/// the promised payload.
pub proof fn lemma_truncated_frame(m: MessageView, i: int)
    requires
        spec_payload(m).len() <= u32::MAX,
        0 <= i < spec_frame(m).len(),
    ensures
        spec_decode_frame(spec_frame(m).subrange(0, i)) is NeedMore,
{
    let p = spec_payload(m);
    let f = spec_frame(m);
    let b = f.subrange(0, i);
    if i >= 4 {
        assert(b.subrange(0, 4) =~= spec_u32_be(p.len() as u32));
        lemma_u32_be_roundtrip(p.len() as u32);
    }
}

} // verus!
