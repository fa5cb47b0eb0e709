//! The framing layer: each message travels as a 4-byte big-endian length
//! prefix followed by that many payload bytes. The decoder works on bytes
//! fed in arbitrary chunks, yields complete payloads in order, rejects a
//! frame whose announced length exceeds the maximum before touching its
//! payload, and hands back the buffered residue on release.
use vstd::prelude::*;

use crate::msg::{
    decode_client_msg, decode_server_msg, encode_client_msg, encode_server_msg, client_msg_bytes,
    parse_client_msg, parse_server_msg, server_msg_bytes, ClientMessage, ClientMsgView, Error,
    ServerMessage, ServerMsgView,
};
use crate::wire::{lemma_u32_roundtrip, u32_bytes, u32_from_bytes, u32_of_bytes, u32_to_vec};
use crate::MAX_FRAME_LEN;

verus! {

/// A frame on the wire: the payload length as four big-endian bytes, then
/// the payload.
pub open spec fn frame_bytes(p: Seq<u8>) -> Seq<u8> {
    u32_bytes(p.len() as u32) + p
}

/// The whole byte stream that carries these payloads in order.
pub open spec fn stream_bytes(ps: Seq<Seq<u8>>) -> Seq<u8>
    decreases ps.len(),
{
    if ps.len() == 0 {
        Seq::empty()
    } else {
        frame_bytes(ps[0]) + stream_bytes(ps.skip(1))
    }
}

/// The payloads a complete byte stream carries, in order, or nothing if the
/// stream is cut short or announces an oversized frame.
pub open spec fn parse_frames(b: Seq<u8>) -> Option<Seq<Seq<u8>>>
    decreases b.len(),
{
    if b.len() == 0 {
        Some(Seq::empty())
    } else if b.len() < 4 {
        None
    } else {
        let n = u32_of_bytes(b[0], b[1], b[2], b[3]) as int;
        if n > MAX_FRAME_LEN {
            None
        } else if b.len() < 4 + n {
            None
        } else {
            match parse_frames(b.skip(4 + n)) {
                Some(rest) => Some(seq![b.subrange(4, 4 + n)] + rest),
                None => None,
            }
        }
    }
}

/// Parsing a stream that starts with one well-formed frame: the head
/// payload is recovered and the remainder of the stream follows it.
proof fn lemma_parse_head(p: Seq<u8>, rest: Seq<u8>)
    requires
        p.len() <= MAX_FRAME_LEN,
    ensures
        (frame_bytes(p) + rest).len() >= 4 + p.len(),
        u32_of_bytes(
            (frame_bytes(p) + rest)[0],
            (frame_bytes(p) + rest)[1],
            (frame_bytes(p) + rest)[2],
            (frame_bytes(p) + rest)[3],
        ) as int == p.len(),
        (frame_bytes(p) + rest).subrange(4, 4 + p.len() as int) == p,
        (frame_bytes(p) + rest).skip(4 + p.len() as int) == rest,
{
    let b = frame_bytes(p) + rest;
    let hb = u32_bytes(p.len() as u32);
    assert(hb.len() == 4);
    assert(b[0] == hb[0] && b[1] == hb[1] && b[2] == hb[2] && b[3] == hb[3]);
    lemma_u32_roundtrip(p.len() as u32);
    assert(b.subrange(4, 4 + p.len() as int) =~= p);
    assert(b.skip(4 + p.len() as int) =~= rest);
}

/// Frame integrity: a stream that carries any sequence of payloads, each
/// within the maximum frame length, parses back to exactly that sequence,
/// in order.
pub proof fn lemma_frame_integrity(ps: Seq<Seq<u8>>)
    requires
        forall|i: int| 0 <= i < ps.len() ==> #[trigger] ps[i].len() <= MAX_FRAME_LEN,
    ensures
        parse_frames(stream_bytes(ps)) == Some(ps),
    decreases ps.len(),
{
    if ps.len() == 0 {
        assert(stream_bytes(ps).len() == 0);
    } else {
        let head = ps[0];
        let rest = ps.skip(1);
        let srest = stream_bytes(rest);
        let b = stream_bytes(ps);
        assert(b == frame_bytes(head) + srest);
        assert(head.len() <= MAX_FRAME_LEN);
        lemma_parse_head(head, srest);
        assert(forall|i: int| 0 <= i < rest.len() ==> #[trigger] rest[i].len() <= MAX_FRAME_LEN);
        lemma_frame_integrity(rest);
        let n = u32_of_bytes(b[0], b[1], b[2], b[3]) as int;
        assert(parse_frames(b) == Some(seq![head] + ps.skip(1)));
        assert(seq![head] + ps.skip(1) =~= ps);
    }
}

/// The encoded payloads of a sequence of client messages.
pub open spec fn client_payloads(ms: Seq<ClientMsgView>) -> Seq<Seq<u8>> {
    ms.map_values(|m: ClientMsgView| client_msg_bytes(m))
}

/// Frame integrity, at the message level: for any sequence of sent client
/// messages whose encodings fit in a frame, the byte stream of their
/// frames parses back to exactly their payloads, in order, and each
/// payload decodes to the message that produced it.
pub proof fn lemma_client_stream_integrity(ms: Seq<ClientMsgView>)
    requires
        forall|i: int|
            0 <= i < ms.len() ==> #[trigger] client_msg_bytes(ms[i]).len() <= MAX_FRAME_LEN,
    ensures
        parse_frames(stream_bytes(client_payloads(ms))) == Some(client_payloads(ms)),
        forall|i: int|
            0 <= i < ms.len() ==> #[trigger] parse_client_msg(client_payloads(ms)[i]) == Ok::<
                ClientMsgView,
                Error,
            >(ms[i]),
{
    let ps = client_payloads(ms);
    assert(forall|i: int| 0 <= i < ps.len() ==> #[trigger] ps[i].len() <= MAX_FRAME_LEN);
    lemma_frame_integrity(ps);
    assert forall|i: int| 0 <= i < ms.len() implies #[trigger] parse_client_msg(ps[i]) == Ok::<
        ClientMsgView,
        Error,
    >(ms[i]) by {
        crate::msg::lemma_client_msg_roundtrip(ms[i]);
    }
}

/// The encoded payloads of a sequence of server messages.
pub open spec fn server_payloads(ms: Seq<ServerMsgView>) -> Seq<Seq<u8>> {
    ms.map_values(|m: ServerMsgView| server_msg_bytes(m))
}

/// Frame integrity for the server-to-client direction, as
/// `lemma_client_stream_integrity` states it for the other.
pub proof fn lemma_server_stream_integrity(ms: Seq<ServerMsgView>)
    requires
        forall|i: int|
            0 <= i < ms.len() ==> #[trigger] server_msg_bytes(ms[i]).len() <= MAX_FRAME_LEN,
    ensures
        parse_frames(stream_bytes(server_payloads(ms))) == Some(server_payloads(ms)),
        forall|i: int|
            0 <= i < ms.len() ==> #[trigger] parse_server_msg(server_payloads(ms)[i]) == Ok::<
                ServerMsgView,
                Error,
            >(ms[i]),
{
    let ps = server_payloads(ms);
    assert(forall|i: int| 0 <= i < ps.len() ==> #[trigger] ps[i].len() <= MAX_FRAME_LEN);
    lemma_frame_integrity(ps);
    assert forall|i: int| 0 <= i < ms.len() implies #[trigger] parse_server_msg(ps[i]) == Ok::<
        ServerMsgView,
        Error,
    >(ms[i]) by {
        crate::msg::lemma_server_msg_roundtrip(ms[i]);
    }
}

/// The result of asking the decoder for the next frame.
#[derive(Debug)]
pub enum FramePoll {
    /// No complete frame is buffered yet.
    Pending,
    /// The next frame's payload, removed from the buffer.
    Payload(Vec<u8>),
    /// The next frame announces a length above the maximum; nothing was
    /// consumed and no payload was allocated.
    TooLong,
}

/// The receive half of the codec: bytes read from the stream are fed in,
/// complete frame payloads come out in order, and whatever is buffered past
/// the last complete frame can be released as the read residue.
pub struct FrameBuffer {
    buf: Vec<u8>,
    done: Ghost<Seq<u8>>,
}

impl View for FrameBuffer {
    type V = Seq<u8>;

    /// The bytes fed but not yet consumed as frames.
    closed spec fn view(&self) -> Seq<u8> {
        self.buf@
    }
}

impl FrameBuffer {
    /// The prefix of the fed bytes already consumed as complete frames.
    pub closed spec fn consumed(&self) -> Seq<u8> {
        self.done@
    }

    /// Every byte ever fed: the consumed prefix followed by the buffered
    /// residue.
    pub closed spec fn fed(&self) -> Seq<u8> {
        self.done@ + self.buf@
    }

    /// A fresh decoder with nothing buffered.
    pub fn new() -> (r: FrameBuffer)
        ensures
            r@ == Seq::<u8>::empty(),
            r.consumed() == Seq::<u8>::empty(),
    {
        FrameBuffer { buf: Vec::new(), done: Ghost(Seq::empty()) }
    }

    /// Feed bytes read from the stream into the decoder.
    pub fn feed(&mut self, data: &[u8])
        ensures
            final(self)@ == old(self)@ + data@,
            final(self).consumed() == old(self).consumed(),
    {
        let mut i: usize = 0;
        while i < data.len()
            invariant
                i <= data@.len(),
                self.buf@ == old(self).buf@ + data@.take(i as int),
                self.done == old(self).done,
            decreases data@.len() - i,
        {
            self.buf.push(data[i]);
            proof {
                assert(old(self).buf@ + data@.take(i as int) + seq![data@[i as int]]
                    =~= old(self).buf@ + data@.take(i + 1));
            }
            i = i + 1;
        }
        proof {
            assert(data@.take(data@.len() as int) =~= data@);
        }
    }

    /// Remove and return the next complete frame payload, if one is fully
    /// buffered. A frame that announces more than the maximum length is
    /// refused with nothing consumed and no payload allocated.
    pub fn poll_frame(&mut self) -> (r: FramePoll)
        ensures
            old(self)@.len() < 4 ==> r is Pending && *final(self) == *old(self),
            old(self)@.len() >= 4 && Self::head_len(old(self)@) > MAX_FRAME_LEN ==> r is TooLong
                && *final(self) == *old(self),
            old(self)@.len() >= 4 && Self::head_len(old(self)@) <= MAX_FRAME_LEN && old(
                self,
            )@.len() < 4 + Self::head_len(old(self)@) ==> r is Pending && *final(self) == *old(
                self,
            ),
            old(self)@.len() >= 4 && Self::head_len(old(self)@) <= MAX_FRAME_LEN && old(
                self,
            )@.len() >= 4 + Self::head_len(old(self)@) ==> {
                &&& r matches FramePoll::Payload(p) && p@ == old(self)@.subrange(
                    4,
                    4 + Self::head_len(old(self)@),
                )
                &&& final(self)@ == old(self)@.skip(4 + Self::head_len(old(self)@))
                &&& final(self).consumed() == old(self).consumed() + old(self)@.take(
                    4 + Self::head_len(old(self)@),
                )
            },
    {
        if self.buf.len() < 4 {
            return FramePoll::Pending;
        }
        let n32 = u32_from_bytes(self.buf[0], self.buf[1], self.buf[2], self.buf[3]);
        if n32 > MAX_FRAME_LEN as u32 {
            return FramePoll::TooLong;
        }
        let n = n32 as usize;
        if self.buf.len() < 4 + n {
            return FramePoll::Pending;
        }
        let payload = copy_range(self.buf.as_slice(), 4, 4 + n);
        let rest = copy_range(self.buf.as_slice(), 4 + n, self.buf.len());
        proof {
            self.done@ = self.done@ + self.buf@.take(4 + n as int);
        }
        self.buf = rest;
        FramePoll::Payload(payload)
    }

    /// The length the frame at the head of the buffer announces for its
    /// payload.
    pub open spec fn head_len(b: Seq<u8>) -> int
        recommends
            b.len() >= 4,
    {
        u32_of_bytes(b[0], b[1], b[2], b[3]) as int
    }

    /// Release the decoder, handing back the read residue: exactly the fed
    /// bytes that follow the consumed frames, in order. These are the first
    /// bytes that must reach the peer once byte proxying begins.
    pub fn into_residue(self) -> (r: Vec<u8>)
        ensures
            r@ == self@,
            self.fed() == self.consumed() + r@,
    {
        self.buf
    }
}

/// Copy a range of a byte slice.
fn copy_range(b: &[u8], from: usize, to: usize) -> (r: Vec<u8>)
    requires
        from <= to <= b@.len(),
    ensures
        r@ == b@.subrange(from as int, to as int),
{
    let mut v: Vec<u8> = Vec::new();
    let mut i: usize = from;
    while i < to
        invariant
            from <= i <= to <= b@.len(),
            v@ == b@.subrange(from as int, i as int),
        decreases to - i,
    {
        v.push(b[i]);
        proof {
            assert(b@.subrange(from as int, i as int) + seq![b@[i as int]] =~= b@.subrange(
                from as int,
                i + 1,
            ));
        }
        i = i + 1;
    }
    v
}

/// Frame a client message for sending: length prefix, then payload. A
/// message whose encoding exceeds the maximum frame length is refused.
pub fn frame_client_msg(m: &ClientMessage) -> (r: Result<Vec<u8>, Error>)
    ensures
        client_msg_bytes(m@).len() <= MAX_FRAME_LEN ==> (r matches Ok(v) && v@ == frame_bytes(
            client_msg_bytes(m@),
        )),
        client_msg_bytes(m@).len() > MAX_FRAME_LEN ==> r == Err::<Vec<u8>, Error>(
            Error::Oversized,
        ),
{
    let payload = encode_client_msg(m);
    if payload.len() > MAX_FRAME_LEN {
        return Err(Error::Oversized);
    }
    let mut v = u32_to_vec(payload.len() as u32);
    let mut p = payload;
    v.append(&mut p);
    assert(v@ =~= frame_bytes(client_msg_bytes(m@)));
    Ok(v)
}

/// Frame a server message for sending: length prefix, then payload. A
/// message whose encoding exceeds the maximum frame length is refused.
pub fn frame_server_msg(m: &ServerMessage) -> (r: Result<Vec<u8>, Error>)
    ensures
        server_msg_bytes(m@).len() <= MAX_FRAME_LEN ==> (r matches Ok(v) && v@ == frame_bytes(
            server_msg_bytes(m@),
        )),
        server_msg_bytes(m@).len() > MAX_FRAME_LEN ==> r == Err::<Vec<u8>, Error>(
            Error::Oversized,
        ),
{
    let payload = encode_server_msg(m);
    if payload.len() > MAX_FRAME_LEN {
        return Err(Error::Oversized);
    }
    let mut v = u32_to_vec(payload.len() as u32);
    let mut p = payload;
    v.append(&mut p);
    assert(v@ =~= frame_bytes(server_msg_bytes(m@)));
    Ok(v)
}

/// Pull the next client message out of the buffered bytes: `Ok(None)` while
/// no complete frame is buffered, the decoded message once one is, and the
/// exact defect of an oversized frame or a bad payload.
pub fn recv_client_msg(fb: &mut FrameBuffer) -> (r: Result<Option<ClientMessage>, Error>)
    ensures
        old(fb)@.len() < 4 || (old(fb)@.len() >= 4 && FrameBuffer::head_len(old(fb)@)
            <= MAX_FRAME_LEN && old(fb)@.len() < 4 + FrameBuffer::head_len(old(fb)@)) ==> r
            == Ok::<Option<ClientMessage>, Error>(None) && *final(fb) == *old(fb),
        old(fb)@.len() >= 4 && FrameBuffer::head_len(old(fb)@) > MAX_FRAME_LEN ==> r == Err::<
            Option<ClientMessage>,
            Error,
        >(Error::Oversized) && *final(fb) == *old(fb),
        old(fb)@.len() >= 4 && FrameBuffer::head_len(old(fb)@) <= MAX_FRAME_LEN && old(fb)@.len()
            >= 4 + FrameBuffer::head_len(old(fb)@) ==> {
            &&& final(fb)@ == old(fb)@.skip(4 + FrameBuffer::head_len(old(fb)@))
            &&& match r {
                Ok(Some(m)) => parse_client_msg(
                    old(fb)@.subrange(4, 4 + FrameBuffer::head_len(old(fb)@)),
                ) == Ok::<ClientMsgView, Error>(m@),
                Ok(None) => false,
                Err(e) => parse_client_msg(
                    old(fb)@.subrange(4, 4 + FrameBuffer::head_len(old(fb)@)),
                ) == Err::<ClientMsgView, Error>(e),
            }
        },
{
    match fb.poll_frame() {
        FramePoll::Pending => Ok(None),
        FramePoll::TooLong => Err(Error::Oversized),
        FramePoll::Payload(p) => match decode_client_msg(p.as_slice()) {
            Ok(m) => Ok(Some(m)),
            Err(e) => Err(e),
        },
    }
}

/// Pull the next server message out of the buffered bytes, as
/// `recv_client_msg` does for the other direction.
pub fn recv_server_msg(fb: &mut FrameBuffer) -> (r: Result<Option<ServerMessage>, Error>)
    ensures
        old(fb)@.len() < 4 || (old(fb)@.len() >= 4 && FrameBuffer::head_len(old(fb)@)
            <= MAX_FRAME_LEN && old(fb)@.len() < 4 + FrameBuffer::head_len(old(fb)@)) ==> r
            == Ok::<Option<ServerMessage>, Error>(None) && *final(fb) == *old(fb),
        old(fb)@.len() >= 4 && FrameBuffer::head_len(old(fb)@) > MAX_FRAME_LEN ==> r == Err::<
            Option<ServerMessage>,
            Error,
        >(Error::Oversized) && *final(fb) == *old(fb),
        old(fb)@.len() >= 4 && FrameBuffer::head_len(old(fb)@) <= MAX_FRAME_LEN && old(fb)@.len()
            >= 4 + FrameBuffer::head_len(old(fb)@) ==> {
            &&& final(fb)@ == old(fb)@.skip(4 + FrameBuffer::head_len(old(fb)@))
            &&& match r {
                Ok(Some(m)) => parse_server_msg(
                    old(fb)@.subrange(4, 4 + FrameBuffer::head_len(old(fb)@)),
                ) == Ok::<ServerMsgView, Error>(m@),
                Ok(None) => false,
                Err(e) => parse_server_msg(
                    old(fb)@.subrange(4, 4 + FrameBuffer::head_len(old(fb)@)),
                ) == Err::<ServerMsgView, Error>(e),
            }
        },
{
    match fb.poll_frame() {
        FramePoll::Pending => Ok(None),
        FramePoll::TooLong => Err(Error::Oversized),
        FramePoll::Payload(p) => match decode_server_msg(p.as_slice()) {
            Ok(m) => Ok(Some(m)),
            Err(e) => Err(e),
        },
    }
}

} // verus!
