//! The control-channel message unions and their tagged wire encoding: one
//! tag byte naming the variant, then the payload. Unknown tags and payloads
//! of the wrong shape are fatal protocol errors.
use vstd::prelude::*;

use crate::wire::{
    lemma_u128_roundtrip, lemma_u16_roundtrip, u128_bytes, u128_of_bytes, u128_push_bytes,
    u128_read_bytes, u16_bytes, u16_from_bytes, u16_of_bytes, u16_to_vec,
};

verus! {

/// Tag byte of a client `Authenticate` message.
pub const TAG_AUTHENTICATE: u8 = 1;

/// Tag byte of a client `Hello` message.
pub const TAG_CLIENT_HELLO: u8 = 2;

/// Tag byte of a client `Accept` message.
pub const TAG_ACCEPT: u8 = 3;

/// Tag byte of a server `Challenge` message.
pub const TAG_CHALLENGE: u8 = 1;

/// Tag byte of a server `Hello` message.
pub const TAG_SERVER_HELLO: u8 = 2;

/// Tag byte of a server `Heartbeat` message.
pub const TAG_HEARTBEAT: u8 = 3;

/// Tag byte of a server `Connection` message.
pub const TAG_CONNECTION: u8 = 4;

/// Tag byte of a server `Error` message.
pub const TAG_ERROR: u8 = 5;

/// The errors that end a session. Each is fatal to the session it arises
/// in and never crosses to another session.
#[derive(Clone, Copy, Debug, PartialEq, Eq, Structural)]
pub enum Error {
    /// A frame announced a length above the maximum.
    Oversized,
    /// A frame carried a tag no message uses.
    UnknownTag,
    /// A frame payload did not have the shape its tag demands.
    Malformed,
    /// A well-formed message arrived in a state that does not admit it.
    UnexpectedMessage,
    /// A challenge was answered with the wrong token.
    AuthFailed,
    /// The server demanded authentication but no secret is configured.
    AuthRequired,
    /// No full frame arrived within the read deadline.
    Timeout,
    /// The underlying stream failed.
    Io,
    /// The requested public port could not be bound.
    PortInUse,
    /// An `Accept` named an identifier no longer parked.
    MissingConnection,
    /// A fresh identifier collided with a parked one.
    IdCollision,
    /// The peer reported a terminal error.
    Remote,
}

/// A message sent from the client to the server.
#[derive(Clone, Debug)]
pub enum ClientMessage {
    /// Response to a challenge: a hex-encoded keyed hash of the nonce.
    Authenticate(Vec<u8>),
    /// Request a public listener on this port; `0` means any available.
    Hello(u16),
    /// Claim the parked inbound connection with this identifier.
    Accept(u128),
}

/// A message sent from the server to the client.
#[derive(Clone, Debug)]
pub enum ServerMessage {
    /// A fresh random 128-bit nonce the client must answer.
    Challenge(u128),
    /// Confirms the listener allocation with the bound port.
    Hello(u16),
    /// Liveness probe; no payload.
    Heartbeat,
    /// A parked inbound connection awaits an `Accept` of this identifier.
    Connection(u128),
    /// Terminal, human-readable failure.
    Error(Vec<u8>),
}

/// Mathematical form of a client message, with the token as a byte sequence.
pub enum ClientMsgView {
    Authenticate(Seq<u8>),
    Hello(u16),
    Accept(u128),
}

/// Mathematical form of a server message, with the error text as a byte
/// sequence.
pub enum ServerMsgView {
    Challenge(u128),
    Hello(u16),
    Heartbeat,
    Connection(u128),
    Error(Seq<u8>),
}

impl View for ClientMessage {
    type V = ClientMsgView;

    open spec fn view(&self) -> ClientMsgView {
        match self {
            ClientMessage::Authenticate(t) => ClientMsgView::Authenticate(t@),
            ClientMessage::Hello(p) => ClientMsgView::Hello(*p),
            ClientMessage::Accept(id) => ClientMsgView::Accept(*id),
        }
    }
}

impl View for ServerMessage {
    type V = ServerMsgView;

    open spec fn view(&self) -> ServerMsgView {
        match self {
            ServerMessage::Challenge(n) => ServerMsgView::Challenge(*n),
            ServerMessage::Hello(p) => ServerMsgView::Hello(*p),
            ServerMessage::Heartbeat => ServerMsgView::Heartbeat,
            ServerMessage::Connection(id) => ServerMsgView::Connection(*id),
            ServerMessage::Error(m) => ServerMsgView::Error(m@),
        }
    }
}

/// The encoded payload of a client message: tag byte, then payload.
pub open spec fn client_msg_bytes(m: ClientMsgView) -> Seq<u8> {
    match m {
        ClientMsgView::Authenticate(t) => seq![TAG_AUTHENTICATE] + t,
        ClientMsgView::Hello(p) => seq![TAG_CLIENT_HELLO] + u16_bytes(p),
        ClientMsgView::Accept(id) => seq![TAG_ACCEPT] + u128_bytes(id),
    }
}

/// The encoded payload of a server message: tag byte, then payload.
pub open spec fn server_msg_bytes(m: ServerMsgView) -> Seq<u8> {
    match m {
        ServerMsgView::Challenge(n) => seq![TAG_CHALLENGE] + u128_bytes(n),
        ServerMsgView::Hello(p) => seq![TAG_SERVER_HELLO] + u16_bytes(p),
        ServerMsgView::Heartbeat => seq![TAG_HEARTBEAT],
        ServerMsgView::Connection(id) => seq![TAG_CONNECTION] + u128_bytes(id),
        ServerMsgView::Error(t) => seq![TAG_ERROR] + t,
    }
}

/// What a frame payload means as a client message: the unique message it
/// encodes, or the error that classifies its defect.
pub open spec fn parse_client_msg(b: Seq<u8>) -> Result<ClientMsgView, Error> {
    if b.len() == 0 {
        Err(Error::Malformed)
    } else if b[0] == TAG_AUTHENTICATE {
        Ok(ClientMsgView::Authenticate(b.skip(1)))
    } else if b[0] == TAG_CLIENT_HELLO {
        if b.len() == 3 {
            Ok(ClientMsgView::Hello(u16_of_bytes(b[1], b[2])))
        } else {
            Err(Error::Malformed)
        }
    } else if b[0] == TAG_ACCEPT {
        if b.len() == 17 {
            Ok(ClientMsgView::Accept(u128_of_bytes(b.skip(1))))
        } else {
            Err(Error::Malformed)
        }
    } else {
        Err(Error::UnknownTag)
    }
}

/// What a frame payload means as a server message.
pub open spec fn parse_server_msg(b: Seq<u8>) -> Result<ServerMsgView, Error> {
    if b.len() == 0 {
        Err(Error::Malformed)
    } else if b[0] == TAG_CHALLENGE {
        if b.len() == 17 {
            Ok(ServerMsgView::Challenge(u128_of_bytes(b.skip(1))))
        } else {
            Err(Error::Malformed)
        }
    } else if b[0] == TAG_SERVER_HELLO {
        if b.len() == 3 {
            Ok(ServerMsgView::Hello(u16_of_bytes(b[1], b[2])))
        } else {
            Err(Error::Malformed)
        }
    } else if b[0] == TAG_HEARTBEAT {
        if b.len() == 1 {
            Ok(ServerMsgView::Heartbeat)
        } else {
            Err(Error::Malformed)
        }
    } else if b[0] == TAG_CONNECTION {
        if b.len() == 17 {
            Ok(ServerMsgView::Connection(u128_of_bytes(b.skip(1))))
        } else {
            Err(Error::Malformed)
        }
    } else if b[0] == TAG_ERROR {
        Ok(ServerMsgView::Error(b.skip(1)))
    } else {
        Err(Error::UnknownTag)
    }
}

/// Round trip: decoding the encoding of any client message yields that
/// message back.
pub proof fn lemma_client_msg_roundtrip(m: ClientMsgView)
    ensures
        parse_client_msg(client_msg_bytes(m)) == Ok::<ClientMsgView, Error>(m),
{
    match m {
        ClientMsgView::Authenticate(t) => {
            assert((seq![TAG_AUTHENTICATE] + t).skip(1) =~= t);
        },
        ClientMsgView::Hello(p) => {
            let b = seq![TAG_CLIENT_HELLO] + u16_bytes(p);
            assert(b[1] == u16_bytes(p)[0] && b[2] == u16_bytes(p)[1]);
            lemma_u16_roundtrip(p);
        },
        ClientMsgView::Accept(id) => {
            let b = seq![TAG_ACCEPT] + u128_bytes(id);
            assert(b.skip(1) =~= u128_bytes(id));
            lemma_u128_roundtrip(id);
        },
    }
}

/// Round trip: decoding the encoding of any server message yields that
/// message back.
pub proof fn lemma_server_msg_roundtrip(m: ServerMsgView)
    ensures
        parse_server_msg(server_msg_bytes(m)) == Ok::<ServerMsgView, Error>(m),
{
    match m {
        ServerMsgView::Challenge(n) => {
            let b = seq![TAG_CHALLENGE] + u128_bytes(n);
            assert(b.skip(1) =~= u128_bytes(n));
            lemma_u128_roundtrip(n);
        },
        ServerMsgView::Hello(p) => {
            let b = seq![TAG_SERVER_HELLO] + u16_bytes(p);
            assert(b[1] == u16_bytes(p)[0] && b[2] == u16_bytes(p)[1]);
            lemma_u16_roundtrip(p);
        },
        ServerMsgView::Heartbeat => {},
        ServerMsgView::Connection(id) => {
            let b = seq![TAG_CONNECTION] + u128_bytes(id);
            assert(b.skip(1) =~= u128_bytes(id));
            lemma_u128_roundtrip(id);
        },
        ServerMsgView::Error(t) => {
            assert((seq![TAG_ERROR] + t).skip(1) =~= t);
        },
    }
}

/// Append a byte slice to a vector.
fn push_all(v: &mut Vec<u8>, s: &[u8])
    ensures
        final(v)@ == old(v)@ + s@,
{
    let mut i: usize = 0;
    while i < s.len()
        invariant
            i <= s@.len(),
            v@ == old(v)@ + s@.take(i as int),
        decreases s@.len() - i,
    {
        v.push(s[i]);
        proof {
            assert(old(v)@ + s@.take(i as int) + seq![s@[i as int]] =~= old(v)@ + s@.take(
                i + 1,
            ));
        }
        i = i + 1;
    }
    proof {
        assert(s@.take(s@.len() as int) =~= s@);
    }
}

/// Encode a client message as a frame payload.
pub fn encode_client_msg(m: &ClientMessage) -> (r: Vec<u8>)
    ensures
        r@ == client_msg_bytes(m@),
{
    let mut v: Vec<u8> = Vec::new();
    match m {
        ClientMessage::Authenticate(t) => {
            v.push(TAG_AUTHENTICATE);
            push_all(&mut v, t.as_slice());
            assert(v@ =~= client_msg_bytes(m@));
        },
        ClientMessage::Hello(p) => {
            v.push(TAG_CLIENT_HELLO);
            let pb = u16_to_vec(*p);
            push_all(&mut v, pb.as_slice());
            assert(v@ =~= client_msg_bytes(m@));
        },
        ClientMessage::Accept(id) => {
            v.push(TAG_ACCEPT);
            u128_push_bytes(&mut v, *id);
            assert(v@ =~= client_msg_bytes(m@));
        },
    }
    v
}

/// Encode a server message as a frame payload.
pub fn encode_server_msg(m: &ServerMessage) -> (r: Vec<u8>)
    ensures
        r@ == server_msg_bytes(m@),
{
    let mut v: Vec<u8> = Vec::new();
    match m {
        ServerMessage::Challenge(n) => {
            v.push(TAG_CHALLENGE);
            u128_push_bytes(&mut v, *n);
            assert(v@ =~= server_msg_bytes(m@));
        },
        ServerMessage::Hello(p) => {
            v.push(TAG_SERVER_HELLO);
            let pb = u16_to_vec(*p);
            push_all(&mut v, pb.as_slice());
            assert(v@ =~= server_msg_bytes(m@));
        },
        ServerMessage::Heartbeat => {
            v.push(TAG_HEARTBEAT);
            assert(v@ =~= server_msg_bytes(m@));
        },
        ServerMessage::Connection(id) => {
            v.push(TAG_CONNECTION);
            u128_push_bytes(&mut v, *id);
            assert(v@ =~= server_msg_bytes(m@));
        },
        ServerMessage::Error(t) => {
            v.push(TAG_ERROR);
            push_all(&mut v, t.as_slice());
            assert(v@ =~= server_msg_bytes(m@));
        },
    }
    v
}

/// Copy the tail of a byte slice, from an offset to its end.
fn copy_tail(b: &[u8], from: usize) -> (r: Vec<u8>)
    requires
        from <= b@.len(),
    ensures
        r@ == b@.skip(from as int),
{
    let mut v: Vec<u8> = Vec::new();
    let mut i: usize = from;
    while i < b.len()
        invariant
            from <= i <= b@.len(),
            v@ == b@.subrange(from as int, i as int),
        decreases b@.len() - i,
    {
        v.push(b[i]);
        proof {
            assert(b@.subrange(from as int, i as int) + seq![b@[i as int]] =~= b@.subrange(
                from as int,
                i + 1,
            ));
        }
        i = i + 1;
    }
    proof {
        assert(b@.subrange(from as int, b@.len() as int) =~= b@.skip(from as int));
    }
    v
}

/// Decode a frame payload as a client message; the result is exactly what
/// the payload means, message or defect.
pub fn decode_client_msg(b: &[u8]) -> (r: Result<ClientMessage, Error>)
    ensures
        match r {
            Ok(m) => parse_client_msg(b@) == Ok::<ClientMsgView, Error>(m@),
            Err(e) => parse_client_msg(b@) == Err::<ClientMsgView, Error>(e),
        },
{
    if b.len() == 0 {
        return Err(Error::Malformed);
    }
    let tag = b[0];
    if tag == TAG_AUTHENTICATE {
        let t = copy_tail(b, 1);
        Ok(ClientMessage::Authenticate(t))
    } else if tag == TAG_CLIENT_HELLO {
        if b.len() == 3 {
            Ok(ClientMessage::Hello(u16_from_bytes(b[1], b[2])))
        } else {
            Err(Error::Malformed)
        }
    } else if tag == TAG_ACCEPT {
        if b.len() == 17 {
            let id = u128_read_bytes(b, 1);
            proof {
                assert(b@.subrange(1, 17) =~= b@.skip(1));
            }
            Ok(ClientMessage::Accept(id))
        } else {
            Err(Error::Malformed)
        }
    } else {
        Err(Error::UnknownTag)
    }
}

/// Decode a frame payload as a server message; the result is exactly what
/// the payload means, message or defect.
pub fn decode_server_msg(b: &[u8]) -> (r: Result<ServerMessage, Error>)
    ensures
        match r {
            Ok(m) => parse_server_msg(b@) == Ok::<ServerMsgView, Error>(m@),
            Err(e) => parse_server_msg(b@) == Err::<ServerMsgView, Error>(e),
        },
{
    if b.len() == 0 {
        return Err(Error::Malformed);
    }
    let tag = b[0];
    if tag == TAG_CHALLENGE {
        if b.len() == 17 {
            let n = u128_read_bytes(b, 1);
            proof {
                assert(b@.subrange(1, 17) =~= b@.skip(1));
            }
            Ok(ServerMessage::Challenge(n))
        } else {
            Err(Error::Malformed)
        }
    } else if tag == TAG_SERVER_HELLO {
        if b.len() == 3 {
            Ok(ServerMessage::Hello(u16_from_bytes(b[1], b[2])))
        } else {
            Err(Error::Malformed)
        }
    } else if tag == TAG_HEARTBEAT {
        if b.len() == 1 {
            Ok(ServerMessage::Heartbeat)
        } else {
            Err(Error::Malformed)
        }
    } else if tag == TAG_CONNECTION {
        if b.len() == 17 {
            let id = u128_read_bytes(b, 1);
            proof {
                assert(b@.subrange(1, 17) =~= b@.skip(1));
            }
            Ok(ServerMessage::Connection(id))
        } else {
            Err(Error::Malformed)
        }
    } else if tag == TAG_ERROR {
        let t = copy_tail(b, 1);
        Ok(ServerMessage::Error(t))
    } else {
        Err(Error::UnknownTag)
    }
}

} // verus!
