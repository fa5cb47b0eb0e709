//! The client side of a control session: answer the server's challenge,
//! read the assigned public port out of the `Hello` reply, and decide what
//! each later message of the receive loop demands. The surrounding program
//! dials, sends and receives; every decision is made here.
use vstd::prelude::*;

use crate::auth::{expected_token, Authenticator};
use crate::msg::{ClientMessage, ClientMsgView, Error, ServerMessage, ServerMsgView};

verus! {

/// What the client's receive loop does with one server message.
#[derive(Clone, Copy, Debug, PartialEq, Eq, Structural)]
pub enum ClientAction {
    /// A heartbeat: nothing.
    Ignore,
    /// An offer: open a new control connection, authenticate, send
    /// `Accept` with this identifier, dial the local upstream and proxy.
    OpenData(u128),
    /// The server reported a terminal error: abort the session.
    FailRemote,
    /// A `Hello` or `Challenge` after the handshake: protocol error,
    /// abort the session.
    FailUnexpected,
}

/// Answer the first frame of the handshake. A `Challenge` is answered with
/// an `Authenticate` carrying the expected token — or refused when no
/// secret is configured; any other first frame is out of place.
pub fn client_auth_reply(auth: Option<&Authenticator>, first: &ServerMessage) -> (r: Result<
    ClientMessage,
    Error,
>)
    ensures
        match first@ {
            ServerMsgView::Challenge(n) => match auth {
                Some(a) => (r matches Ok(m) && m@ == ClientMsgView::Authenticate(
                    expected_token(a.key_view(), n),
                )),
                None => r == Err::<ClientMessage, Error>(Error::AuthRequired),
            },
            _ => r == Err::<ClientMessage, Error>(Error::UnexpectedMessage),
        },
{
    match first {
        ServerMessage::Challenge(n) => match auth {
            Some(a) => Ok(ClientMessage::Authenticate(a.answer(*n))),
            None => Err(Error::AuthRequired),
        },
        _ => Err(Error::UnexpectedMessage),
    }
}

/// Read the assigned public port out of the reply to `Hello`. A
/// `Challenge` here means the server demands a secret the client lacks —
/// or, when the client already authenticated, a protocol error; an `Error`
/// reports the server's terminal failure; anything else is out of place.
pub fn client_hello_reply(has_secret: bool, msg: &ServerMessage) -> (r: Result<u16, Error>)
    ensures
        match msg@ {
            ServerMsgView::Hello(p) => r == Ok::<u16, Error>(p),
            ServerMsgView::Challenge(_) => if has_secret {
                r == Err::<u16, Error>(Error::UnexpectedMessage)
            } else {
                r == Err::<u16, Error>(Error::AuthRequired)
            },
            ServerMsgView::Error(_) => r == Err::<u16, Error>(Error::Remote),
            _ => r == Err::<u16, Error>(Error::UnexpectedMessage),
        },
{
    match msg {
        ServerMessage::Hello(p) => Ok(*p),
        ServerMessage::Challenge(_) => {
            if has_secret {
                Err(Error::UnexpectedMessage)
            } else {
                Err(Error::AuthRequired)
            }
        },
        ServerMessage::Error(_) => Err(Error::Remote),
        _ => Err(Error::UnexpectedMessage),
    }
}

/// Decide what one message of the established receive loop demands:
/// heartbeats are ignored, an offer opens a data channel, a reported error
/// aborts, and a `Hello` or `Challenge` here is a protocol error.
pub fn client_loop_action(msg: &ServerMessage) -> (a: ClientAction)
    ensures
        match msg@ {
            ServerMsgView::Heartbeat => a == ClientAction::Ignore,
            ServerMsgView::Connection(id) => a == ClientAction::OpenData(id),
            ServerMsgView::Error(_) => a == ClientAction::FailRemote,
            ServerMsgView::Hello(_) => a == ClientAction::FailUnexpected,
            ServerMsgView::Challenge(_) => a == ClientAction::FailUnexpected,
        },
{
    match msg {
        ServerMessage::Heartbeat => ClientAction::Ignore,
        ServerMessage::Connection(id) => ClientAction::OpenData(*id),
        ServerMessage::Error(_) => ClientAction::FailRemote,
        ServerMessage::Hello(_) => ClientAction::FailUnexpected,
        ServerMessage::Challenge(_) => ClientAction::FailUnexpected,
    }
}

/// The message that claims an offered connection on a fresh data channel.
pub fn accept_message(id: u128) -> (m: ClientMessage)
    ensures
        m@ == ClientMsgView::Accept(id),
{
    ClientMessage::Accept(id)
}

} // verus!
