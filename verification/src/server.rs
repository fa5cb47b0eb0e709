//! The server side of a control session: challenge new clients when a
//! secret is configured, judge the first message (allocate a listener for a
//! valid `Hello`, hand a parked connection to an `Accept`), and park fresh
//! inbound connections under fresh identifiers while offering them.
//!
//! The surrounding program performs the socket work — bind, accept, send,
//! receive — and feeds what it saw into these functions; every decision is
//! made here.
use vstd::prelude::*;

use crate::auth::{fresh_id, sha256_of, Authenticator, expected_token};
use crate::msg::{ClientMessage, ClientMsgView, Error, ServerMessage, ServerMsgView};
use crate::registry::{no_entries, Registry};

verus! {

/// Default lowest public port a client may request.
pub const DEFAULT_MIN_PORT: u16 = 1024;

/// What a session does after the first proper message of a client (or its
/// absence).
#[derive(Clone, Copy, Debug, PartialEq, Eq, Structural)]
pub enum SessionAction {
    /// An `Authenticate` outside the handshake: close without reply.
    CloseUnexpectedAuthenticate,
    /// The stream ended before a message: close.
    CloseEndOfStream,
    /// A `Hello` requested a fixed port below the minimum: close silently,
    /// allocating nothing and sending no reply.
    CloseInvalidPort,
    /// A valid `Hello`: bind a public listener on the requested port (`0`
    /// asks the kernel for any free port), reply `Hello` with the bound
    /// port, and start offering.
    OpenListener(u16),
    /// An `Accept`: pair the parked connection with this stream and proxy.
    Forward(u128),
}

/// Server state shared by all control sessions: the minimum acceptable
/// public port, the optional authenticator, and the registry of parked
/// inbound connections.
pub struct Server {
    min_port: u16,
    auth: Option<Authenticator>,
    registry: Registry,
}

impl Server {
    /// The lowest public port a client may request.
    pub closed spec fn min_port_spec(&self) -> u16 {
        self.min_port
    }

    /// The derived authentication key, when a secret is configured.
    pub closed spec fn auth_key(&self) -> Option<Seq<u8>> {
        match self.auth {
            Some(a) => Some(a.key_view()),
            None => None,
        }
    }

    /// Whether a secret is configured, so that every session must open
    /// with a challenge.
    pub open spec fn has_auth(&self) -> bool {
        self.auth_key() is Some
    }

    /// The parked inbound connections: identifier to handle.
    pub closed spec fn parked(&self) -> Map<u128, u64> {
        self.registry.entries()
    }

    /// A server with the given minimum port and, when a secret is given,
    /// an authenticator keyed from it; nothing is parked yet.
    pub fn new(min_port: u16, secret: Option<&[u8]>) -> (r: Server)
        ensures
            r.min_port_spec() == min_port,
            match secret {
                Some(s) => r.auth_key() == Some(sha256_of(s@)),
                None => r.auth_key() == None::<Seq<u8>>,
            },
            r.parked() == no_entries(),
    {
        let auth = match secret {
            Some(s) => Some(Authenticator::new(s)),
            None => None,
        };
        Server { min_port, auth, registry: Registry::new() }
    }

    /// The challenge that opens a session when a secret is configured: a
    /// fresh random nonce and the message that carries it. Without a
    /// secret no challenge is ever sent.
    pub fn challenge(&self) -> (r: Option<(u128, ServerMessage)>)
        ensures
            self.has_auth() ==> (r matches Some(p) && p.1@ == ServerMsgView::Challenge(p.0)),
            !self.has_auth() ==> r == None::<(u128, ServerMessage)>,
    {
        match &self.auth {
            Some(_) => {
                let nonce = fresh_id();
                Some((nonce, ServerMessage::Challenge(nonce)))
            },
            None => None,
        }
    }

    /// Judge the reply to a challenge: only an `Authenticate` carrying the
    /// expected token for the nonce is accepted; a wrong token fails with
    /// `AuthFailed`, and any other reply — or none — is out of place.
    pub fn check_auth(&self, nonce: u128, reply: Option<&ClientMessage>) -> (r: Result<(), Error>)
        requires
            self.has_auth(),
        ensures
            match reply {
                Some(m) => match m@ {
                    ClientMsgView::Authenticate(t) => if Some(t) == token_for(
                        self.auth_key(),
                        nonce,
                    ) {
                        r == Ok::<(), Error>(())
                    } else {
                        r == Err::<(), Error>(Error::AuthFailed)
                    },
                    _ => r == Err::<(), Error>(Error::UnexpectedMessage),
                },
                None => r == Err::<(), Error>(Error::UnexpectedMessage),
            },
    {
        match &self.auth {
            Some(a) => a.check_challenge_reply(nonce, reply),
            None => {
                proof {
                    assert(false);
                }
                Err(Error::UnexpectedMessage)
            },
        }
    }

    /// What the session does on its first proper message: reject an
    /// `Authenticate` here, validate a `Hello`'s port against the minimum
    /// (zero asks for any port), forward an `Accept`, and close on end of
    /// stream.
    pub fn first_action(&self, msg: Option<&ClientMessage>) -> (a: SessionAction)
        ensures
            match msg {
                None => a == SessionAction::CloseEndOfStream,
                Some(m) => match m@ {
                    ClientMsgView::Authenticate(_) => a
                        == SessionAction::CloseUnexpectedAuthenticate,
                    ClientMsgView::Hello(p) => if p == 0 || p >= self.min_port_spec() {
                        a == SessionAction::OpenListener(p)
                    } else {
                        a == SessionAction::CloseInvalidPort
                    },
                    ClientMsgView::Accept(id) => a == SessionAction::Forward(id),
                },
            },
    {
        match msg {
            None => SessionAction::CloseEndOfStream,
            Some(ClientMessage::Authenticate(_)) => SessionAction::CloseUnexpectedAuthenticate,
            Some(ClientMessage::Hello(p)) => {
                if *p == 0 || *p >= self.min_port {
                    SessionAction::OpenListener(*p)
                } else {
                    SessionAction::CloseInvalidPort
                }
            },
            Some(ClientMessage::Accept(id)) => SessionAction::Forward(*id),
        }
    }

    /// Park a freshly accepted inbound connection under a fresh random
    /// identifier and build the offer to send. The astronomically unlikely
    /// collision with a parked identifier is refused rather than
    /// overwriting the entry.
    pub fn offer(&mut self, handle: u64) -> (r: Result<(u128, ServerMessage), Error>)
        ensures
            final(self).min_port_spec() == old(self).min_port_spec(),
            final(self).auth_key() == old(self).auth_key(),
            (r matches Ok(p) ==> {
                &&& p.1@ == ServerMsgView::Connection(p.0)
                &&& !old(self).parked().contains_key(p.0)
                &&& final(self).parked() == old(self).parked().insert(p.0, handle)
            }),
            (r matches Err(e) ==> e == Error::IdCollision && final(self).parked() == old(
                self,
            ).parked()),
    {
        let id = fresh_id();
        if self.registry.park(id, handle) {
            Ok((id, ServerMessage::Connection(id)))
        } else {
            Err(Error::IdCollision)
        }
    }

    /// Claim the parked connection an `Accept` names: hand its handle out
    /// and unpark it, or report that the identifier is no longer parked —
    /// the `Accept` lost the race against the reaper.
    pub fn claim(&mut self, id: u128) -> (r: Result<u64, Error>)
        ensures
            final(self).min_port_spec() == old(self).min_port_spec(),
            final(self).auth_key() == old(self).auth_key(),
            final(self).parked() == old(self).parked().remove(id),
            old(self).parked().contains_key(id) ==> r == Ok::<u64, Error>(
                old(self).parked()[id],
            ),
            !old(self).parked().contains_key(id) ==> r == Err::<u64, Error>(
                Error::MissingConnection,
            ),
    {
        match self.registry.take(id) {
            Some(handle) => Ok(handle),
            None => Err(Error::MissingConnection),
        }
    }

    /// Reap a parked connection whose time to live has passed: unpark it
    /// and hand back its handle to be closed, or nothing if a matching
    /// `Accept` already claimed it.
    pub fn reap(&mut self, id: u128) -> (r: Option<u64>)
        ensures
            final(self).min_port_spec() == old(self).min_port_spec(),
            final(self).auth_key() == old(self).auth_key(),
            final(self).parked() == old(self).parked().remove(id),
            old(self).parked().contains_key(id) ==> r == Some(old(self).parked()[id]),
            !old(self).parked().contains_key(id) ==> r == None::<u64>,
    {
        self.registry.take(id)
    }
}

impl Default for Server {
    /// A server with the default minimum port and no secret.
    fn default() -> (r: Server)
        ensures
            r.min_port_spec() == DEFAULT_MIN_PORT,
            r.auth_key() == None::<Seq<u8>>,
            r.parked() == no_entries(),
    {
        Server::new(DEFAULT_MIN_PORT, None)
    }
}

/// The token a challenge demands under an optional key: none when no
/// secret is configured.
pub open spec fn token_for(key: Option<Seq<u8>>, nonce: u128) -> Option<Seq<u8>> {
    match key {
        Some(k) => Some(expected_token(k, nonce)),
        None => None,
    }
}

} // verus!
