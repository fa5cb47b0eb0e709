//! Core of a TCP reverse-tunnelling service: a public server parks inbound
//! connections and offers them over a framed control channel to a client
//! behind NAT, which claims each one and proxies bytes to a local upstream.
//!
//! This crate holds the protocol engine: the length-delimited message codec,
//! the challenge/response authenticator, the parked-connection registry and
//! the per-session state machines. Socket I/O, TLS and the metrics endpoint
//! live in the surrounding program, which feeds events in and carries the
//! decided actions out.
use vstd::prelude::*;

pub mod auth;
pub mod byte_counter;
pub mod client;
pub mod frame;
pub mod hexid;
pub mod metrics;
pub mod msg;
pub mod registry;
pub mod server;
pub mod wire;

verus! {

/// Fixed TCP port on which clients open control sessions to the server.
pub const CONTROL_PORT: u16 = 7835;

/// Maximum length, in bytes, of a frame payload; larger frames are a fatal
/// protocol error.
pub const MAX_FRAME_LEN: usize = 65536;

/// Control-frame read deadline, in milliseconds.
pub const T_RECV_MS: u64 = 10000;

/// Server offer-loop heartbeat interval and listener-accept wait, in
/// milliseconds.
pub const T_HB_MS: u64 = 2000;

/// Parked-connection time to live, in milliseconds.
pub const T_PARK_MS: u64 = 10000;

/// Client reconnect back-off, in milliseconds.
pub const T_BACKOFF_MS: u64 = 1000;

} // verus!
