//! The counters the core publishes: control connections, connected
//! clients, heartbeats sent, and bytes each way. They are plain saturating
//! counters; the surrounding program may mirror them into any metrics sink
//! or none.
use vstd::prelude::*;

verus! {

/// One more, stopping at the top of the range.
pub open spec fn sat_inc(x: u64) -> u64 {
    if x < u64::MAX {
        (x + 1) as u64
    } else {
        x
    }
}

/// One fewer, stopping at zero.
pub open spec fn sat_dec(x: u64) -> u64 {
    if x > 0 {
        (x - 1) as u64
    } else {
        x
    }
}

/// A sum that stops at the top of the range.
pub open spec fn sat_add(x: u64, n: u64) -> u64 {
    if x + n <= u64::MAX {
        (x + n) as u64
    } else {
        u64::MAX
    }
}

/// The counters of one server process.
pub struct Metrics {
    /// Control-channel connections currently open.
    pub total_connections: u64,
    /// Clients that completed a `Hello` and were not yet torn down.
    pub connected_clients: u64,
    /// Heartbeats sent since start.
    pub heartbeats: u64,
    /// Bytes read from proxied streams since start.
    pub incoming_bytes: u64,
    /// Bytes written to proxied streams since start.
    pub outgoing_bytes: u64,
}

impl Metrics {
    /// All counters at zero.
    pub fn new() -> (r: Metrics)
        ensures
            r.total_connections == 0,
            r.connected_clients == 0,
            r.heartbeats == 0,
            r.incoming_bytes == 0,
            r.outgoing_bytes == 0,
    {
        Metrics {
            total_connections: 0,
            connected_clients: 0,
            heartbeats: 0,
            incoming_bytes: 0,
            outgoing_bytes: 0,
        }
    }

    /// A control connection arrived.
    pub fn connection_opened(&mut self)
        ensures
            final(self).total_connections == sat_inc(old(self).total_connections),
            final(self).connected_clients == old(self).connected_clients,
            final(self).heartbeats == old(self).heartbeats,
            final(self).incoming_bytes == old(self).incoming_bytes,
            final(self).outgoing_bytes == old(self).outgoing_bytes,
    {
        if self.total_connections < u64::MAX {
            self.total_connections = self.total_connections + 1;
        }
    }

    /// A control connection ended, on any path.
    pub fn connection_closed(&mut self)
        ensures
            final(self).total_connections == sat_dec(old(self).total_connections),
            final(self).connected_clients == old(self).connected_clients,
            final(self).heartbeats == old(self).heartbeats,
            final(self).incoming_bytes == old(self).incoming_bytes,
            final(self).outgoing_bytes == old(self).outgoing_bytes,
    {
        if self.total_connections > 0 {
            self.total_connections = self.total_connections - 1;
        }
    }

    /// A client's `Hello` succeeded.
    pub fn client_connected(&mut self)
        ensures
            final(self).connected_clients == sat_inc(old(self).connected_clients),
            final(self).total_connections == old(self).total_connections,
            final(self).heartbeats == old(self).heartbeats,
            final(self).incoming_bytes == old(self).incoming_bytes,
            final(self).outgoing_bytes == old(self).outgoing_bytes,
    {
        if self.connected_clients < u64::MAX {
            self.connected_clients = self.connected_clients + 1;
        }
    }

    /// A client's session ended, on any path.
    pub fn client_disconnected(&mut self)
        ensures
            final(self).connected_clients == sat_dec(old(self).connected_clients),
            final(self).total_connections == old(self).total_connections,
            final(self).heartbeats == old(self).heartbeats,
            final(self).incoming_bytes == old(self).incoming_bytes,
            final(self).outgoing_bytes == old(self).outgoing_bytes,
    {
        if self.connected_clients > 0 {
            self.connected_clients = self.connected_clients - 1;
        }
    }

    /// A heartbeat was sent.
    pub fn heartbeat_sent(&mut self)
        ensures
            final(self).heartbeats == sat_inc(old(self).heartbeats),
            final(self).total_connections == old(self).total_connections,
            final(self).connected_clients == old(self).connected_clients,
            final(self).incoming_bytes == old(self).incoming_bytes,
            final(self).outgoing_bytes == old(self).outgoing_bytes,
    {
        if self.heartbeats < u64::MAX {
            self.heartbeats = self.heartbeats + 1;
        }
    }

    /// Bytes were read from a proxied stream.
    pub fn bytes_in(&mut self, n: u64)
        ensures
            final(self).incoming_bytes == sat_add(old(self).incoming_bytes, n),
            final(self).total_connections == old(self).total_connections,
            final(self).connected_clients == old(self).connected_clients,
            final(self).heartbeats == old(self).heartbeats,
            final(self).outgoing_bytes == old(self).outgoing_bytes,
    {
        if n <= u64::MAX - self.incoming_bytes {
            self.incoming_bytes = self.incoming_bytes + n;
        } else {
            self.incoming_bytes = u64::MAX;
        }
    }

    /// Bytes were written to a proxied stream.
    pub fn bytes_out(&mut self, n: u64)
        ensures
            final(self).outgoing_bytes == sat_add(old(self).outgoing_bytes, n),
            final(self).total_connections == old(self).total_connections,
            final(self).connected_clients == old(self).connected_clients,
            final(self).heartbeats == old(self).heartbeats,
            final(self).incoming_bytes == old(self).incoming_bytes,
    {
        if n <= u64::MAX - self.outgoing_bytes {
            self.outgoing_bytes = self.outgoing_bytes + n;
        } else {
            self.outgoing_bytes = u64::MAX;
        }
    }
}

/// The per-interval rate of a monotonic counter: how far it moved since
/// the previous reading; zero if the counter was reset under us.
pub fn per_second(current: u64, previous: u64) -> (r: u64)
    ensures
        current >= previous ==> r == current - previous,
        current < previous ==> r == 0,
{
    if current >= previous {
        current - previous
    } else {
        0
    }
}

} // verus!
