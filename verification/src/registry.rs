//! The connection registry: a concurrent map from a fresh 128-bit
//! identifier to the handle of a parked inbound connection. An entry leaves
//! the map exactly once — claimed by a matching `Accept`, or reaped when
//! its time to live runs out — and is never handed out twice.
use vstd::prelude::*;

verus! {

/// Holds the shared concurrent map. The map itself lives outside the
/// verified world; its contents are spoken of through `table_entries`.
#[verifier::external_body]
pub struct ConnTable {
    inner: dashmap::DashMap<u128, u64>,
}

/// What the concurrent map holds: the identifier-to-handle entries.
pub uninterp spec fn table_entries(t: ConnTable) -> Map<u128, u64>;

/// The empty registry contents.
pub open spec fn no_entries() -> Map<u128, u64> {
    Map::empty()
}

/// Relies on dashmap::DashMap::new: the fresh map is empty.
#[verifier::external_body]
fn table_new() -> (tbl: ConnTable)
    ensures
        table_entries(tbl) == no_entries(),
{
    ConnTable { inner: dashmap::DashMap::new() }
}

/// Relies on dashmap::DashMap::contains_key: whether the map holds an
/// entry for this key.
#[verifier::external_body]
fn table_contains(t: &ConnTable, id: u128) -> (r: bool)
    ensures
        r == table_entries(*t).contains_key(id),
{
    t.inner.contains_key(&id)
}

/// Relies on dashmap::DashMap::insert: maps the key to the value and
/// returns the value it replaced, if the key was present.
#[verifier::external_body]
fn table_insert(t: &mut ConnTable, id: u128, handle: u64) -> (prev: Option<u64>)
    ensures
        table_entries(*final(t)) == table_entries(*old(t)).insert(id, handle),
        prev == if table_entries(*old(t)).contains_key(id) {
            Some(table_entries(*old(t))[id])
        } else {
            None::<u64>
        },
{
    t.inner.insert(id, handle)
}

/// Relies on dashmap::DashMap::remove: takes the entry for this key out of
/// the map and returns it, if it was present.
#[verifier::external_body]
fn table_remove(t: &mut ConnTable, id: u128) -> (r: Option<(u128, u64)>)
    ensures
        table_entries(*final(t)) == table_entries(*old(t)).remove(id),
        r == if table_entries(*old(t)).contains_key(id) {
            Some((id, table_entries(*old(t))[id]))
        } else {
            None::<(u128, u64)>
        },
{
    t.inner.remove(&id)
}

/// The registry of parked inbound connections, keyed by the identifier the
/// server offered for each.
pub struct Registry {
    table: ConnTable,
}

impl Registry {
    /// The parked entries: identifier to connection handle.
    pub closed spec fn entries(&self) -> Map<u128, u64> {
        table_entries(self.table)
    }

    /// A registry with nothing parked.
    pub fn new() -> (r: Registry)
        ensures
            r.entries() == no_entries(),
    {
        Registry { table: table_new() }
    }

    /// Whether this identifier is currently parked.
    pub fn contains(&self, id: u128) -> (r: bool)
        ensures
            r == self.entries().contains_key(id),
    {
        table_contains(&self.table, id)
    }

    /// Park a connection under a fresh identifier. A collision with an
    /// identifier already parked is refused and changes nothing: an entry
    /// is never overwritten.
    pub fn park(&mut self, id: u128, handle: u64) -> (ok: bool)
        ensures
            ok == !old(self).entries().contains_key(id),
            ok ==> final(self).entries() == old(self).entries().insert(id, handle),
            !ok ==> final(self).entries() == old(self).entries(),
    {
        if table_contains(&self.table, id) {
            return false;
        }
        let _prev = table_insert(&mut self.table, id, handle);
        true
    }

    /// Atomically remove and return the entry for this identifier: the
    /// handle if it was parked, nothing if it had already been taken. Both
    /// the `Accept` path and the reaper leave the map through here, so an
    /// entry is delivered at most once.
    pub fn take(&mut self, id: u128) -> (r: Option<u64>)
        ensures
            old(self).entries().contains_key(id) ==> r == Some(old(self).entries()[id]),
            !old(self).entries().contains_key(id) ==> r == None::<u64>,
            final(self).entries() == old(self).entries().remove(id),
    {
        match table_remove(&mut self.table, id) {
            Some((_, handle)) => Some(handle),
            None => None,
        }
    }
}

/// At-most-once delivery: once an identifier has been taken — by the proxy
/// handoff or by the reaper — it is no longer parked, so the other path
/// finds nothing and a parked connection is delivered at most once.
pub proof fn lemma_at_most_once(entries: Map<u128, u64>, id: u128)
    ensures
        !entries.remove(id).contains_key(id),
{
}

} // verus!
