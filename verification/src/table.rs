//! The rotation table: the backends of each listen port, with a fixed limit on
//! the number of listen ports.
//!
//! The table offers a snapshot read and a replace-or-insert write and nothing
//! that joins the two: a read followed by a write is two steps, and whoever
//! writes last wins.

use crate::backend::BackendPorts;
use std::collections::HashMap;
use vstd::prelude::*;

verus! {

broadcast use vstd::std_specs::hash::group_hash_axioms;

/// The limit on listen ports of a table made by [`RotationTable::new`].
pub const DEFAULT_MAX_ENTRIES: usize = 10;

/// Why a packet was aborted or a write refused.
#[derive(Clone, Copy, Debug, PartialEq, Eq)]
pub enum Fault {
    /// The table holds as many listen ports as it may and the port is new.
    TableFull,
    /// A stored cursor points outside its row of ports.
    CursorOutOfBounds,
}

/// What a read of `port` returns from the entries `entries`.
pub open spec fn lookup(entries: Map<u16, BackendPorts>, port: u16) -> Option<BackendPorts> {
    if entries.contains_key(port) {
        Some(entries[port])
    } else {
        None
    }
}

/// A write under `port` is accepted: the port is already there, or there is
/// room for one more.
pub open spec fn set_accepts(entries: Map<u16, BackendPorts>, limit: nat, port: u16) -> bool {
    entries.contains_key(port) || entries.len() < limit
}

/// The entries after a write of `backends` under `port`: replaced or inserted
/// where the write is accepted, untouched where it is not.
pub open spec fn after_set(
    entries: Map<u16, BackendPorts>,
    limit: nat,
    port: u16,
    backends: BackendPorts,
) -> Map<u16, BackendPorts> {
    if set_accepts(entries, limit, port) {
        entries.insert(port, backends)
    } else {
        entries
    }
}

/// A map from listen port to backends that never holds more than a fixed
/// number of listen ports.
pub struct RotationTable {
    entries: HashMap<u16, BackendPorts>,
    max_entries: usize,
}

impl View for RotationTable {
    type V = Map<u16, BackendPorts>;

    closed spec fn view(&self) -> Map<u16, BackendPorts> {
        self.entries@
    }
}

impl RotationTable {
    /// The largest number of listen ports the table takes.
    pub closed spec fn limit(&self) -> nat {
        self.max_entries as nat
    }

    /// The table holds finitely many listen ports, and no more than its limit.
    pub open spec fn wf(&self) -> bool {
        self@.dom().finite() && self@.len() <= self.limit()
    }

    /// An empty table for up to [`DEFAULT_MAX_ENTRIES`] listen ports.
    pub fn new() -> (table: RotationTable)
        ensures
            table.wf(),
            table@ == Map::<u16, BackendPorts>::empty(),
            table.limit() == DEFAULT_MAX_ENTRIES,
    {
        RotationTable::with_max_entries(DEFAULT_MAX_ENTRIES)
    }

    /// An empty table for up to `max_entries` listen ports.
    pub fn with_max_entries(max_entries: usize) -> (table: RotationTable)
        ensures
            table.wf(),
            table@ == Map::<u16, BackendPorts>::empty(),
            table.limit() == max_entries,
    {
        RotationTable { entries: HashMap::new(), max_entries }
    }

    /// The largest number of listen ports the table takes.
    pub fn max_entries(&self) -> (limit: usize)
        ensures
            limit == self.limit(),
    {
        self.max_entries
    }

    /// The number of listen ports in the table.
    pub fn len(&self) -> (len: usize)
        ensures
            len == self@.len(),
    {
        self.entries.len()
    }

    /// A snapshot of the backends stored under `listen_port`. The table is
    /// not changed.
    pub fn get(&self, listen_port: u16) -> (found: Option<BackendPorts>)
        ensures
            found == lookup(self@, listen_port),
    {
        match self.entries.get(&listen_port) {
            Some(backends) => Some(*backends),
            None => None,
        }
    }

    /// Stores `backends` under `listen_port`, in place of what was there. The
    /// write is refused, and the table left as it was, exactly when the port
    /// is new and the table is full.
    pub fn set(&mut self, listen_port: u16, backends: BackendPorts) -> (stored: Result<(), Fault>)
        requires
            old(self).wf(),
        ensures
            final(self).wf(),
            final(self).limit() == old(self).limit(),
            stored is Ok <==> set_accepts(old(self)@, old(self).limit(), listen_port),
            stored is Err ==> stored == Err::<(), Fault>(Fault::TableFull),
            final(self)@ == after_set(old(self)@, old(self).limit(), listen_port, backends),
            stored is Ok ==> lookup(final(self)@, listen_port) == Some(backends),
            forall|other: u16|
                other != listen_port ==> lookup(final(self)@, other) == lookup(old(self)@, other),
    {
        if self.entries.len() >= self.max_entries && self.entries.get(&listen_port).is_none() {
            return Err(Fault::TableFull);
        }
        self.entries.insert(listen_port, backends);
        Ok(())
    }
}

/// Writing the same backends under the same listen port a second time changes
/// nothing: the table is as the first write left it.
pub proof fn lemma_set_twice(
    entries: Map<u16, BackendPorts>,
    limit: nat,
    port: u16,
    backends: BackendPorts,
)
    ensures
        after_set(after_set(entries, limit, port, backends), limit, port, backends) == after_set(
            entries,
            limit,
            port,
            backends,
        ),
{
    let once = after_set(entries, limit, port, backends);
    if set_accepts(entries, limit, port) {
        assert(once.insert(port, backends) =~= once);
    } else {
        assert(!set_accepts(once, limit, port));
    }
}

/// A read that follows an accepted write of the same listen port returns what
/// was written, and reads of every other listen port return what they
/// returned before.
pub proof fn lemma_get_after_set(
    entries: Map<u16, BackendPorts>,
    limit: nat,
    port: u16,
    backends: BackendPorts,
)
    requires
        set_accepts(entries, limit, port),
    ensures
        lookup(after_set(entries, limit, port, backends), port) == Some(backends),
        forall|other: u16|
            other != port ==> lookup(after_set(entries, limit, port, backends), other) == lookup(
                entries,
                other,
            ),
{
}

/// A refused write is not seen by any read.
pub proof fn lemma_get_after_refused_set(
    entries: Map<u16, BackendPorts>,
    limit: nat,
    port: u16,
    backends: BackendPorts,
)
    requires
        !set_accepts(entries, limit, port),
    ensures
        after_set(entries, limit, port, backends) == entries,
        lookup(after_set(entries, limit, port, backends), port) == None::<BackendPorts>,
{
}

} // verus!
