//! The backend ports of one listen port, and the cursor that rotates over them.

use vstd::prelude::*;

verus! {

/// How many backend ports one entry holds.
pub const CAPACITY: usize = 4;

/// The port value that marks an unused slot; no backend listens on it.
pub const NO_BACKEND: u16 = 0;

/// The backends of one listen port: a fixed row of ports, unused trailing
/// slots holding [`NO_BACKEND`], and the index of the backend to use next.
#[derive(Clone, Copy, Debug, PartialEq, Eq)]
pub struct BackendPorts {
    pub ports: [u16; 4],
    pub index: usize,
}

impl BackendPorts {
    /// The cursor points at a slot of `ports`.
    pub open spec fn in_bounds(self) -> bool {
        self.index < CAPACITY
    }

    /// The port under the cursor.
    pub open spec fn selected(self) -> u16
        recommends
            self.in_bounds(),
    {
        self.ports@[self.index as int]
    }

    /// The cursor after one use: one step on, and back to the first slot when
    /// that step leaves the row or lands on an unused slot.
    pub open spec fn next_index(self) -> usize
        recommends
            self.in_bounds(),
    {
        if self.index + 1 >= CAPACITY || self.ports@[self.index + 1] == NO_BACKEND {
            0
        } else {
            (self.index + 1) as usize
        }
    }

    /// The same ports with the cursor moved on by one use.
    pub open spec fn advanced(self) -> BackendPorts
        recommends
            self.in_bounds(),
    {
        BackendPorts { ports: self.ports, index: self.next_index() }
    }

    /// An entry over `ports` whose rotation starts at the first slot.
    pub fn new(ports: [u16; 4]) -> (backends: BackendPorts)
        ensures
            backends.ports == ports,
            backends.index == 0,
            backends.in_bounds(),
    {
        BackendPorts { ports, index: 0 }
    }

    /// Picks the backend under the cursor and moves the cursor on. `None`
    /// exactly when the cursor points outside the row.
    pub fn rotate(&self) -> (picked: Option<(u16, BackendPorts)>)
        ensures
            picked is Some <==> self.in_bounds(),
            self.in_bounds() ==> picked == Some((self.selected(), self.advanced())),
    {
        if self.index > CAPACITY - 1 {
            return None;
        }
        let port: u16 = self.ports[self.index];
        let mut next: usize = self.index + 1;
        if next > CAPACITY - 1 || self.ports[next] == NO_BACKEND {
            next = 0;
        }
        Some((port, BackendPorts { ports: self.ports, index: next }))
    }
}

/// After a use the ports are the same and the cursor is in bounds again; it
/// rests on an unused slot only where the first slot itself is unused.
pub proof fn lemma_advanced_in_bounds(backends: BackendPorts)
    requires
        backends.in_bounds(),
    ensures
        backends.advanced().in_bounds(),
        backends.advanced().ports == backends.ports,
        backends.advanced().index == 0 || backends.advanced().selected() != NO_BACKEND,
{
}

/// The cursor moves round the row: after a use it is the old cursor plus one
/// modulo the capacity, unless the slot there is unused, and then it is zero.
pub proof fn lemma_next_index_is_modular(backends: BackendPorts)
    requires
        backends.in_bounds(),
    ensures
        backends.ports@[(backends.index + 1) % 4] != NO_BACKEND ==> backends.next_index() == (
        backends.index + 1) % 4,
        backends.ports@[(backends.index + 1) % 4] == NO_BACKEND ==> backends.next_index() == 0,
{
}

} // verus!
