//! The redirector: what happens to one inbound packet.
//!
//! A packet is handled in two steps. [`decide`] reads the packet and a
//! snapshot of the table and changes neither. [`commit`] carries the decision
//! out: it rewrites the destination port and writes the advanced cursor back.
//! Nothing joins the two steps, so two packets to one listen port may both be
//! decided on the same snapshot; both then go to the same backend and the
//! cursor moves by one step, not two. [`try_load_balancer`] and
//! [`load_balancer`] run the two steps back to back for one caller.

use crate::backend::{BackendPorts, NO_BACKEND};
use crate::packet::{dest_port, holds, is_udp, set_udp_dest_port, udp_dest_port, with_dest_port};
use crate::table::{after_set, lookup, set_accepts, Fault, RotationTable};
use vstd::prelude::*;

verus! {

/// The action code for a packet that is dropped because of an internal fault.
pub const XDP_ABORTED: u32 = 0;

/// The action code for a packet that goes on to local delivery.
pub const XDP_PASS: u32 = 2;

/// What is to be done with one packet.
#[derive(Clone, Copy, Debug, PartialEq, Eq)]
pub enum Decision {
    /// Deliver the packet as it is.
    Pass,
    /// Drop the packet: the entry of its listen port has a cursor outside
    /// its row.
    Abort,
    /// Send the packet to `backend_port` and store `next` under
    /// `listen_port`.
    Redirect { listen_port: u16, backend_port: u16, next: BackendPorts },
}

/// The decision for a packet with the bytes `bytes` on the table entries
/// `entries`.
pub open spec fn decision(bytes: Seq<u8>, entries: Map<u16, BackendPorts>) -> Decision {
    if !is_udp(bytes) {
        Decision::Pass
    } else if !entries.contains_key(dest_port(bytes)) {
        Decision::Pass
    } else if !entries[dest_port(bytes)].in_bounds() {
        Decision::Abort
    } else {
        Decision::Redirect {
            listen_port: dest_port(bytes),
            backend_port: entries[dest_port(bytes)].selected(),
            next: entries[dest_port(bytes)].advanced(),
        }
    }
}

/// The decision `taken` asks for a rewrite and the buffer holds the field to
/// rewrite.
pub open spec fn rewrites(bytes: Seq<u8>, taken: Decision) -> bool {
    taken is Redirect && holds(bytes, 34, 8)
}

/// The packet's bytes after `taken` was carried out.
pub open spec fn committed_bytes(bytes: Seq<u8>, taken: Decision) -> Seq<u8> {
    match taken {
        Decision::Redirect { listen_port, backend_port, next } if holds(bytes, 34, 8) => {
            with_dest_port(bytes, backend_port)
        },
        _ => bytes,
    }
}

/// The table's entries after `taken` was carried out on a packet with the
/// bytes `bytes`.
pub open spec fn committed_entries(
    bytes: Seq<u8>,
    entries: Map<u16, BackendPorts>,
    limit: nat,
    taken: Decision,
) -> Map<u16, BackendPorts> {
    match taken {
        Decision::Redirect { listen_port, backend_port, next } if holds(bytes, 34, 8) => {
            after_set(entries, limit, listen_port, next)
        },
        _ => entries,
    }
}

/// What carrying out `taken` reports: the action for the packet, or the fault
/// for which it is dropped.
pub open spec fn committed_outcome(
    bytes: Seq<u8>,
    entries: Map<u16, BackendPorts>,
    limit: nat,
    taken: Decision,
) -> Result<u32, Fault> {
    match taken {
        Decision::Pass => Ok(XDP_PASS),
        Decision::Abort => Err(Fault::CursorOutOfBounds),
        Decision::Redirect { listen_port, backend_port, next } => {
            if !holds(bytes, 34, 8) || set_accepts(entries, limit, listen_port) {
                Ok(XDP_PASS)
            } else {
                Err(Fault::TableFull)
            }
        },
    }
}

/// The action code that a packet leaves with.
pub open spec fn action_of(outcome: Result<u32, Fault>) -> u32 {
    match outcome {
        Ok(action) => action,
        Err(_) => XDP_ABORTED,
    }
}

/// Decides what is to be done with `packet`, on a snapshot of `table`.
/// Neither is changed.
pub fn decide(packet: &Vec<u8>, table: &RotationTable) -> (taken: Decision)
    ensures
        taken == decision(packet@, table@),
{
    let listen_port: u16 = match udp_dest_port(packet) {
        Some(port) => port,
        None => {
            return Decision::Pass;
        },
    };
    let backends: BackendPorts = match table.get(listen_port) {
        Some(backends) => backends,
        None => {
            return Decision::Pass;
        },
    };
    match backends.rotate() {
        Some((backend_port, next)) => Decision::Redirect { listen_port, backend_port, next },
        None => Decision::Abort,
    }
}

/// Carries a decision out, whenever and on whatever snapshot it was taken.
///
/// A redirect first rewrites the packet's destination port and then stores
/// the advanced entry; where the table refuses the write, the packet stays
/// rewritten and is reported as a fault. A redirect of a buffer that is too
/// short for the transport header changes nothing and lets the packet pass.
pub fn commit(packet: &mut Vec<u8>, table: &mut RotationTable, taken: Decision) -> (outcome: Result<
    u32,
    Fault,
>)
    requires
        old(table).wf(),
    ensures
        final(table).wf(),
        final(table).limit() == old(table).limit(),
        final(packet)@ == committed_bytes(old(packet)@, taken),
        final(table)@ == committed_entries(old(packet)@, old(table)@, old(table).limit(), taken),
        outcome == committed_outcome(old(packet)@, old(table)@, old(table).limit(), taken),
{
    match taken {
        Decision::Pass => Ok(XDP_PASS),
        Decision::Abort => Err(Fault::CursorOutOfBounds),
        Decision::Redirect { listen_port, backend_port, next } => {
            if !set_udp_dest_port(packet, backend_port) {
                return Ok(XDP_PASS);
            }
            match table.set(listen_port, next) {
                Ok(_) => Ok(XDP_PASS),
                Err(fault) => Err(fault),
            }
        },
    }
}

/// Handles one packet: decides on the table as it is and carries the decision
/// out at once. Reports the action, or the fault for which the packet is
/// dropped.
pub fn try_load_balancer(packet: &mut Vec<u8>, table: &mut RotationTable) -> (outcome: Result<
    u32,
    Fault,
>)
    requires
        old(table).wf(),
    ensures
        final(table).wf(),
        final(table).limit() == old(table).limit(),
        match decision(old(packet)@, old(table)@) {
            Decision::Pass => {
                &&& outcome == Ok::<u32, Fault>(XDP_PASS)
                &&& final(packet)@ == old(packet)@
                &&& final(table)@ == old(table)@
            },
            Decision::Abort => {
                &&& outcome == Err::<u32, Fault>(Fault::CursorOutOfBounds)
                &&& final(packet)@ == old(packet)@
                &&& final(table)@ == old(table)@
            },
            Decision::Redirect { listen_port, backend_port, next } => {
                &&& outcome == Ok::<u32, Fault>(XDP_PASS)
                &&& final(packet)@ == with_dest_port(old(packet)@, backend_port)
                &&& final(table)@ == old(table)@.insert(listen_port, next)
            },
        },
{
    let taken: Decision = decide(packet, table);
    commit(packet, table, taken)
}

/// Handles one packet and returns its action code.
///
/// A packet that is not UDP over IPv4, or whose buffer ends inside one of the
/// three headers, or whose destination port has no entry, passes with packet
/// and table untouched. A packet whose entry has its cursor outside the row
/// is aborted, again with nothing touched. Every other packet passes with its
/// destination port replaced by the port under the cursor, and its entry
/// stored again with the cursor moved on.
pub fn load_balancer(packet: &mut Vec<u8>, table: &mut RotationTable) -> (action: u32)
    requires
        old(table).wf(),
    ensures
        final(table).wf(),
        final(table).limit() == old(table).limit(),
        final(packet)@.len() == old(packet)@.len(),
        !is_udp(old(packet)@) ==> {
            &&& action == XDP_PASS
            &&& final(packet)@ == old(packet)@
            &&& final(table)@ == old(table)@
        },
        is_udp(old(packet)@) && !old(table)@.contains_key(dest_port(old(packet)@)) ==> {
            &&& action == XDP_PASS
            &&& final(packet)@ == old(packet)@
            &&& final(table)@ == old(table)@
        },
        is_udp(old(packet)@) && old(table)@.contains_key(dest_port(old(packet)@)) && !old(
            table,
        )@[dest_port(old(packet)@)].in_bounds() ==> {
            &&& action == XDP_ABORTED
            &&& final(packet)@ == old(packet)@
            &&& final(table)@ == old(table)@
        },
        is_udp(old(packet)@) && old(table)@.contains_key(dest_port(old(packet)@)) && old(
            table,
        )@[dest_port(old(packet)@)].in_bounds() ==> {
            &&& action == XDP_PASS
            &&& final(packet)@ == with_dest_port(
                old(packet)@,
                old(table)@[dest_port(old(packet)@)].selected(),
            )
            &&& dest_port(final(packet)@) == old(table)@[dest_port(old(packet)@)].selected()
            &&& final(table)@ == old(table)@.insert(
                dest_port(old(packet)@),
                old(table)@[dest_port(old(packet)@)].advanced(),
            )
        },
{
    proof {
        if is_udp(old(packet)@) {
            crate::packet::lemma_with_dest_port(
                old(packet)@,
                old(table)@[dest_port(old(packet)@)].selected(),
            );
        }
    }
    match try_load_balancer(packet, table) {
        Ok(action) => action,
        Err(_) => XDP_ABORTED,
    }
}

/// A UDP packet whose listen port has an entry with the cursor on a backend
/// is rewritten once, to the port under the cursor, and the entry is stored
/// with the same ports and the cursor one slot on modulo the capacity, or at
/// the first slot where the slot one on is unused.
pub proof fn lemma_redirect_follows_cursor(
    bytes: Seq<u8>,
    entries: Map<u16, BackendPorts>,
    limit: nat,
)
    requires
        is_udp(bytes),
        entries.contains_key(dest_port(bytes)),
        entries[dest_port(bytes)].in_bounds(),
        entries[dest_port(bytes)].selected() != NO_BACKEND,
    ensures
        decision(bytes, entries) is Redirect,
        committed_outcome(bytes, entries, limit, decision(bytes, entries)) == Ok::<u32, Fault>(
            XDP_PASS,
        ),
        dest_port(committed_bytes(bytes, decision(bytes, entries))) == entries[dest_port(
            bytes,
        )].selected(),
        forall|other: u16|
            other != dest_port(bytes) ==> lookup(
                committed_entries(bytes, entries, limit, decision(bytes, entries)),
                other,
            ) == lookup(entries, other),
        lookup(
            committed_entries(bytes, entries, limit, decision(bytes, entries)),
            dest_port(bytes),
        ) == Some(
            BackendPorts {
                ports: entries[dest_port(bytes)].ports,
                index: if entries[dest_port(bytes)].ports@[(entries[dest_port(bytes)].index + 1)
                    % 4] == NO_BACKEND {
                    0
                } else {
                    ((entries[dest_port(bytes)].index + 1) % 4) as usize
                },
            },
        ),
{
    crate::packet::lemma_with_dest_port(bytes, entries[dest_port(bytes)].selected());
    crate::backend::lemma_next_index_is_modular(entries[dest_port(bytes)]);
}

/// A decision taken on a table is never refused by that table: the listen
/// port of a redirect is one of its entries, so the write replaces.
pub proof fn lemma_own_decision_is_stored(
    bytes: Seq<u8>,
    entries: Map<u16, BackendPorts>,
    limit: nat,
)
    ensures
        committed_outcome(bytes, entries, limit, decision(bytes, entries)) != Err::<u32, Fault>(
            Fault::TableFull,
        ),
        decision(bytes, entries) is Redirect ==> rewrites(bytes, decision(bytes, entries)),
{
}

/// A redirect that was decided on a table leaves a packet that is decided as
/// a redirect again: the rewrite keeps the protocol chain, and the entry of
/// the listen port stays in the table with its cursor in bounds.
pub proof fn lemma_redirect_keeps_entry(
    bytes: Seq<u8>,
    entries: Map<u16, BackendPorts>,
    limit: nat,
)
    requires
        decision(bytes, entries) is Redirect,
    ensures
        is_udp(committed_bytes(bytes, decision(bytes, entries))),
        committed_entries(bytes, entries, limit, decision(bytes, entries)).contains_key(
            dest_port(bytes),
        ),
        committed_entries(bytes, entries, limit, decision(bytes, entries))[dest_port(
            bytes,
        )].in_bounds(),
        committed_entries(bytes, entries, limit, decision(bytes, entries))[dest_port(bytes)].ports
            == entries[dest_port(bytes)].ports,
{
    crate::packet::lemma_with_dest_port(bytes, entries[dest_port(bytes)].selected());
}

/// Two packets to one listen port that are both decided before either is
/// carried out go to the same backend, and the entry ends one step on, as
/// after a single packet.
pub proof fn lemma_lost_update(
    first: Seq<u8>,
    second: Seq<u8>,
    entries: Map<u16, BackendPorts>,
    limit: nat,
)
    requires
        decision(first, entries) is Redirect,
        decision(second, entries) is Redirect,
        dest_port(first) == dest_port(second),
    ensures
        dest_port(committed_bytes(first, decision(first, entries))) == dest_port(
            committed_bytes(second, decision(second, entries)),
        ),
        committed_entries(
            second,
            committed_entries(first, entries, limit, decision(first, entries)),
            limit,
            decision(second, entries),
        ) == committed_entries(first, entries, limit, decision(first, entries)),
{
    let backends = entries[dest_port(first)];
    crate::packet::lemma_with_dest_port(first, backends.selected());
    crate::packet::lemma_with_dest_port(second, backends.selected());
    let once = committed_entries(first, entries, limit, decision(first, entries));
    assert(once.insert(dest_port(first), backends.advanced()) =~= once);
}

} // verus!
