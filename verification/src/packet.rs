//! The three headers at the front of a packet, read and written as bytes.
//!
//! A packet is its raw buffer: a 14-byte link header, a 20-byte network
//! header and an 8-byte transport header, in that order, then the payload.
//! Multi-byte fields are big-endian on the wire. No byte is touched before the
//! buffer is known to reach it.

use vstd::prelude::*;

verus! {

/// The link header's protocol value for an IPv4 payload.
pub const ETH_P_IP: u16 = 0x0800;

/// The network header's protocol value for UDP.
pub const IPPROTO_UDP: u8 = 17;

/// Length of the link header.
pub const ETH_HDR_LEN: usize = 14;

/// Length of the network header (no options are expected).
pub const IP_HDR_LEN: usize = 20;

/// Length of the transport header.
pub const UDP_HDR_LEN: usize = 8;

/// Where the link header's protocol field starts.
pub const ETH_PROTO_OFFSET: usize = 12;

/// Where the network header's protocol field stands.
pub const IP_PROTO_OFFSET: usize = 23;

/// Where the transport header's destination port starts.
pub const UDP_DEST_OFFSET: usize = 36;

/// The 16-bit value whose big-endian bytes are `hi`, `lo`.
pub open spec fn be16(hi: u8, lo: u8) -> u16 {
    (hi * 256 + lo) as u16
}

/// The first of the two big-endian bytes of `value`.
pub open spec fn hi_byte(value: u16) -> u8 {
    (value / 256) as u8
}

/// The second of the two big-endian bytes of `value`.
pub open spec fn lo_byte(value: u16) -> u8 {
    (value % 256) as u8
}

/// The buffer holds `size` bytes from `offset` on.
pub open spec fn holds(bytes: Seq<u8>, offset: int, size: int) -> bool {
    0 <= offset && 0 <= size && offset + size <= bytes.len()
}

/// The big-endian 16-bit field at `offset`.
pub open spec fn be16_at(bytes: Seq<u8>, offset: int) -> u16
    recommends
        holds(bytes, offset, 2),
{
    be16(bytes[offset], bytes[offset + 1])
}

/// The buffer holds a whole link header that announces an IPv4 payload.
pub open spec fn is_ipv4(bytes: Seq<u8>) -> bool {
    holds(bytes, 0, 14) && be16_at(bytes, 12) == ETH_P_IP
}

/// The buffer holds link, network and transport header, and they announce
/// IPv4 and then UDP.
pub open spec fn is_udp(bytes: Seq<u8>) -> bool {
    &&& is_ipv4(bytes)
    &&& holds(bytes, 14, 20)
    &&& bytes[23] == IPPROTO_UDP
    &&& holds(bytes, 34, 8)
}

/// The destination port of a UDP packet.
pub open spec fn dest_port(bytes: Seq<u8>) -> u16
    recommends
        is_udp(bytes),
{
    be16_at(bytes, 36)
}

/// The buffer with the big-endian bytes of `port` in the destination-port
/// field and every other byte as it was.
pub open spec fn with_dest_port(bytes: Seq<u8>, port: u16) -> Seq<u8>
    recommends
        holds(bytes, 36, 2),
{
    bytes.update(36, hi_byte(port)).update(37, lo_byte(port))
}

/// The bounds check that goes before every access: `Some(offset)` exactly
/// when the buffer holds `size` bytes from `offset` on.
pub fn field_at(packet: &Vec<u8>, offset: usize, size: usize) -> (at: Option<usize>)
    ensures
        at is Some <==> holds(packet@, offset as int, size as int),
        at is Some ==> at == Some(offset) && offset + size <= usize::MAX,
{
    let len: usize = packet.len();
    if size > len || offset > len - size {
        return None;
    }
    Some(offset)
}

/// Reads the byte at `offset`, or `None` where the buffer ends before it.
pub fn read_u8(packet: &Vec<u8>, offset: usize) -> (value: Option<u8>)
    ensures
        value is Some <==> holds(packet@, offset as int, 1),
        value is Some ==> value == Some(packet@[offset as int]),
{
    match field_at(packet, offset, 1) {
        Some(at) => Some(packet[at]),
        None => None,
    }
}

/// Reads the big-endian 16-bit field at `offset`, or `None` where the buffer
/// does not hold both of its bytes.
pub fn read_be16(packet: &Vec<u8>, offset: usize) -> (value: Option<u16>)
    ensures
        value is Some <==> holds(packet@, offset as int, 2),
        value is Some ==> value == Some(be16_at(packet@, offset as int)),
{
    match field_at(packet, offset, 2) {
        Some(at) => {
            let hi: u16 = packet[at] as u16;
            let lo: u16 = packet[at + 1] as u16;
            Some(hi * 256 + lo)
        },
        None => None,
    }
}

/// Writes `value` big-endian at `offset`. Returns whether the buffer holds
/// the field; where it does not, nothing is written.
pub fn write_be16(packet: &mut Vec<u8>, offset: usize, value: u16) -> (written: bool)
    ensures
        written == holds(old(packet)@, offset as int, 2),
        written ==> final(packet)@ == old(packet)@.update(offset as int, hi_byte(value)).update(
            offset + 1,
            lo_byte(value),
        ),
        !written ==> final(packet)@ == old(packet)@,
{
    match field_at(packet, offset, 2) {
        Some(at) => {
            let hi: u8 = (value / 256) as u8;
            let lo: u8 = (value % 256) as u8;
            packet.set(at, hi);
            packet.set(at + 1, lo);
            true
        },
        None => false,
    }
}

/// Classifies a packet: `Some` of its destination port exactly when it is a
/// UDP packet over IPv4 with all three headers inside the buffer.
pub fn udp_dest_port(packet: &Vec<u8>) -> (port: Option<u16>)
    ensures
        port is Some <==> is_udp(packet@),
        is_udp(packet@) ==> port == Some(dest_port(packet@)),
{
    if field_at(packet, 0, ETH_HDR_LEN).is_none() {
        return None;
    }
    match read_be16(packet, ETH_PROTO_OFFSET) {
        Some(proto) => {
            if proto != ETH_P_IP {
                return None;
            }
        },
        None => {
            return None;
        },
    }
    if field_at(packet, ETH_HDR_LEN, IP_HDR_LEN).is_none() {
        return None;
    }
    match read_u8(packet, IP_PROTO_OFFSET) {
        Some(proto) => {
            if proto != IPPROTO_UDP {
                return None;
            }
        },
        None => {
            return None;
        },
    }
    if field_at(packet, ETH_HDR_LEN + IP_HDR_LEN, UDP_HDR_LEN).is_none() {
        return None;
    }
    read_be16(packet, UDP_DEST_OFFSET)
}

/// Overwrites the destination port of a packet. Returns whether the buffer
/// holds a whole transport header; where it does not, nothing is written.
pub fn set_udp_dest_port(packet: &mut Vec<u8>, port: u16) -> (written: bool)
    ensures
        written == holds(old(packet)@, 34, 8),
        written ==> final(packet)@ == with_dest_port(old(packet)@, port),
        !written ==> final(packet)@ == old(packet)@,
{
    if field_at(packet, ETH_HDR_LEN + IP_HDR_LEN, UDP_HDR_LEN).is_none() {
        return false;
    }
    write_be16(packet, UDP_DEST_OFFSET, port)
}

/// The two big-endian bytes of a value give the value back.
pub proof fn lemma_be16_of_bytes(value: u16)
    ensures
        be16(hi_byte(value), lo_byte(value)) == value,
{
}

/// A port written into a packet is the port read from it, the length and
/// every other byte are as before, and so is the protocol chain.
pub proof fn lemma_with_dest_port(bytes: Seq<u8>, port: u16)
    requires
        holds(bytes, 34, 8),
    ensures
        with_dest_port(bytes, port).len() == bytes.len(),
        dest_port(with_dest_port(bytes, port)) == port,
        forall|i: int|
            0 <= i < bytes.len() && i != 36 && i != 37 ==> with_dest_port(bytes, port)[i]
                == bytes[i],
        is_udp(with_dest_port(bytes, port)) == is_udp(bytes),
{
    lemma_be16_of_bytes(port);
}

} // verus!
