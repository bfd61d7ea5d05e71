//! Strips the link-layer, IPv4 and UDP headers from a captured frame.

use crate::wire::{be16_at, u16_from_be};
use vstd::prelude::*;
use vstd::slice::slice_to_vec;

verus! {

/// The link type of loopback frames, which start with a four-byte header.
pub const LINKTYPE_NULL: i32 = 0;

/// The link type of Ethernet frames, which start with a 14-byte header.
pub const LINKTYPE_ETHERNET: i32 = 1;

/// The link-layer type of a capture, by its number.
#[derive(Debug, Clone, Copy, PartialEq, Eq, Structural)]
pub struct Linktype(pub i32);

/// A UDP datagram: its ports, the length its header declares, and its payload.
#[derive(Debug)]
pub struct UdpPacket {
    pub src_port: u16,
    pub dest_port: u16,
    pub length: u16,
    pub payload: Vec<u8>,
}

/// What a `UdpPacket` holds, as plain values.
pub struct UdpPacketView {
    pub src_port: u16,
    pub dest_port: u16,
    pub length: u16,
    pub payload: Seq<u8>,
}

impl View for UdpPacket {
    type V = UdpPacketView;

    open spec fn view(&self) -> UdpPacketView {
        UdpPacketView {
            src_port: self.src_port,
            dest_port: self.dest_port,
            length: self.length,
            payload: self.payload@,
        }
    }
}

impl Linktype {
    /// The length of the link-layer header, for the two link types that are
    /// supported.
    pub open spec fn header_len(self) -> Option<nat> {
        if self.0 == LINKTYPE_ETHERNET {
            Some(14)
        } else if self.0 == LINKTYPE_NULL {
            Some(4)
        } else {
            None
        }
    }
}

/// The length of an IPv4 header, which the low four bits of its first byte
/// give in 32-bit words.
pub open spec fn ip_header_len(first: u8) -> nat {
    ((first & 0x0F) * 4) as nat
}

/// The datagram in a frame whose link-layer header is `link` bytes long: the
/// frame must reach into the IPv4 header, hold all of it, and hold the eight
/// bytes of the UDP header after it. The checksum is not read.
pub open spec fn datagram_after(frame: Seq<u8>, link: nat) -> Option<UdpPacketView> {
    if frame.len() <= link {
        None
    } else {
        let udp = (link + ip_header_len(frame[link as int])) as int;
        if frame.len() < udp + 8 {
            None
        } else {
            Some(
                UdpPacketView {
                    src_port: be16_at(frame, udp),
                    dest_port: be16_at(frame, udp + 2),
                    length: be16_at(frame, udp + 4),
                    payload: frame.subrange(udp + 8, frame.len() as int),
                },
            )
        }
    }
}

/// The datagram that a frame of the given link type carries, if any.
pub open spec fn datagram_of(frame: Seq<u8>, link_type: Linktype) -> Option<UdpPacketView> {
    match link_type.header_len() {
        Some(link) => datagram_after(frame, link),
        None => None,
    }
}

/// Parses the UDP datagram out of a captured frame. An unsupported link type
/// and a frame that ends before the UDP header does give no datagram.
pub fn parse_udp_packet(data: &[u8], link_type: Linktype) -> (packet: Option<UdpPacket>)
    ensures
        match packet {
            Some(p) => datagram_of(data@, link_type) == Some(p@),
            None => datagram_of(data@, link_type) is None,
        },
        packet is Some <==> (link_type.header_len() matches Some(link) && data@.len() > link
            && data@.len() >= link + ip_header_len(data@[link as int]) + 8),
        (link_type.header_len() matches Some(link) && data@.len() > link && data@.len() < link
            + ip_header_len(data@[link as int])) ==> packet is None,
{
    let link_header_len: usize = if link_type.0 == LINKTYPE_ETHERNET {
        14
    } else if link_type.0 == LINKTYPE_NULL {
        4
    } else {
        return None;
    };
    if data.len() <= link_header_len {
        return None;
    }
    let ip_header = &data[link_header_len..data.len()];
    let first: u8 = ip_header[0];
    let words: u8 = first & 0x0F;
    assert(words <= 15) by (bit_vector)
        requires
            words == first & 0x0F,
    ;
    let ip_header_len: usize = words as usize * 4;
    if ip_header.len() < ip_header_len {
        return None;
    }
    let udp_segment = &ip_header[ip_header_len..ip_header.len()];
    if udp_segment.len() < 8 {
        return None;
    }
    let src_port = u16_from_be([udp_segment[0], udp_segment[1]]);
    let dest_port = u16_from_be([udp_segment[2], udp_segment[3]]);
    let length = u16_from_be([udp_segment[4], udp_segment[5]]);
    let payload = slice_to_vec(&udp_segment[8..udp_segment.len()]);
    proof {
        let udp = link_header_len as int + ip_header_len as int;
        assert(payload@ =~= data@.subrange(udp + 8, data@.len() as int));
    }
    Some(UdpPacket { src_port, dest_port, length, payload })
}

} // verus!
