//! The voice protocol: header, flags and payload decoding.

pub mod data_parser;
pub mod ts_declarations;

use crate::state_manager::app_state::AppState;
use crate::wire::{be16_at, read_u16_be};
use data_parser::{packet_payload, parse_packet_data, PacketData, PacketDataView, VoiceData};
use ts_declarations::PacketFlags;
use vstd::prelude::*;
use vstd::slice::slice_to_vec;


verus! {

/// Which way a datagram travels. The two directions use different headers.
#[derive(Debug, PartialEq, Eq, Clone, Copy, Structural)]
pub enum PacketDirection {
    ClientToServer,
    ServerToClient,
}

/// The header of a packet. Only a client writes its id into the header.
#[derive(Debug)]
pub struct Header {
    pub mac: [u8; 8],
    pub packet_id: u16,
    pub client_id: Option<u16>,
    pub flags: PacketFlags,
}

/// A packet: its header, the bytes after it, and what they decode to.
#[derive(Debug)]
pub struct Ts3Packet {
    pub header: Header,
    pub data: Vec<u8>,
    pub packet_data: Option<PacketData>,
}

/// What a `Header` holds, as plain values.
pub struct HeaderView {
    pub mac: Seq<u8>,
    pub packet_id: u16,
    pub client_id: Option<u16>,
    pub flags: PacketFlags,
}

/// What a `Ts3Packet` holds, as plain values.
pub struct Ts3PacketView {
    pub header: HeaderView,
    pub data: Seq<u8>,
    pub packet_data: Option<PacketDataView>,
}

impl View for Header {
    type V = HeaderView;

    open spec fn view(&self) -> HeaderView {
        HeaderView {
            mac: self.mac@,
            packet_id: self.packet_id,
            client_id: self.client_id,
            flags: self.flags,
        }
    }
}

impl View for Ts3Packet {
    type V = Ts3PacketView;

    open spec fn view(&self) -> Ts3PacketView {
        Ts3PacketView {
            header: self.header@,
            data: self.data@,
            packet_data: match self.packet_data {
                Some(p) => Some(p@),
                None => None,
            },
        }
    }
}

impl PacketDirection {
    /// The length of the header in this direction: 13 bytes from a client,
    /// 11 from the server.
    pub open spec fn header_len(self) -> nat {
        match self {
            PacketDirection::ClientToServer => 13,
            PacketDirection::ServerToClient => 11,
        }
    }

    /// The length of the header in this direction.
    pub fn header_length(self) -> (len: usize)
        ensures
            len == self.header_len(),
    {
        match self {
            PacketDirection::ClientToServer => 13,
            PacketDirection::ServerToClient => 11,
        }
    }
}

/// The header at the start of `bytes`: eight bytes of MAC, the packet's id,
/// from a client its own id, and the flag byte.
pub open spec fn packet_header(bytes: Seq<u8>, direction: PacketDirection) -> HeaderView {
    match direction {
        PacketDirection::ClientToServer => HeaderView {
            mac: bytes.subrange(0, 8),
            packet_id: be16_at(bytes, 8),
            client_id: Some(be16_at(bytes, 10)),
            flags: PacketFlags::decode(bytes[12]),
        },
        PacketDirection::ServerToClient => HeaderView {
            mac: bytes.subrange(0, 8),
            packet_id: be16_at(bytes, 8),
            client_id: None,
            flags: PacketFlags::decode(bytes[10]),
        },
    }
}

/// The packet that `bytes` hold, if they are long enough for the header.
pub open spec fn packet_of(bytes: Seq<u8>, direction: PacketDirection) -> Option<Ts3PacketView> {
    if bytes.len() < direction.header_len() {
        None
    } else {
        let header = packet_header(bytes, direction);
        let data = bytes.subrange(direction.header_len() as int, bytes.len() as int);
        Some(
            Ts3PacketView {
                header,
                data,
                packet_data: packet_payload(header.flags.packet_type, direction, data),
            },
        )
    }
}

/// Reads the header at the start of a datagram's payload. Bytes too few for
/// the direction's header give no header.
pub fn parse_header(data: &[u8], direction: PacketDirection) -> (header: Option<Header>)
    ensures
        header is Some <==> data@.len() >= direction.header_len(),
        header matches Some(h) ==> h@ == packet_header(data@, direction),
{
    if data.len() < direction.header_length() {
        return None;
    }
    let mac: [u8; 8] = [data[0], data[1], data[2], data[3], data[4], data[5], data[6], data[7]];
    assert(mac@ =~= data@.subrange(0, 8));
    let packet_id = read_u16_be(&data[8..10]);
    match direction {
        PacketDirection::ClientToServer => {
            let client_id = read_u16_be(&data[10..12]);
            let flags = PacketFlags::from_byte(data[12]);
            Some(Header { mac, packet_id, client_id: Some(client_id), flags })
        },
        PacketDirection::ServerToClient => {
            let flags = PacketFlags::from_byte(data[10]);
            Some(Header { mac, packet_id, client_id: None, flags })
        },
    }
}

/// Parses a packet from the payload of a datagram.
pub fn parse_ts3_packet(data: &[u8], direction: PacketDirection) -> (packet: Option<Ts3Packet>)
    ensures
        packet is Some <==> data@.len() >= direction.header_len(),
        match packet {
            Some(p) => packet_of(data@, direction) == Some(p@),
            None => packet_of(data@, direction) is None,
        },
{
    let header = match parse_header(data, direction) {
        Some(header) => header,
        None => { return None; },
    };
    let mut packet = Ts3Packet {
        header,
        data: slice_to_vec(&data[direction.header_length()..data.len()]),
        packet_data: None,
    };
    let packet_data = parse_packet_data(&packet, direction);
    packet.packet_data = packet_data;
    Some(packet)
}

/// A copy of the voice frame that was decoded last for a client, if the
/// client is known and has one.
pub fn get_last_voice_data(app_state: &AppState, client_id: u16) -> (voice: Option<VoiceData>)
    ensures
        match voice {
            Some(v) => app_state@.last_voice(client_id) == Some(v@),
            None => app_state@.last_voice(client_id) is None,
        },
{
    app_state.last_voice_data(client_id)
}

} // verus!
