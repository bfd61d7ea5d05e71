//! What one captured frame does: from the frame to the packet it carries, and
//! from a voice packet to the store.

use crate::network::udp_parser::{datagram_of, parse_udp_packet, Linktype, UdpPacket};
use crate::state_manager::app_state::{AppState, AppStateView};
use crate::ts3_parser::data_parser::{PacketData, PacketDataView, VoiceData, VoiceDataView};
use crate::ts3_parser::ts_declarations::PacketType;
use crate::ts3_parser::{packet_of, parse_ts3_packet, PacketDirection, Ts3Packet, Ts3PacketView};
use vstd::prelude::*;

verus! {

/// The UDP port of the voice service.
pub const TS3_VOICE_PORT: u16 = 9987;

/// The direction of a datagram with these ports: towards the server if it
/// goes to the voice port, from the server if it comes from there, and
/// neither otherwise.
pub open spec fn direction_of(src_port: u16, dest_port: u16) -> Option<PacketDirection> {
    if dest_port == TS3_VOICE_PORT {
        Some(PacketDirection::ClientToServer)
    } else if src_port == TS3_VOICE_PORT {
        Some(PacketDirection::ServerToClient)
    } else {
        None
    }
}

/// The packet that a frame carries, with its direction: the frame must hold
/// a datagram, one of the datagram's ports must be the voice port, and the
/// payload must hold the direction's header.
pub open spec fn frame_packet(frame: Seq<u8>, link_type: Linktype) -> Option<
    (PacketDirection, Ts3PacketView),
> {
    match datagram_of(frame, link_type) {
        Some(datagram) => match direction_of(datagram.src_port, datagram.dest_port) {
            Some(direction) => match packet_of(datagram.payload, direction) {
                Some(packet) => Some((direction, packet)),
                None => None,
            },
            None => None,
        },
        None => None,
    }
}

/// The voice frame that a packet brings and the client that spoke it. Only a
/// voice packet whose payload was decoded brings one. The speaker is the
/// client of the header on the way to the server, and the client of the
/// payload on the way back.
pub open spec fn voice_of(packet: Ts3PacketView, direction: PacketDirection) -> Option<
    (u16, VoiceDataView),
> {
    if packet.header.flags.packet_type != PacketType::Voice {
        None
    } else {
        match packet.packet_data {
            Some(PacketDataView::Voice(voice)) => {
                let speaker = match direction {
                    PacketDirection::ClientToServer => packet.header.client_id,
                    PacketDirection::ServerToClient => voice.client_id,
                };
                match speaker {
                    Some(id) => Some((id, voice)),
                    None => None,
                }
            },
            _ => None,
        }
    }
}

/// The store after a packet was seen: a voice frame is taken note of under
/// its speaker, and every other packet leaves the store as it is.
pub open spec fn state_after_packet(
    state: AppStateView,
    packet: Ts3PacketView,
    direction: PacketDirection,
) -> AppStateView {
    match voice_of(packet, direction) {
        Some((id, voice)) => state.observe_voice(id, voice),
        None => state,
    }
}

/// The store after a frame was captured. A frame that carries no packet
/// leaves the store as it is.
pub open spec fn state_after_frame(
    state: AppStateView,
    frame: Seq<u8>,
    link_type: Linktype,
) -> AppStateView {
    match frame_packet(frame, link_type) {
        Some((direction, packet)) => state_after_packet(state, packet, direction),
        None => state,
    }
}

/// Tells the direction of a datagram by its ports.
pub fn classify_direction(datagram: &UdpPacket) -> (direction: Option<PacketDirection>)
    ensures
        direction == direction_of(datagram.src_port, datagram.dest_port),
        direction is None <==> datagram.dest_port != TS3_VOICE_PORT && datagram.src_port
            != TS3_VOICE_PORT,
{
    if datagram.dest_port == TS3_VOICE_PORT {
        Some(PacketDirection::ClientToServer)
    } else if datagram.src_port == TS3_VOICE_PORT {
        Some(PacketDirection::ServerToClient)
    } else {
        None
    }
}

/// Decodes a captured frame down to the packet it carries. The store is not
/// needed for this.
pub fn decode_frame(data: &[u8], link_type: Linktype) -> (decoded: Option<
    (PacketDirection, Ts3Packet),
>)
    ensures
        match decoded {
            Some((direction, packet)) => frame_packet(data@, link_type) == Some(
                (direction, packet@),
            ),
            None => frame_packet(data@, link_type) is None,
        },
        (datagram_of(data@, link_type) matches Some(d) && direction_of(d.src_port, d.dest_port)
            is None) ==> decoded is None,
{
    let datagram = match parse_udp_packet(data, link_type) {
        Some(datagram) => datagram,
        None => { return None; },
    };
    let direction = match classify_direction(&datagram) {
        Some(direction) => direction,
        None => { return None; },
    };
    match parse_ts3_packet(datagram.payload.as_slice(), direction) {
        Some(packet) => Some((direction, packet)),
        None => None,
    }
}

/// The voice frame that a packet brings, with its speaker.
pub fn observed_voice(packet: &Ts3Packet, direction: PacketDirection) -> (observed: Option<
    (u16, VoiceData),
>)
    ensures
        match observed {
            Some((id, voice)) => voice_of(packet@, direction) == Some((id, voice@)),
            None => voice_of(packet@, direction) is None,
        },
{
    if packet.header.flags.packet_type != PacketType::Voice {
        return None;
    }
    match &packet.packet_data {
        Some(PacketData::Voice(voice)) => {
            let speaker = match direction {
                PacketDirection::ClientToServer => packet.header.client_id,
                PacketDirection::ServerToClient => voice.client_id,
            };
            match speaker {
                Some(id) => Some((id, voice.clone())),
                None => None,
            }
        },
        _ => None,
    }
}

/// Brings the store up to date with a packet that was decoded.
pub fn apply_packet(app_state: &mut AppState, packet: &Ts3Packet, direction: PacketDirection)
    ensures
        final(app_state)@ == state_after_packet(old(app_state)@, packet@, direction),
        old(app_state)@.well_formed() ==> final(app_state)@.well_formed(),
{
    match observed_voice(packet, direction) {
        Some((id, voice)) => app_state.observe_voice(id, voice),
        None => {},
    }
}

/// Handles one captured frame: decodes it and brings the store up to date.
/// The packet is handed back for whoever wants to report it.
pub fn handle_packet(data: &[u8], link_type: Linktype, app_state: &mut AppState) -> (decoded:
    Option<(PacketDirection, Ts3Packet)>)
    ensures
        match decoded {
            Some((direction, packet)) => frame_packet(data@, link_type) == Some(
                (direction, packet@),
            ),
            None => frame_packet(data@, link_type) is None,
        },
        final(app_state)@ == state_after_frame(old(app_state)@, data@, link_type),
        decoded is None ==> final(app_state)@ == old(app_state)@,
        (datagram_of(data@, link_type) matches Some(d) && direction_of(d.src_port, d.dest_port)
            is None) ==> decoded is None,
        old(app_state)@.well_formed() ==> final(app_state)@.well_formed(),
{
    let decoded = decode_frame(data, link_type);
    match &decoded {
        Some((direction, packet)) => apply_packet(app_state, packet, *direction),
        None => {},
    }
    decoded
}

} // verus!
