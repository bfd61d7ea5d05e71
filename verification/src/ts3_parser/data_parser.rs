//! Payload decoding: what a packet carries after its header, by kind and
//! direction.

use crate::ts3_parser::ts_declarations::PacketType;
use crate::wire::{be16_at, read_u16_be};
use crate::ts3_parser::{PacketDirection, Ts3Packet};
use vstd::prelude::*;
use vstd::slice::slice_to_vec;
use vstd::utf8::{decode_utf8, valid_utf8};

verus! {

/// A decoded payload.
#[derive(Debug)]
pub enum PacketData {
    Voice(VoiceData),
    VoiceWhisper(VoiceWhisperData),
    Command(CommandData),
    Ping(PingData),
    Init1(Init1Data),
}

/// One frame of voice.
#[derive(Debug)]
pub struct VoiceData {
    /// The speaker, which only the server writes into the payload.
    pub client_id: Option<u16>,
    pub voice_id: u16,
    pub codec: u8,
    pub raw_data: Vec<u8>,
}

#[derive(Debug)]
pub struct VoiceWhisperData {
    pub raw_data: Vec<u8>,
}

#[derive(Debug)]
pub struct CommandData {
    pub command: String,
}

#[derive(Debug)]
pub struct PingData {
    pub raw_data: Vec<u8>,
}

#[derive(Debug)]
pub struct Init1Data {
    pub raw_data: Vec<u8>,
}

/// What a `VoiceData` holds, as plain values.
pub struct VoiceDataView {
    pub client_id: Option<u16>,
    pub voice_id: u16,
    pub codec: u8,
    pub raw_data: Seq<u8>,
}

/// What a `PacketData` holds, as plain values.
pub enum PacketDataView {
    Voice(VoiceDataView),
    VoiceWhisper { raw_data: Seq<u8> },
    Command { text: Seq<char> },
    Ping { raw_data: Seq<u8> },
    Init1 { raw_data: Seq<u8> },
}

impl View for VoiceData {
    type V = VoiceDataView;

    open spec fn view(&self) -> VoiceDataView {
        VoiceDataView {
            client_id: self.client_id,
            voice_id: self.voice_id,
            codec: self.codec,
            raw_data: self.raw_data@,
        }
    }
}

impl View for PacketData {
    type V = PacketDataView;

    open spec fn view(&self) -> PacketDataView {
        match self {
            PacketData::Voice(v) => PacketDataView::Voice(v@),
            PacketData::VoiceWhisper(w) => PacketDataView::VoiceWhisper { raw_data: w.raw_data@ },
            PacketData::Command(c) => PacketDataView::Command { text: c.command@ },
            PacketData::Ping(p) => PacketDataView::Ping { raw_data: p.raw_data@ },
            PacketData::Init1(i) => PacketDataView::Init1 { raw_data: i.raw_data@ },
        }
    }
}

impl Clone for VoiceData {
    fn clone(&self) -> (copy: Self)
        ensures
            copy@ == self@,
    {
        let raw_data = self.raw_data.clone();
        assert(raw_data@ =~= self.raw_data@);
        VoiceData {
            client_id: self.client_id,
            voice_id: self.voice_id,
            codec: self.codec,
            raw_data,
        }
    }
}

/// The text that `String::from_utf8_lossy` makes of `bytes`.
pub uninterp spec fn utf8_lossy(bytes: Seq<u8>) -> Seq<char>;

/// The voice frame in a payload. The server writes the speaker's id, the
/// frame's id and the codec before the audio, a client only the frame's id
/// and the codec. A payload too short for these holds no frame.
pub open spec fn voice_payload(direction: PacketDirection, payload: Seq<u8>) -> Option<
    VoiceDataView,
> {
    match direction {
        PacketDirection::ServerToClient => if payload.len() >= 5 {
            Some(
                VoiceDataView {
                    client_id: Some(be16_at(payload, 0)),
                    voice_id: be16_at(payload, 2),
                    codec: payload[4],
                    raw_data: payload.subrange(5, payload.len() as int),
                },
            )
        } else {
            None
        },
        PacketDirection::ClientToServer => if payload.len() >= 3 {
            Some(
                VoiceDataView {
                    client_id: None,
                    voice_id: be16_at(payload, 0),
                    codec: payload[2],
                    raw_data: payload.subrange(3, payload.len() as int),
                },
            )
        } else {
            None
        },
    }
}

/// What a payload decodes to, by the packet's kind and direction. Whisper,
/// ping and handshake payloads are kept as they are, a command is read as
/// text, and the other kinds are not decoded.
pub open spec fn packet_payload(
    packet_type: PacketType,
    direction: PacketDirection,
    payload: Seq<u8>,
) -> Option<PacketDataView> {
    match packet_type {
        PacketType::Voice => match voice_payload(direction, payload) {
            Some(voice) => Some(PacketDataView::Voice(voice)),
            None => None,
        },
        PacketType::VoiceWhisper => Some(PacketDataView::VoiceWhisper { raw_data: payload }),
        PacketType::Command | PacketType::CommandLow => Some(
            PacketDataView::Command { text: utf8_lossy(payload) },
        ),
        PacketType::Ping => Some(PacketDataView::Ping { raw_data: payload }),
        PacketType::Init1 => Some(PacketDataView::Init1 { raw_data: payload }),
        PacketType::Pong | PacketType::Ack | PacketType::AckLow | PacketType::Unknown => None,
    }
}

/// `String::from_utf8_lossy`, with the result owned: the text of `bytes`,
/// where each invalid sequence is replaced. The two agree on what the text
/// is; of valid UTF-8 it is the decoded text.
#[verifier::external_body]
fn lossy_text(bytes: &[u8]) -> (text: String)
    ensures
        text@ == utf8_lossy(bytes@),
        valid_utf8(bytes@) ==> text@ == decode_utf8(bytes@),
{
    String::from_utf8_lossy(bytes).into_owned()
}

/// Decodes the voice frame of a payload.
pub fn parse_voice_data(payload: &[u8], direction: PacketDirection) -> (voice: Option<VoiceData>)
    ensures
        voice is Some <==> payload@.len() >= (match direction {
            PacketDirection::ServerToClient => 5nat,
            PacketDirection::ClientToServer => 3nat,
        }),
        match voice {
            Some(v) => voice_payload(direction, payload@) == Some(v@),
            None => voice_payload(direction, payload@) is None,
        },
{
    match direction {
        PacketDirection::ServerToClient => {
            if payload.len() < 5 {
                return None;
            }
            let client_id = read_u16_be(&payload[0..2]);
            let voice_id = read_u16_be(&payload[2..4]);
            let codec = payload[4];
            let raw_data = slice_to_vec(&payload[5..payload.len()]);
            Some(VoiceData { client_id: Some(client_id), voice_id, codec, raw_data })
        },
        PacketDirection::ClientToServer => {
            if payload.len() < 3 {
                return None;
            }
            let voice_id = read_u16_be(&payload[0..2]);
            let codec = payload[2];
            let raw_data = slice_to_vec(&payload[3..payload.len()]);
            Some(VoiceData { client_id: None, voice_id, codec, raw_data })
        },
    }
}

/// The payload of a command packet whose text is `text`.
pub fn command_payload(text: String) -> (payload: PacketData)
    ensures
        payload@ == (PacketDataView::Command { text: text@ }),
{
    PacketData::Command(CommandData { command: text })
}

/// Decodes the payload of a packet whose header is already read.
pub fn parse_packet_data(packet: &Ts3Packet, direction: PacketDirection) -> (payload: Option<
    PacketData,
>)
    ensures
        match payload {
            Some(p) => packet_payload(packet.header.flags.packet_type, direction, packet.data@)
                == Some(p@),
            None => packet_payload(packet.header.flags.packet_type, direction, packet.data@)
                is None,
        },
{
    match packet.header.flags.packet_type {
        PacketType::Voice => match parse_voice_data(packet.data.as_slice(), direction) {
            Some(voice) => Some(PacketData::Voice(voice)),
            None => None,
        },
        PacketType::VoiceWhisper => Some(
            PacketData::VoiceWhisper(
                VoiceWhisperData { raw_data: slice_to_vec(packet.data.as_slice()) },
            ),
        ),
        PacketType::Command | PacketType::CommandLow => Some(
            command_payload(lossy_text(packet.data.as_slice())),
        ),
        PacketType::Ping => Some(
            PacketData::Ping(PingData { raw_data: slice_to_vec(packet.data.as_slice()) }),
        ),
        PacketType::Init1 => Some(
            PacketData::Init1(Init1Data { raw_data: slice_to_vec(packet.data.as_slice()) }),
        ),
        _ => None,
    }
}

} // verus!
