//! Wire-level declarations of the voice protocol.

use crate::wire::{
    be16_at, be16_bytes, be32_at, be32_bytes, lemma_be16_bytes_of_read, lemma_be16_round_trip,
    lemma_be32_bytes_of_read, lemma_be32_round_trip, put_bytes, read_array, read_u16_be,
    read_u32_be, u16_to_be, u32_to_be,
};
use vstd::prelude::*;
use vstd::slice::slice_to_vec;

verus! {

/// The kind of a packet, carried in the low four bits of the flag byte.
#[derive(Debug, Clone, Copy, PartialEq, Eq, Structural)]
pub enum PacketType {
    Voice,
    VoiceWhisper,
    Command,
    CommandLow,
    Ping,
    Pong,
    Ack,
    AckLow,
    Init1,
    Unknown,
}

impl PacketType {
    /// The kind that a four-bit value stands for. A value without a defined
    /// meaning is `Unknown`.
    pub open spec fn of_nibble(val: u8) -> PacketType {
        if val == 0 {
            PacketType::Voice
        } else if val == 1 {
            PacketType::VoiceWhisper
        } else if val == 2 {
            PacketType::Command
        } else if val == 3 {
            PacketType::CommandLow
        } else if val == 4 {
            PacketType::Ping
        } else if val == 5 {
            PacketType::Pong
        } else if val == 6 {
            PacketType::Ack
        } else if val == 7 {
            PacketType::AckLow
        } else if val == 8 {
            PacketType::Init1
        } else {
            PacketType::Unknown
        }
    }

    /// The number a kind is written as: its ordinal, and `0xFF` for `Unknown`.
    pub open spec fn ordinal(self) -> u8 {
        match self {
            PacketType::Voice => 0,
            PacketType::VoiceWhisper => 1,
            PacketType::Command => 2,
            PacketType::CommandLow => 3,
            PacketType::Ping => 4,
            PacketType::Pong => 5,
            PacketType::Ack => 6,
            PacketType::AckLow => 7,
            PacketType::Init1 => 8,
            PacketType::Unknown => 0xFF,
        }
    }

    /// Whether the kind is one of the nine defined ones.
    pub open spec fn is_known(self) -> bool {
        self != PacketType::Unknown
    }

    /// The number this kind is written as on the wire.
    pub fn to_u8(self) -> (b: u8)
        ensures
            b == self.ordinal(),
    {
        match self {
            PacketType::Voice => 0,
            PacketType::VoiceWhisper => 1,
            PacketType::Command => 2,
            PacketType::CommandLow => 3,
            PacketType::Ping => 4,
            PacketType::Pong => 5,
            PacketType::Ack => 6,
            PacketType::AckLow => 7,
            PacketType::Init1 => 8,
            PacketType::Unknown => 0xFF,
        }
    }
}

impl From<u8> for PacketType {
    fn from(val: u8) -> (t: Self)
        ensures
            t == PacketType::of_nibble(val),
    {
        match val {
            0x00 => PacketType::Voice,
            0x01 => PacketType::VoiceWhisper,
            0x02 => PacketType::Command,
            0x03 => PacketType::CommandLow,
            0x04 => PacketType::Ping,
            0x05 => PacketType::Pong,
            0x06 => PacketType::Ack,
            0x07 => PacketType::AckLow,
            0x08 => PacketType::Init1,
            _ => PacketType::Unknown,
        }
    }
}

impl vstd::std_specs::convert::FromSpecImpl<u8> for PacketType {
    open spec fn obeys_from_spec() -> bool {
        true
    }

    open spec fn from_spec(val: u8) -> Self {
        PacketType::of_nibble(val)
    }
}

/// The flag byte of a packet header, taken apart.
#[derive(Debug, Clone, Copy, PartialEq, Eq, Structural)]
pub struct PacketFlags {
    pub unencrypted: bool,
    pub compressed: bool,
    pub new_protocol: bool,
    pub fragmented: bool,
    pub packet_type: PacketType,
}

impl PacketFlags {
    /// The flags that a byte stands for: bit 7 unencrypted, bit 6 compressed,
    /// bit 5 new protocol, bit 4 fragmented, the low four bits the kind.
    pub open spec fn decode(byte: u8) -> PacketFlags {
        PacketFlags {
            unencrypted: byte & 0x80 != 0,
            compressed: byte & 0x40 != 0,
            new_protocol: byte & 0x20 != 0,
            fragmented: byte & 0x10 != 0,
            packet_type: PacketType::of_nibble(byte & 0x0F),
        }
    }

    /// The byte that flags are written as: the kind's number with one bit set
    /// for each flag that holds.
    pub open spec fn encode(self) -> u8 {
        self.packet_type.ordinal() | (if self.unencrypted {
            0x80u8
        } else {
            0u8
        }) | (if self.compressed {
            0x40u8
        } else {
            0u8
        }) | (if self.new_protocol {
            0x20u8
        } else {
            0u8
        }) | (if self.fragmented {
            0x10u8
        } else {
            0u8
        })
    }

    pub fn from_byte(byte: u8) -> (flags: Self)
        ensures
            flags == PacketFlags::decode(byte),
            byte & 0x0F <= 8 ==> flags.encode() == byte,
    {
        proof {
            if byte & 0x0F <= 8 {
                lemma_flags_round_trip(byte);
            }
        }
        Self {
            unencrypted: (byte & 0x80) != 0,
            compressed: (byte & 0x40) != 0,
            new_protocol: (byte & 0x20) != 0,
            fragmented: (byte & 0x10) != 0,
            packet_type: PacketType::from(byte & 0x0F),
        }
    }

    pub fn to_byte(&self) -> (byte: u8)
        ensures
            byte == self.encode(),
    {
        let mut byte: u8 = self.packet_type.to_u8();
        assert(forall|b: u8| #[trigger] (b | 0u8) == b) by (bit_vector);
        if self.unencrypted {
            byte |= 0x80;
        }
        if self.compressed {
            byte |= 0x40;
        }
        if self.new_protocol {
            byte |= 0x20;
        }
        if self.fragmented {
            byte |= 0x10;
        }
        byte
    }
}

/// A byte whose low four bits name a defined kind is written back as it was
/// read: decoding it and encoding the flags gives the byte.
pub proof fn lemma_flags_round_trip(byte: u8)
    requires
        byte & 0x0F <= 8,
    ensures
        PacketFlags::decode(byte).encode() == byte,
{
    let kind: u8 = byte & 0x0F;
    assert(PacketType::of_nibble(kind).ordinal() == kind);
    assert((kind | (if byte & 0x80 != 0 {
        0x80u8
    } else {
        0u8
    }) | (if byte & 0x40 != 0 {
        0x40u8
    } else {
        0u8
    }) | (if byte & 0x20 != 0 {
        0x20u8
    } else {
        0u8
    }) | (if byte & 0x10 != 0 {
        0x10u8
    } else {
        0u8
    })) == byte) by (bit_vector)
        requires
            kind == byte & 0x0F,
    ;
}

/// A byte whose low four bits name no defined kind is read as `Unknown`, and
/// flags of that kind are written as `0xFF`.
pub proof fn lemma_flags_of_unknown_kind(byte: u8)
    requires
        byte & 0x0F > 8,
    ensures
        PacketFlags::decode(byte).packet_type == PacketType::Unknown,
        PacketFlags::decode(byte).encode() == 0xFF,
{
    assert(forall|b: u8| #[trigger] (0xFFu8 | b) == 0xFFu8) by (bit_vector);
}

/// Flags of a defined kind are read back as they were written: encoding them
/// and decoding the byte gives the flags.
pub proof fn lemma_flags_read_back(flags: PacketFlags)
    requires
        flags.packet_type.is_known(),
    ensures
        PacketFlags::decode(flags.encode()) == flags,
{
    let kind: u8 = flags.packet_type.ordinal();
    let b7: u8 = if flags.unencrypted {
        0x80
    } else {
        0
    };
    let b6: u8 = if flags.compressed {
        0x40
    } else {
        0
    };
    let b5: u8 = if flags.new_protocol {
        0x20
    } else {
        0
    };
    let b4: u8 = if flags.fragmented {
        0x10
    } else {
        0
    };
    let byte: u8 = kind | b7 | b6 | b5 | b4;
    assert(byte == flags.encode());
    assert(byte & 0x0F == kind && ((byte & 0x80 != 0) <==> b7 == 0x80) && ((byte & 0x40 != 0) <==> b6
        == 0x40) && ((byte & 0x20 != 0) <==> b5 == 0x20) && ((byte & 0x10 != 0) <==> b4 == 0x10))
        by (bit_vector)
        requires
            byte == kind | b7 | b6 | b5 | b4,
            kind <= 8,
            b7 == 0 || b7 == 0x80,
            b6 == 0 || b6 == 0x40,
            b5 == 0 || b5 == 0x20,
            b4 == 0 || b4 == 0x10,
    ;
    assert(PacketType::of_nibble(kind) == flags.packet_type);
}

/// Why bytes could not be read as a packet.
#[derive(Debug, Clone, Copy, PartialEq, Eq, Structural)]
pub enum WireError {
    /// The bytes end before the packet does.
    UnexpectedEof,
}

/// A packet on its way to the server, with the payload as it came.
#[derive(Debug)]
pub struct ClientToServerPacket {
    pub mac: [u8; 8],
    pub packet_id: u16,
    pub client_id: u16,
    pub flags: PacketFlags,
    pub data: Vec<u8>,
}

impl Clone for ClientToServerPacket {
    fn clone(&self) -> (copy: Self)
        ensures
            copy.mac == self.mac,
            copy.packet_id == self.packet_id,
            copy.client_id == self.client_id,
            copy.flags == self.flags,
            copy.data@ == self.data@,
    {
        let data = slice_to_vec(self.data.as_slice());
        ClientToServerPacket {
            mac: self.mac,
            packet_id: self.packet_id,
            client_id: self.client_id,
            flags: self.flags,
            data,
        }
    }
}

impl ClientToServerPacket {
    /// The bytes that the packet is written as.
    pub open spec fn wire_bytes(&self) -> Seq<u8> {
        self.mac@ + be16_bytes(self.packet_id) + be16_bytes(self.client_id)
            + seq![self.flags.encode()] + self.data@
    }

    /// Whether the packet is what `bytes` are read as.
    pub open spec fn is_read_from(&self, bytes: Seq<u8>) -> bool {
        &&& self.mac@ == bytes.subrange(0, 8)
        &&& self.packet_id == be16_at(bytes, 8)
        &&& self.client_id == be16_at(bytes, 10)
        &&& self.flags == PacketFlags::decode(bytes[12])
        &&& self.data@ == bytes.subrange(13, bytes.len() as int)
    }

    /// Reads a packet from bytes that hold at least the 13 of its header.
    pub fn from_bytes(bytes: &[u8]) -> (packet: Result<Self, WireError>)
        ensures
            packet is Ok <==> bytes@.len() >= 13,
            packet matches Ok(p) ==> p.is_read_from(bytes@),
            packet matches Err(e) ==> e == WireError::UnexpectedEof,
    {
        if bytes.len() < 13 {
            return Err(WireError::UnexpectedEof);
        }
        let mac: [u8; 8] = read_array(bytes, 0);
        let packet_id = read_u16_be(&bytes[8..10]);
        let client_id = read_u16_be(&bytes[10..12]);
        let flags = PacketFlags::from_byte(bytes[12]);
        let data = slice_to_vec(&bytes[13..bytes.len()]);
        Ok(Self { mac, packet_id, client_id, flags, data })
    }

    /// Writes the packet. This cannot fail.
    pub fn to_bytes(&self) -> (bytes: Result<Vec<u8>, WireError>)
        ensures
            bytes matches Ok(b) && b@ == self.wire_bytes(),
    {
        let mut bytes: Vec<u8> = Vec::new();
        put_bytes(&mut bytes, self.mac.as_slice());
        put_bytes(&mut bytes, u16_to_be(self.packet_id).as_slice());
        put_bytes(&mut bytes, u16_to_be(self.client_id).as_slice());
        bytes.push(self.flags.to_byte());
        put_bytes(&mut bytes, self.data.as_slice());
        assert(bytes@ =~= self.wire_bytes());
        Ok(bytes)
    }
}

/// A packet on its way from the server, with the payload as it came.
#[derive(Debug)]
pub struct ServerToClientPacket {
    pub mac: [u8; 8],
    pub packet_id: u16,
    pub flags: PacketFlags,
    pub data: Vec<u8>,
}

impl Clone for ServerToClientPacket {
    fn clone(&self) -> (copy: Self)
        ensures
            copy.mac == self.mac,
            copy.packet_id == self.packet_id,
            copy.flags == self.flags,
            copy.data@ == self.data@,
    {
        let data = slice_to_vec(self.data.as_slice());
        ServerToClientPacket {
            mac: self.mac,
            packet_id: self.packet_id,
            flags: self.flags,
            data,
        }
    }
}

impl ServerToClientPacket {
    /// The bytes that the packet is written as.
    pub open spec fn wire_bytes(&self) -> Seq<u8> {
        self.mac@ + be16_bytes(self.packet_id) + seq![self.flags.encode()] + self.data@
    }

    /// Whether the packet is what `bytes` are read as.
    pub open spec fn is_read_from(&self, bytes: Seq<u8>) -> bool {
        &&& self.mac@ == bytes.subrange(0, 8)
        &&& self.packet_id == be16_at(bytes, 8)
        &&& self.flags == PacketFlags::decode(bytes[10])
        &&& self.data@ == bytes.subrange(11, bytes.len() as int)
    }

    /// Reads a packet from bytes that hold at least the 11 of its header.
    pub fn from_bytes(bytes: &[u8]) -> (packet: Result<Self, WireError>)
        ensures
            packet is Ok <==> bytes@.len() >= 11,
            packet matches Ok(p) ==> p.is_read_from(bytes@),
            packet matches Err(e) ==> e == WireError::UnexpectedEof,
    {
        if bytes.len() < 11 {
            return Err(WireError::UnexpectedEof);
        }
        let mac: [u8; 8] = read_array(bytes, 0);
        let packet_id = read_u16_be(&bytes[8..10]);
        let flags = PacketFlags::from_byte(bytes[10]);
        let data = slice_to_vec(&bytes[11..bytes.len()]);
        Ok(Self { mac, packet_id, flags, data })
    }

    /// Writes the packet. This cannot fail.
    pub fn to_bytes(&self) -> (bytes: Result<Vec<u8>, WireError>)
        ensures
            bytes matches Ok(b) && b@ == self.wire_bytes(),
    {
        let mut bytes: Vec<u8> = Vec::new();
        put_bytes(&mut bytes, self.mac.as_slice());
        put_bytes(&mut bytes, u16_to_be(self.packet_id).as_slice());
        bytes.push(self.flags.to_byte());
        put_bytes(&mut bytes, self.data.as_slice());
        assert(bytes@ =~= self.wire_bytes());
        Ok(bytes)
    }
}

/// The payload of a voice packet from a client.
#[derive(Debug)]
pub struct VoicePacketData {
    pub voice_id: u16,
    pub codec: u8,
    pub data: Vec<u8>,
}

impl Clone for VoicePacketData {
    fn clone(&self) -> (copy: Self)
        ensures
            copy.voice_id == self.voice_id,
            copy.codec == self.codec,
            copy.data@ == self.data@,
    {
        let data = slice_to_vec(self.data.as_slice());
        VoicePacketData {
            voice_id: self.voice_id,
            codec: self.codec,
            data,
        }
    }
}

/// The payload of a whisper packet.
#[derive(Debug)]
pub struct VoiceWhisperPacketData {
    pub voice_id: u16,
    pub codec: u8,
    pub data: Vec<u8>,
}

impl Clone for VoiceWhisperPacketData {
    fn clone(&self) -> (copy: Self)
        ensures
            copy.voice_id == self.voice_id,
            copy.codec == self.codec,
            copy.data@ == self.data@,
    {
        let data = slice_to_vec(self.data.as_slice());
        VoiceWhisperPacketData {
            voice_id: self.voice_id,
            codec: self.codec,
            data,
        }
    }
}

/// The payload of an acknowledgement.
#[derive(Debug)]
pub struct AckPacketData {
    pub packet_id: u16,
}

impl Clone for AckPacketData {
    fn clone(&self) -> (copy: Self)
        ensures
            copy.packet_id == self.packet_id,
    {
        AckPacketData {
            packet_id: self.packet_id,
        }
    }
}

/// Whom a group whisper is meant for.
#[derive(Debug, Clone, Copy, PartialEq, Eq, Structural)]
pub enum GroupWhisperType {
    ServerGroup,
    ChannelGroup,
    ChannelCommander,
    AllClients,
}

impl GroupWhisperType {
    /// The number this value is written as.
    pub open spec fn ordinal(self) -> u8 {
        match self {
            GroupWhisperType::ServerGroup => 0,
            GroupWhisperType::ChannelGroup => 1,
            GroupWhisperType::ChannelCommander => 2,
            GroupWhisperType::AllClients => 3,
        }
    }

    /// The number this value is written as on the wire.
    pub fn to_u8(self) -> (b: u8)
        ensures
            b == self.ordinal(),
    {
        match self {
            GroupWhisperType::ServerGroup => 0,
            GroupWhisperType::ChannelGroup => 1,
            GroupWhisperType::ChannelCommander => 2,
            GroupWhisperType::AllClients => 3,
        }
    }
}

/// Which channels a group whisper reaches.
#[derive(Debug, Clone, Copy, PartialEq, Eq, Structural)]
pub enum GroupWhisperTarget {
    AllChannels,
    CurrentChannel,
    ParentChannel,
    AllParentChannel,
    ChannelFamily,
    CompleteChannelFamily,
    Subchannels,
}

impl GroupWhisperTarget {
    /// The number this value is written as.
    pub open spec fn ordinal(self) -> u8 {
        match self {
            GroupWhisperTarget::AllChannels => 0,
            GroupWhisperTarget::CurrentChannel => 1,
            GroupWhisperTarget::ParentChannel => 2,
            GroupWhisperTarget::AllParentChannel => 3,
            GroupWhisperTarget::ChannelFamily => 4,
            GroupWhisperTarget::CompleteChannelFamily => 5,
            GroupWhisperTarget::Subchannels => 6,
        }
    }

    /// The number this value is written as on the wire.
    pub fn to_u8(self) -> (b: u8)
        ensures
            b == self.ordinal(),
    {
        match self {
            GroupWhisperTarget::AllChannels => 0,
            GroupWhisperTarget::CurrentChannel => 1,
            GroupWhisperTarget::ParentChannel => 2,
            GroupWhisperTarget::AllParentChannel => 3,
            GroupWhisperTarget::ChannelFamily => 4,
            GroupWhisperTarget::CompleteChannelFamily => 5,
            GroupWhisperTarget::Subchannels => 6,
        }
    }
}

/// The first step of the handshake, which the client sends.
#[derive(Debug)]
pub struct InitPacket0 {
    pub version: u32,
    pub step: u8,
    pub timestamp: u32,
    pub random: [u8; 4],
}

impl Clone for InitPacket0 {
    fn clone(&self) -> (copy: Self)
        ensures
            copy.version == self.version,
            copy.step == self.step,
            copy.timestamp == self.timestamp,
            copy.random == self.random,
    {
        InitPacket0 {
            version: self.version,
            step: self.step,
            timestamp: self.timestamp,
            random: self.random,
        }
    }
}

impl InitPacket0 {
    /// The bytes that the step is written as.
    pub open spec fn wire_bytes(&self) -> Seq<u8> {
        be32_bytes(self.version) + seq![self.step] + be32_bytes(self.timestamp) + self.random@
    }

    /// Whether the step is what `bytes` are read as.
    pub open spec fn is_read_from(&self, bytes: Seq<u8>) -> bool {
        &&& self.version == be32_at(bytes, 0)
        &&& self.step == bytes[4]
        &&& self.timestamp == be32_at(bytes, 5)
        &&& self.random@ == bytes.subrange(9, 13)
    }

    /// Reads the step from bytes that hold at least its 13. What follows
    /// them is not read.
    pub fn from_bytes(bytes: &[u8]) -> (packet: Result<Self, WireError>)
        ensures
            packet is Ok <==> bytes@.len() >= 13,
            packet matches Ok(p) ==> p.is_read_from(bytes@),
            packet matches Err(e) ==> e == WireError::UnexpectedEof,
    {
        if bytes.len() < 13 {
            return Err(WireError::UnexpectedEof);
        }
        let version = read_u32_be(&bytes[0..4]);
        let step = bytes[4];
        let timestamp = read_u32_be(&bytes[5..9]);
        let random: [u8; 4] = read_array(bytes, 9);
        Ok(Self { version, step, timestamp, random })
    }

    /// Writes the step. This cannot fail.
    pub fn to_bytes(&self) -> (bytes: Result<Vec<u8>, WireError>)
        ensures
            bytes matches Ok(b) && b@ == self.wire_bytes(),
    {
        let mut bytes: Vec<u8> = Vec::new();
        put_bytes(&mut bytes, u32_to_be(self.version).as_slice());
        bytes.push(self.step);
        put_bytes(&mut bytes, u32_to_be(self.timestamp).as_slice());
        put_bytes(&mut bytes, self.random.as_slice());
        assert(bytes@ =~= self.wire_bytes());
        Ok(bytes)
    }
}

/// The second step of the handshake, which the server sends.
#[derive(Debug)]
pub struct InitPacket1 {
    pub step: u8,
    pub server_stuff: [u8; 16],
    pub random_reversed: [u8; 4],
}

impl Clone for InitPacket1 {
    fn clone(&self) -> (copy: Self)
        ensures
            copy.step == self.step,
            copy.server_stuff == self.server_stuff,
            copy.random_reversed == self.random_reversed,
    {
        InitPacket1 {
            step: self.step,
            server_stuff: self.server_stuff,
            random_reversed: self.random_reversed,
        }
    }
}

impl InitPacket1 {
    /// The bytes that the step is written as.
    pub open spec fn wire_bytes(&self) -> Seq<u8> {
        seq![self.step] + self.server_stuff@ + self.random_reversed@
    }

    /// Whether the step is what `bytes` are read as.
    pub open spec fn is_read_from(&self, bytes: Seq<u8>) -> bool {
        &&& self.step == bytes[0]
        &&& self.server_stuff@ == bytes.subrange(1, 17)
        &&& self.random_reversed@ == bytes.subrange(17, 21)
    }

    /// Reads the step from bytes that hold at least its 21. What follows
    /// them is not read.
    pub fn from_bytes(bytes: &[u8]) -> (packet: Result<Self, WireError>)
        ensures
            packet is Ok <==> bytes@.len() >= 21,
            packet matches Ok(p) ==> p.is_read_from(bytes@),
            packet matches Err(e) ==> e == WireError::UnexpectedEof,
    {
        if bytes.len() < 21 {
            return Err(WireError::UnexpectedEof);
        }
        let step = bytes[0];
        let server_stuff: [u8; 16] = read_array(bytes, 1);
        let random_reversed: [u8; 4] = read_array(bytes, 17);
        Ok(Self { step, server_stuff, random_reversed })
    }

    /// Writes the step. This cannot fail.
    pub fn to_bytes(&self) -> (bytes: Result<Vec<u8>, WireError>)
        ensures
            bytes matches Ok(b) && b@ == self.wire_bytes(),
    {
        let mut bytes: Vec<u8> = Vec::new();
        bytes.push(self.step);
        put_bytes(&mut bytes, self.server_stuff.as_slice());
        put_bytes(&mut bytes, self.random_reversed.as_slice());
        assert(bytes@ =~= self.wire_bytes());
        Ok(bytes)
    }
}

/// The third step of the handshake, which the client sends.
#[derive(Debug)]
pub struct InitPacket2 {
    pub version: u32,
    pub step: u8,
    pub server_stuff: [u8; 16],
    pub random_reversed: [u8; 4],
}

impl Clone for InitPacket2 {
    fn clone(&self) -> (copy: Self)
        ensures
            copy.version == self.version,
            copy.step == self.step,
            copy.server_stuff == self.server_stuff,
            copy.random_reversed == self.random_reversed,
    {
        InitPacket2 {
            version: self.version,
            step: self.step,
            server_stuff: self.server_stuff,
            random_reversed: self.random_reversed,
        }
    }
}

impl InitPacket2 {
    /// The bytes that the step is written as.
    pub open spec fn wire_bytes(&self) -> Seq<u8> {
        be32_bytes(self.version) + seq![self.step] + self.server_stuff@ + self.random_reversed@
    }

    /// Whether the step is what `bytes` are read as.
    pub open spec fn is_read_from(&self, bytes: Seq<u8>) -> bool {
        &&& self.version == be32_at(bytes, 0)
        &&& self.step == bytes[4]
        &&& self.server_stuff@ == bytes.subrange(5, 21)
        &&& self.random_reversed@ == bytes.subrange(21, 25)
    }

    /// Reads the step from bytes that hold at least its 25. What follows
    /// them is not read.
    pub fn from_bytes(bytes: &[u8]) -> (packet: Result<Self, WireError>)
        ensures
            packet is Ok <==> bytes@.len() >= 25,
            packet matches Ok(p) ==> p.is_read_from(bytes@),
            packet matches Err(e) ==> e == WireError::UnexpectedEof,
    {
        if bytes.len() < 25 {
            return Err(WireError::UnexpectedEof);
        }
        let version = read_u32_be(&bytes[0..4]);
        let step = bytes[4];
        let server_stuff: [u8; 16] = read_array(bytes, 5);
        let random_reversed: [u8; 4] = read_array(bytes, 21);
        Ok(Self { version, step, server_stuff, random_reversed })
    }

    /// Writes the step. This cannot fail.
    pub fn to_bytes(&self) -> (bytes: Result<Vec<u8>, WireError>)
        ensures
            bytes matches Ok(b) && b@ == self.wire_bytes(),
    {
        let mut bytes: Vec<u8> = Vec::new();
        put_bytes(&mut bytes, u32_to_be(self.version).as_slice());
        bytes.push(self.step);
        put_bytes(&mut bytes, self.server_stuff.as_slice());
        put_bytes(&mut bytes, self.random_reversed.as_slice());
        assert(bytes@ =~= self.wire_bytes());
        Ok(bytes)
    }
}

/// The fourth step of the handshake, which the server sends.
#[derive(Debug)]
pub struct InitPacket3 {
    pub step: u8,
    pub x: [u8; 64],
    pub n: [u8; 64],
    pub level: u32,
    pub server_stuff: [u8; 100],
}

impl Clone for InitPacket3 {
    fn clone(&self) -> (copy: Self)
        ensures
            copy.step == self.step,
            copy.x == self.x,
            copy.n == self.n,
            copy.level == self.level,
            copy.server_stuff == self.server_stuff,
    {
        InitPacket3 {
            step: self.step,
            x: self.x,
            n: self.n,
            level: self.level,
            server_stuff: self.server_stuff,
        }
    }
}

impl InitPacket3 {
    /// The bytes that the step is written as.
    pub open spec fn wire_bytes(&self) -> Seq<u8> {
        seq![self.step] + self.x@ + self.n@ + be32_bytes(self.level) + self.server_stuff@
    }

    /// Whether the step is what `bytes` are read as.
    pub open spec fn is_read_from(&self, bytes: Seq<u8>) -> bool {
        &&& self.step == bytes[0]
        &&& self.x@ == bytes.subrange(1, 65)
        &&& self.n@ == bytes.subrange(65, 129)
        &&& self.level == be32_at(bytes, 129)
        &&& self.server_stuff@ == bytes.subrange(133, 233)
    }

    /// Reads the step from bytes that hold at least its 233. What follows
    /// them is not read.
    pub fn from_bytes(bytes: &[u8]) -> (packet: Result<Self, WireError>)
        ensures
            packet is Ok <==> bytes@.len() >= 233,
            packet matches Ok(p) ==> p.is_read_from(bytes@),
            packet matches Err(e) ==> e == WireError::UnexpectedEof,
    {
        if bytes.len() < 233 {
            return Err(WireError::UnexpectedEof);
        }
        let step = bytes[0];
        let x: [u8; 64] = read_array(bytes, 1);
        let n: [u8; 64] = read_array(bytes, 65);
        let level = read_u32_be(&bytes[129..133]);
        let server_stuff: [u8; 100] = read_array(bytes, 133);
        Ok(Self { step, x, n, level, server_stuff })
    }

    /// Writes the step. This cannot fail.
    pub fn to_bytes(&self) -> (bytes: Result<Vec<u8>, WireError>)
        ensures
            bytes matches Ok(b) && b@ == self.wire_bytes(),
    {
        let mut bytes: Vec<u8> = Vec::new();
        bytes.push(self.step);
        put_bytes(&mut bytes, self.x.as_slice());
        put_bytes(&mut bytes, self.n.as_slice());
        put_bytes(&mut bytes, u32_to_be(self.level).as_slice());
        put_bytes(&mut bytes, self.server_stuff.as_slice());
        assert(bytes@ =~= self.wire_bytes());
        Ok(bytes)
    }
}

/// The fifth step of the handshake, which the client sends.
#[derive(Debug)]
pub struct InitPacket4 {
    pub version: u32,
    pub step: u8,
    pub x: [u8; 64],
    pub n: [u8; 64],
    pub level: u32,
    pub server_stuff: [u8; 100],
    pub y: [u8; 64],
    pub client_init_iv_data: Vec<u8>,
}

impl Clone for InitPacket4 {
    fn clone(&self) -> (copy: Self)
        ensures
            copy.version == self.version,
            copy.step == self.step,
            copy.x == self.x,
            copy.n == self.n,
            copy.level == self.level,
            copy.server_stuff == self.server_stuff,
            copy.y == self.y,
            copy.client_init_iv_data@ == self.client_init_iv_data@,
    {
        let client_init_iv_data = slice_to_vec(self.client_init_iv_data.as_slice());
        InitPacket4 {
            version: self.version,
            step: self.step,
            x: self.x,
            n: self.n,
            level: self.level,
            server_stuff: self.server_stuff,
            y: self.y,
            client_init_iv_data,
        }
    }
}

impl InitPacket4 {
    /// The bytes that the step is written as.
    pub open spec fn wire_bytes(&self) -> Seq<u8> {
        be32_bytes(self.version) + seq![self.step] + self.x@ + self.n@ + be32_bytes(self.level)
            + self.server_stuff@ + self.y@ + self.client_init_iv_data@
    }

    /// Whether the step is what `bytes` are read as.
    pub open spec fn is_read_from(&self, bytes: Seq<u8>) -> bool {
        &&& self.version == be32_at(bytes, 0)
        &&& self.step == bytes[4]
        &&& self.x@ == bytes.subrange(5, 69)
        &&& self.n@ == bytes.subrange(69, 133)
        &&& self.level == be32_at(bytes, 133)
        &&& self.server_stuff@ == bytes.subrange(137, 237)
        &&& self.y@ == bytes.subrange(237, 301)
        &&& self.client_init_iv_data@ == bytes.subrange(301, bytes.len() as int)
    }

    /// Reads the step from bytes that hold at least the 301 of its fixed
    /// part. All that follows them is the step's last field.
    pub fn from_bytes(bytes: &[u8]) -> (packet: Result<Self, WireError>)
        ensures
            packet is Ok <==> bytes@.len() >= 301,
            packet matches Ok(p) ==> p.is_read_from(bytes@),
            packet matches Err(e) ==> e == WireError::UnexpectedEof,
    {
        if bytes.len() < 301 {
            return Err(WireError::UnexpectedEof);
        }
        let version = read_u32_be(&bytes[0..4]);
        let step = bytes[4];
        let x: [u8; 64] = read_array(bytes, 5);
        let n: [u8; 64] = read_array(bytes, 69);
        let level = read_u32_be(&bytes[133..137]);
        let server_stuff: [u8; 100] = read_array(bytes, 137);
        let y: [u8; 64] = read_array(bytes, 237);
        let client_init_iv_data = slice_to_vec(&bytes[301..bytes.len()]);
        Ok(Self { version, step, x, n, level, server_stuff, y, client_init_iv_data })
    }

    /// Writes the step. This cannot fail.
    pub fn to_bytes(&self) -> (bytes: Result<Vec<u8>, WireError>)
        ensures
            bytes matches Ok(b) && b@ == self.wire_bytes(),
    {
        let mut bytes: Vec<u8> = Vec::new();
        put_bytes(&mut bytes, u32_to_be(self.version).as_slice());
        bytes.push(self.step);
        put_bytes(&mut bytes, self.x.as_slice());
        put_bytes(&mut bytes, self.n.as_slice());
        put_bytes(&mut bytes, u32_to_be(self.level).as_slice());
        put_bytes(&mut bytes, self.server_stuff.as_slice());
        put_bytes(&mut bytes, self.y.as_slice());
        put_bytes(&mut bytes, self.client_init_iv_data.as_slice());
        assert(bytes@ =~= self.wire_bytes());
        Ok(bytes)
    }
}

/// A packet to the server whose kind is a defined one is read back from the
/// bytes it is written as.
pub proof fn lemma_client_to_server_read_back(packet: ClientToServerPacket)
    requires
        packet.flags.packet_type.is_known(),
    ensures
        packet.wire_bytes().len() >= 13,
        packet.is_read_from(packet.wire_bytes()),
{
    let bytes = packet.wire_bytes();
    lemma_be16_round_trip(packet.packet_id);
    lemma_be16_round_trip(packet.client_id);
    lemma_flags_read_back(packet.flags);
    assert(bytes.subrange(0, 8) =~= packet.mac@);
    assert(bytes.subrange(8, 10) =~= be16_bytes(packet.packet_id));
    assert(bytes.subrange(10, 12) =~= be16_bytes(packet.client_id));
    assert(bytes[12] == packet.flags.encode());
    assert(bytes.subrange(13, bytes.len() as int) =~= packet.data@);
}

/// A packet from the server whose kind is a defined one is read back from
/// the bytes it is written as.
pub proof fn lemma_server_to_client_read_back(packet: ServerToClientPacket)
    requires
        packet.flags.packet_type.is_known(),
    ensures
        packet.wire_bytes().len() >= 11,
        packet.is_read_from(packet.wire_bytes()),
{
    let bytes = packet.wire_bytes();
    lemma_be16_round_trip(packet.packet_id);
    lemma_flags_read_back(packet.flags);
    assert(bytes.subrange(0, 8) =~= packet.mac@);
    assert(bytes.subrange(8, 10) =~= be16_bytes(packet.packet_id));
    assert(bytes[10] == packet.flags.encode());
    assert(bytes.subrange(11, bytes.len() as int) =~= packet.data@);
}

/// Each step of the handshake is read back from the bytes it is written as.
pub proof fn lemma_init_steps_read_back(
    step0: InitPacket0,
    step1: InitPacket1,
    step2: InitPacket2,
    step3: InitPacket3,
    step4: InitPacket4,
)
    ensures
        step0.wire_bytes().len() == 13 && step0.is_read_from(step0.wire_bytes()),
        step1.wire_bytes().len() == 21 && step1.is_read_from(step1.wire_bytes()),
        step2.wire_bytes().len() == 25 && step2.is_read_from(step2.wire_bytes()),
        step3.wire_bytes().len() == 233 && step3.is_read_from(step3.wire_bytes()),
        step4.wire_bytes().len() >= 301 && step4.is_read_from(step4.wire_bytes()),
{
    assert(step0.wire_bytes().len() == 13 && step0.is_read_from(step0.wire_bytes())) by {
        let bytes = step0.wire_bytes();
        lemma_be32_round_trip(step0.version);
        lemma_be32_round_trip(step0.timestamp);
        assert(bytes.subrange(0, 4) =~= be32_bytes(step0.version));
        assert(bytes.subrange(5, 9) =~= be32_bytes(step0.timestamp));
        assert(bytes.subrange(9, 13) =~= step0.random@);
    }
    assert(step1.wire_bytes().len() == 21 && step1.is_read_from(step1.wire_bytes())) by {
        let bytes = step1.wire_bytes();
        assert(bytes.subrange(1, 17) =~= step1.server_stuff@);
        assert(bytes.subrange(17, 21) =~= step1.random_reversed@);
    }
    assert(step2.wire_bytes().len() == 25 && step2.is_read_from(step2.wire_bytes())) by {
        let bytes = step2.wire_bytes();
        lemma_be32_round_trip(step2.version);
        assert(bytes.subrange(0, 4) =~= be32_bytes(step2.version));
        assert(bytes.subrange(5, 21) =~= step2.server_stuff@);
        assert(bytes.subrange(21, 25) =~= step2.random_reversed@);
    }
    assert(step3.wire_bytes().len() == 233 && step3.is_read_from(step3.wire_bytes())) by {
        let bytes = step3.wire_bytes();
        lemma_be32_round_trip(step3.level);
        assert(bytes.subrange(1, 65) =~= step3.x@);
        assert(bytes.subrange(65, 129) =~= step3.n@);
        assert(bytes.subrange(129, 133) =~= be32_bytes(step3.level));
        assert(bytes.subrange(133, 233) =~= step3.server_stuff@);
    }
    assert(step4.wire_bytes().len() >= 301 && step4.is_read_from(step4.wire_bytes())) by {
        let bytes = step4.wire_bytes();
        lemma_be32_round_trip(step4.version);
        lemma_be32_round_trip(step4.level);
        assert(bytes.subrange(0, 4) =~= be32_bytes(step4.version));
        assert(bytes.subrange(5, 69) =~= step4.x@);
        assert(bytes.subrange(69, 133) =~= step4.n@);
        assert(bytes.subrange(133, 137) =~= be32_bytes(step4.level));
        assert(bytes.subrange(137, 237) =~= step4.server_stuff@);
        assert(bytes.subrange(237, 301) =~= step4.y@);
        assert(bytes.subrange(301, bytes.len() as int) =~= step4.client_init_iv_data@);
    }
}

/// A packet to the server is written as the bytes it was read from, where
/// their flag byte names a defined kind.
pub proof fn lemma_client_to_server_write_back(packet: ClientToServerPacket, bytes: Seq<u8>)
    requires
        bytes.len() >= 13,
        bytes[12] & 0x0F <= 8,
        packet.is_read_from(bytes),
    ensures
        packet.wire_bytes() == bytes,
{
    lemma_be16_bytes_of_read(bytes[8], bytes[9]);
    lemma_be16_bytes_of_read(bytes[10], bytes[11]);
    lemma_flags_round_trip(bytes[12]);
    assert(packet.wire_bytes() =~= bytes);
}

/// A packet from the server is written as the bytes it was read from, where
/// their flag byte names a defined kind.
pub proof fn lemma_server_to_client_write_back(packet: ServerToClientPacket, bytes: Seq<u8>)
    requires
        bytes.len() >= 11,
        bytes[10] & 0x0F <= 8,
        packet.is_read_from(bytes),
    ensures
        packet.wire_bytes() == bytes,
{
    lemma_be16_bytes_of_read(bytes[8], bytes[9]);
    lemma_flags_round_trip(bytes[10]);
    assert(packet.wire_bytes() =~= bytes);
}

/// The first step of the handshake is written as the 13 bytes it was read
/// from.
pub proof fn lemma_init0_write_back(step: InitPacket0, bytes: Seq<u8>)
    requires
        bytes.len() == 13,
        step.is_read_from(bytes),
    ensures
        step.wire_bytes() == bytes,
{
    lemma_be32_bytes_of_read(bytes[0], bytes[1], bytes[2], bytes[3]);
    lemma_be32_bytes_of_read(bytes[5], bytes[6], bytes[7], bytes[8]);
    assert(step.wire_bytes() =~= bytes);
}

/// The second step of the handshake is written as the 21 bytes it was read
/// from.
pub proof fn lemma_init1_write_back(step: InitPacket1, bytes: Seq<u8>)
    requires
        bytes.len() == 21,
        step.is_read_from(bytes),
    ensures
        step.wire_bytes() == bytes,
{
    assert(step.wire_bytes() =~= bytes);
}

/// The third step of the handshake is written as the 25 bytes it was read
/// from.
pub proof fn lemma_init2_write_back(step: InitPacket2, bytes: Seq<u8>)
    requires
        bytes.len() == 25,
        step.is_read_from(bytes),
    ensures
        step.wire_bytes() == bytes,
{
    lemma_be32_bytes_of_read(bytes[0], bytes[1], bytes[2], bytes[3]);
    assert(step.wire_bytes() =~= bytes);
}

/// The fourth step of the handshake is written as the 233 bytes it was read
/// from.
pub proof fn lemma_init3_write_back(step: InitPacket3, bytes: Seq<u8>)
    requires
        bytes.len() == 233,
        step.is_read_from(bytes),
    ensures
        step.wire_bytes() == bytes,
{
    lemma_be32_bytes_of_read(bytes[129], bytes[130], bytes[131], bytes[132]);
    assert(step.wire_bytes() =~= bytes);
}

/// The fifth step of the handshake is written as the bytes it was read from.
pub proof fn lemma_init4_write_back(step: InitPacket4, bytes: Seq<u8>)
    requires
        bytes.len() >= 301,
        step.is_read_from(bytes),
    ensures
        step.wire_bytes() == bytes,
{
    lemma_be32_bytes_of_read(bytes[0], bytes[1], bytes[2], bytes[3]);
    lemma_be32_bytes_of_read(bytes[133], bytes[134], bytes[135], bytes[136]);
    assert(step.wire_bytes() =~= bytes);
}

} // verus!
