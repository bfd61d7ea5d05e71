use hooker::ts3_parser::ts_declarations::{
    GroupWhisperTarget, GroupWhisperType, PacketFlags, PacketType,
};

#[test]
fn flags_of_a_plain_voice_byte() {
    let flags = PacketFlags::from_byte(0x80);
    assert!(flags.unencrypted);
    assert!(!flags.compressed);
    assert!(!flags.new_protocol);
    assert!(!flags.fragmented);
    assert_eq!(flags.packet_type, PacketType::Voice);
    assert_eq!(flags.to_byte(), 0x80);
}

#[test]
fn each_flag_has_its_own_bit() {
    let only = |byte: u8| {
        let f = PacketFlags::from_byte(byte);
        (f.unencrypted, f.compressed, f.new_protocol, f.fragmented)
    };
    assert_eq!(only(0x00), (false, false, false, false));
    assert_eq!(only(0x80), (true, false, false, false));
    assert_eq!(only(0x40), (false, true, false, false));
    assert_eq!(only(0x20), (false, false, true, false));
    assert_eq!(only(0x10), (false, false, false, true));
    assert_eq!(only(0xF0), (true, true, true, true));
}

#[test]
fn flags_with_every_bit_and_a_command() {
    let flags = PacketFlags::from_byte(0xF2);
    assert_eq!(
        flags,
        PacketFlags {
            unencrypted: true,
            compressed: true,
            new_protocol: true,
            fragmented: true,
            packet_type: PacketType::Command,
        }
    );
    assert_eq!(flags.to_byte(), 0xF2);
}

#[test]
fn flags_are_written_bit_by_bit() {
    let flags = PacketFlags {
        unencrypted: false,
        compressed: true,
        new_protocol: false,
        fragmented: true,
        packet_type: PacketType::Ping,
    };
    assert_eq!(flags.to_byte(), 0x54);
}

#[test]
fn every_byte_of_a_defined_kind_round_trips() {
    for byte in 0u16..256 {
        let byte = byte as u8;
        if byte & 0x0F <= 8 {
            assert_eq!(PacketFlags::from_byte(byte).to_byte(), byte);
        }
    }
}

#[test]
fn a_byte_of_no_defined_kind_is_unknown_and_written_as_ff() {
    for byte in 0u16..256 {
        let byte = byte as u8;
        if byte & 0x0F > 8 {
            let flags = PacketFlags::from_byte(byte);
            assert_eq!(flags.packet_type, PacketType::Unknown);
            assert_eq!(flags.to_byte(), 0xFF);
        }
    }
}

#[test]
fn flags_of_a_defined_kind_are_read_back() {
    let kinds = [
        PacketType::Voice,
        PacketType::VoiceWhisper,
        PacketType::Command,
        PacketType::CommandLow,
        PacketType::Ping,
        PacketType::Pong,
        PacketType::Ack,
        PacketType::AckLow,
        PacketType::Init1,
    ];
    for kind in kinds {
        for bits in 0u8..16 {
            let flags = PacketFlags {
                unencrypted: bits & 8 != 0,
                compressed: bits & 4 != 0,
                new_protocol: bits & 2 != 0,
                fragmented: bits & 1 != 0,
                packet_type: kind,
            };
            assert_eq!(PacketFlags::from_byte(flags.to_byte()), flags);
        }
    }
}

#[test]
fn packet_type_of_each_number() {
    assert_eq!(PacketType::from(0x00), PacketType::Voice);
    assert_eq!(PacketType::from(0x01), PacketType::VoiceWhisper);
    assert_eq!(PacketType::from(0x02), PacketType::Command);
    assert_eq!(PacketType::from(0x03), PacketType::CommandLow);
    assert_eq!(PacketType::from(0x04), PacketType::Ping);
    assert_eq!(PacketType::from(0x05), PacketType::Pong);
    assert_eq!(PacketType::from(0x06), PacketType::Ack);
    assert_eq!(PacketType::from(0x07), PacketType::AckLow);
    assert_eq!(PacketType::from(0x08), PacketType::Init1);
    for other in 9u16..256 {
        assert_eq!(PacketType::from(other as u8), PacketType::Unknown);
    }
}

#[test]
fn packet_type_numbers() {
    assert_eq!(PacketType::Voice.to_u8(), 0x00);
    assert_eq!(PacketType::VoiceWhisper.to_u8(), 0x01);
    assert_eq!(PacketType::Command.to_u8(), 0x02);
    assert_eq!(PacketType::CommandLow.to_u8(), 0x03);
    assert_eq!(PacketType::Ping.to_u8(), 0x04);
    assert_eq!(PacketType::Pong.to_u8(), 0x05);
    assert_eq!(PacketType::Ack.to_u8(), 0x06);
    assert_eq!(PacketType::AckLow.to_u8(), 0x07);
    assert_eq!(PacketType::Init1.to_u8(), 0x08);
    assert_eq!(PacketType::Unknown.to_u8(), 0xFF);
}

#[test]
fn group_whisper_numbers() {
    assert_eq!(GroupWhisperType::ServerGroup.to_u8(), 0);
    assert_eq!(GroupWhisperType::ChannelGroup.to_u8(), 1);
    assert_eq!(GroupWhisperType::ChannelCommander.to_u8(), 2);
    assert_eq!(GroupWhisperType::AllClients.to_u8(), 3);
    assert_eq!(GroupWhisperTarget::AllChannels.to_u8(), 0);
    assert_eq!(GroupWhisperTarget::CurrentChannel.to_u8(), 1);
    assert_eq!(GroupWhisperTarget::ParentChannel.to_u8(), 2);
    assert_eq!(GroupWhisperTarget::AllParentChannel.to_u8(), 3);
    assert_eq!(GroupWhisperTarget::ChannelFamily.to_u8(), 4);
    assert_eq!(GroupWhisperTarget::CompleteChannelFamily.to_u8(), 5);
    assert_eq!(GroupWhisperTarget::Subchannels.to_u8(), 6);
}
