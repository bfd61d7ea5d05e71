use hooker::ts3_parser::ts_declarations::{
    AckPacketData, ClientToServerPacket, InitPacket0, InitPacket1, InitPacket2, InitPacket3,
    InitPacket4, PacketFlags, PacketType, ServerToClientPacket, VoicePacketData,
    VoiceWhisperPacketData, WireError,
};

fn counted(len: usize) -> Vec<u8> {
    (0..len).map(|i| (i % 251) as u8).collect()
}

#[test]
fn a_packet_to_the_server_from_bytes() {
    let bytes = [1, 2, 3, 4, 5, 6, 7, 8, 0x12, 0x34, 0xAB, 0xCD, 0x42, 9, 8, 7];
    let packet = ClientToServerPacket::from_bytes(&bytes).unwrap();
    assert_eq!(packet.mac, [1, 2, 3, 4, 5, 6, 7, 8]);
    assert_eq!(packet.packet_id, 0x1234);
    assert_eq!(packet.client_id, 0xABCD);
    assert_eq!(packet.flags, PacketFlags::from_byte(0x42));
    assert_eq!(packet.flags.packet_type, PacketType::Command);
    assert_eq!(packet.data, vec![9, 8, 7]);
    assert_eq!(packet.to_bytes().unwrap(), bytes.to_vec());
}

#[test]
fn a_packet_to_the_server_to_bytes() {
    let packet = ClientToServerPacket {
        mac: [0xAA; 8],
        packet_id: 0x0102,
        client_id: 0x0304,
        flags: PacketFlags {
            unencrypted: true,
            compressed: false,
            new_protocol: false,
            fragmented: false,
            packet_type: PacketType::Voice,
        },
        data: vec![0x10, 0x20],
    };
    assert_eq!(
        packet.to_bytes().unwrap(),
        vec![0xAA, 0xAA, 0xAA, 0xAA, 0xAA, 0xAA, 0xAA, 0xAA, 1, 2, 3, 4, 0x80, 0x10, 0x20]
    );
    let copy = packet.clone();
    assert_eq!(copy.to_bytes().unwrap(), packet.to_bytes().unwrap());
}

#[test]
fn a_packet_from_the_server_from_bytes() {
    let bytes = [1, 2, 3, 4, 5, 6, 7, 8, 0xFE, 0xDC, 0x84];
    let packet = ServerToClientPacket::from_bytes(&bytes).unwrap();
    assert_eq!(packet.mac, [1, 2, 3, 4, 5, 6, 7, 8]);
    assert_eq!(packet.packet_id, 0xFEDC);
    assert_eq!(packet.flags, PacketFlags::from_byte(0x84));
    assert!(packet.data.is_empty());
    assert_eq!(packet.to_bytes().unwrap(), bytes.to_vec());
}

#[test]
fn a_packet_from_the_server_to_bytes() {
    let packet = ServerToClientPacket {
        mac: [0; 8],
        packet_id: 258,
        flags: PacketFlags::from_byte(0x15),
        data: vec![7],
    };
    assert_eq!(packet.to_bytes().unwrap(), vec![0, 0, 0, 0, 0, 0, 0, 0, 1, 2, 0x15, 7]);
}

#[test]
fn flags_of_unknown_kind_are_written_as_ff() {
    let bytes = [0, 0, 0, 0, 0, 0, 0, 0, 0, 1, 0x0B];
    let packet = ServerToClientPacket::from_bytes(&bytes).unwrap();
    assert_eq!(packet.flags.packet_type, PacketType::Unknown);
    assert_eq!(packet.to_bytes().unwrap()[10], 0xFF);
}

#[test]
fn packets_that_end_in_the_header_are_not_read() {
    let bytes = counted(13);
    for len in 0..13 {
        assert_eq!(
            ClientToServerPacket::from_bytes(&bytes[..len]).unwrap_err(),
            WireError::UnexpectedEof
        );
    }
    assert!(ClientToServerPacket::from_bytes(&bytes).is_ok());
    for len in 0..11 {
        assert_eq!(
            ServerToClientPacket::from_bytes(&bytes[..len]).unwrap_err(),
            WireError::UnexpectedEof
        );
    }
    assert!(ServerToClientPacket::from_bytes(&bytes[..11]).is_ok());
}

#[test]
fn the_first_step() {
    let bytes = [0x5D, 0x3F, 0x28, 0x16, 0, 0x01, 0x02, 0x03, 0x04, 9, 8, 7, 6, 0xEE];
    let step = InitPacket0::from_bytes(&bytes).unwrap();
    assert_eq!(step.version, 0x5D3F2816);
    assert_eq!(step.step, 0);
    assert_eq!(step.timestamp, 0x01020304);
    assert_eq!(step.random, [9, 8, 7, 6]);
    assert_eq!(step.to_bytes().unwrap(), bytes[..13].to_vec());
    let written = InitPacket0 { version: 1, step: 2, timestamp: 0xFFFF_FFFE, random: [3; 4] };
    assert_eq!(
        written.to_bytes().unwrap(),
        vec![0, 0, 0, 1, 2, 0xFF, 0xFF, 0xFF, 0xFE, 3, 3, 3, 3]
    );
    assert_eq!(written.clone().to_bytes().unwrap().len(), 13);
}

#[test]
fn the_second_step() {
    let bytes = counted(21);
    let step = InitPacket1::from_bytes(&bytes).unwrap();
    assert_eq!(step.step, 0);
    assert_eq!(step.server_stuff.to_vec(), bytes[1..17].to_vec());
    assert_eq!(step.random_reversed, [17, 18, 19, 20]);
    assert_eq!(step.to_bytes().unwrap(), bytes);
    let mut longer = bytes.clone();
    longer.push(0xEE);
    assert_eq!(InitPacket1::from_bytes(&longer).unwrap().to_bytes().unwrap(), bytes);
}

#[test]
fn the_third_step() {
    let mut bytes = counted(25);
    bytes[0] = 0xDE;
    bytes[1] = 0xAD;
    bytes[2] = 0xBE;
    bytes[3] = 0xEF;
    let step = InitPacket2::from_bytes(&bytes).unwrap();
    assert_eq!(step.version, 0xDEADBEEF);
    assert_eq!(step.step, 4);
    assert_eq!(step.server_stuff.to_vec(), bytes[5..21].to_vec());
    assert_eq!(step.random_reversed, [21, 22, 23, 24]);
    assert_eq!(step.to_bytes().unwrap(), bytes);
}

#[test]
fn the_fourth_step() {
    let mut bytes = counted(233);
    bytes[129] = 0x00;
    bytes[130] = 0x00;
    bytes[131] = 0x27;
    bytes[132] = 0x10;
    let step = InitPacket3::from_bytes(&bytes).unwrap();
    assert_eq!(step.step, 0);
    assert_eq!(step.x.to_vec(), bytes[1..65].to_vec());
    assert_eq!(step.n.to_vec(), bytes[65..129].to_vec());
    assert_eq!(step.level, 10000);
    assert_eq!(step.server_stuff.to_vec(), bytes[133..233].to_vec());
    assert_eq!(step.to_bytes().unwrap(), bytes);
}

#[test]
fn the_fifth_step() {
    let mut bytes = counted(310);
    bytes[133] = 0x01;
    bytes[134] = 0x00;
    bytes[135] = 0x00;
    bytes[136] = 0x02;
    let step = InitPacket4::from_bytes(&bytes).unwrap();
    assert_eq!(step.version, 0x00010203);
    assert_eq!(step.step, 4);
    assert_eq!(step.x.to_vec(), bytes[5..69].to_vec());
    assert_eq!(step.n.to_vec(), bytes[69..133].to_vec());
    assert_eq!(step.level, 0x01000002);
    assert_eq!(step.server_stuff.to_vec(), bytes[137..237].to_vec());
    assert_eq!(step.y.to_vec(), bytes[237..301].to_vec());
    assert_eq!(step.client_init_iv_data, bytes[301..].to_vec());
    assert_eq!(step.to_bytes().unwrap(), bytes);
    let exact = InitPacket4::from_bytes(&bytes[..301]).unwrap();
    assert!(exact.client_init_iv_data.is_empty());
}

#[test]
fn steps_that_end_too_early_are_not_read() {
    let bytes = counted(301);
    for len in [0usize, 1, 4, 12] {
        assert_eq!(InitPacket0::from_bytes(&bytes[..len]).unwrap_err(), WireError::UnexpectedEof);
    }
    assert!(InitPacket0::from_bytes(&bytes[..13]).is_ok());
    for len in [0usize, 1, 17, 20] {
        assert_eq!(InitPacket1::from_bytes(&bytes[..len]).unwrap_err(), WireError::UnexpectedEof);
    }
    assert!(InitPacket1::from_bytes(&bytes[..21]).is_ok());
    for len in [0usize, 4, 5, 24] {
        assert_eq!(InitPacket2::from_bytes(&bytes[..len]).unwrap_err(), WireError::UnexpectedEof);
    }
    assert!(InitPacket2::from_bytes(&bytes[..25]).is_ok());
    for len in [0usize, 65, 133, 232] {
        assert_eq!(InitPacket3::from_bytes(&bytes[..len]).unwrap_err(), WireError::UnexpectedEof);
    }
    assert!(InitPacket3::from_bytes(&bytes[..233]).is_ok());
    for len in [0usize, 5, 237, 300] {
        assert_eq!(InitPacket4::from_bytes(&bytes[..len]).unwrap_err(), WireError::UnexpectedEof);
    }
    assert!(InitPacket4::from_bytes(&bytes).is_ok());
}

#[test]
fn payload_records() {
    let voice = VoicePacketData { voice_id: 1, codec: 2, data: vec![3] };
    let copy = voice.clone();
    assert_eq!((copy.voice_id, copy.codec, copy.data), (1, 2, vec![3]));
    let whisper = VoiceWhisperPacketData { voice_id: 4, codec: 5, data: vec![6] };
    let copy = whisper.clone();
    assert_eq!((copy.voice_id, copy.codec, copy.data), (4, 5, vec![6]));
    let ack = AckPacketData { packet_id: 7 };
    assert_eq!(ack.clone().packet_id, 7);
}
