use sensor_link::command::EncodedCommand;
use sensor_link::command::COMMAND_SIZE;
use sensor_link::command::PACKET_SIZE;
use sensor_link::error::SerializeError;
use sensor_link::network::MessageType;
use sensor_link::network::PackedHeader;
use sensor_link::serialize::make_new_command;
use sensor_link::serialize::parse_command;
use sensor_link::serialize::parse_non_encrypted;
use sensor_link::serialize::write_command;
use sensor_link::serialize::write_non_encrypted;

#[test]
fn serialize_deserialize_header() {
    let mut buf = [0u8; PackedHeader::SIZE];

    let header = PackedHeader::new(MessageType::HandshakeRequest, 1234567890, 100, 200, 150);
    let _ = header
        .serialize_info(&mut buf)
        .expect("Failed to serialize header");

    // try to deserialize now
    let deserialized_header = PackedHeader::try_deserialize(&buf).unwrap();
    assert_eq!(deserialized_header, header);
}

#[test]
fn header_bytes_are_big_endian() {
    let header = PackedHeader::new(MessageType::EncryptedMessage, 0x0102_0304, 0x0506, 0x0708, 0x090A);
    let mut buf = [0xEEu8; 16];
    assert_eq!(header.serialize_info(&mut buf), Ok(14));
    assert_eq!(
        buf,
        [0xDE, 0xFA, 0x01, 0x03, 0x01, 0x02, 0x03, 0x04, 0x05, 0x06, 0x07, 0x08, 0x09, 0x0A, 0xEE, 0xEE]
    );
}

#[test]
fn header_serialize_needs_fourteen_bytes() {
    let header = PackedHeader::new(MessageType::Ack, 1, 2, 3, 4);
    let mut buf = [7u8; 13];
    assert_eq!(header.serialize_info(&mut buf), Err(SerializeError::NotEnough));
    assert_eq!(buf, [7u8; 13]);
}

#[test]
fn header_deserialize_errors() {
    let good = [0xDE, 0xFA, 1, 4, 0, 0, 0, 9, 0, 1, 0, 2, 0, 2];
    assert_eq!(
        PackedHeader::try_deserialize(&good),
        Ok(PackedHeader::new(MessageType::Ack, 9, 1, 2, 2))
    );
    assert_eq!(PackedHeader::try_deserialize(&good[..13]), Err(SerializeError::NotEnough));
    assert_eq!(PackedHeader::try_deserialize(&[]), Err(SerializeError::NotEnough));

    let mut bad_magic = good;
    bad_magic[0] = 0;
    bad_magic[1] = 0;
    assert_eq!(PackedHeader::try_deserialize(&bad_magic), Err(SerializeError::UnknownProtocol));

    let mut bad_version = good;
    bad_version[2] = 2;
    assert_eq!(PackedHeader::try_deserialize(&bad_version), Err(SerializeError::UnsupportedVersion));

    // the magic number is tested before the version
    let mut both = bad_version;
    both[1] = 0xFB;
    assert_eq!(PackedHeader::try_deserialize(&both), Err(SerializeError::UnknownProtocol));

    let mut bad_type = good;
    bad_type[3] = 6;
    assert_eq!(PackedHeader::try_deserialize(&bad_type), Err(SerializeError::UnknownMessageType));
}

#[test]
fn message_type_codes() {
    let all = [
        (MessageType::HandshakeRequest, 1u8),
        (MessageType::HandshakeResponse, 2),
        (MessageType::EncryptedMessage, 3),
        (MessageType::Ack, 4),
        (MessageType::Timeout, 5),
        (MessageType::Error, 0xFF),
    ];
    for (message_type, code) in all {
        assert_eq!(u8::from(message_type), code);
        assert_eq!(MessageType::try_from(code), Ok(message_type));
    }
    assert_eq!(MessageType::try_from(0), Err(SerializeError::UnknownMessageType));
    assert_eq!(MessageType::try_from(6), Err(SerializeError::UnknownMessageType));
    assert_eq!(MessageType::try_from(0xFE), Err(SerializeError::UnknownMessageType));
}

#[test]
fn every_header_round_trips() {
    let types = [
        MessageType::HandshakeRequest,
        MessageType::HandshakeResponse,
        MessageType::EncryptedMessage,
        MessageType::Ack,
        MessageType::Timeout,
        MessageType::Error,
    ];
    let numbers = [0u32, 1, 0xFF, 0x100, 0xFFFF, 0x1_0000, 0x1234_5678, u32::MAX];
    for message_type in types {
        for n in numbers {
            let header = PackedHeader::new(message_type, n, n as u16, (n >> 8) as u16, (n >> 16) as u16);
            let mut buf = [0u8; 14];
            assert_eq!(header.serialize_info(&mut buf), Ok(14));
            assert_eq!(PackedHeader::try_deserialize(&buf), Ok(header));
        }
    }
}

#[test]
fn nonce_is_session_above_sequence() {
    let header = PackedHeader::new(MessageType::EncryptedMessage, 5, 1, 2, 0);
    assert_eq!(header.nonce(), 0x0000_0001_0000_0002);
    let header = PackedHeader::new(MessageType::EncryptedMessage, 5, 0xFFFF, 0xFFFF, 0);
    assert_eq!(header.nonce(), 0x0000_FFFF_0000_FFFF);
    let header = PackedHeader::new(MessageType::EncryptedMessage, 5, 0, 0, 9);
    assert_eq!(header.nonce(), 0);
}

#[test]
fn nonces_differ_when_session_or_sequence_differs() {
    let a = PackedHeader::new(MessageType::EncryptedMessage, 5, 1, 2, 0);
    let b = PackedHeader::new(MessageType::EncryptedMessage, 5, 2, 1, 0);
    let c = PackedHeader::new(MessageType::EncryptedMessage, 5, 1, 3, 0);
    let d = PackedHeader::new(MessageType::Ack, 6, 1, 2, 7);
    assert_ne!(a.nonce(), b.nonce());
    assert_ne!(a.nonce(), c.nonce());
    assert_ne!(b.nonce(), c.nonce());
    assert_eq!(a.nonce(), d.nonce());
}

#[test]
fn encoded_command_from_slice() {
    let command = EncodedCommand::from_slice(&[1, 2, 3]).unwrap();
    assert_eq!(command.size, 3);
    assert_eq!(command.payload(), &[1, 2, 3]);
    assert_eq!(EncodedCommand::empty().size, 0);
    assert_eq!(EncodedCommand::empty().payload(), &[] as &[u8]);
    assert!(EncodedCommand::from_slice(&[0u8; COMMAND_SIZE]).is_ok());
    assert_eq!(
        EncodedCommand::from_slice(&[0u8; COMMAND_SIZE + 1]).err(),
        Some(SerializeError::TooBig)
    );
}

#[test]
fn write_command_layout() {
    let header = PackedHeader::new(MessageType::HandshakeResponse, 7, 1, 1, 1);
    let command = EncodedCommand::from_slice(&[0xAA, 0xBB, 0xCC]).unwrap();
    let mut out = [0x55u8; 24];
    assert_eq!(write_command(&header, &command, &mut out), Ok(19));
    assert_eq!(
        out,
        [
            0xDE, 0xFA, 1, 2, 0, 0, 0, 7, 0, 1, 0, 1, 0, 1, 0, 3, 0xAA, 0xBB, 0xCC, 0x55, 0x55,
            0x55, 0x55, 0x55
        ]
    );
}

#[test]
fn write_command_too_big() {
    let header = PackedHeader::new(MessageType::Ack, 7, 1, 1, 1);
    let command = EncodedCommand::from_slice(&[1, 2, 3]).unwrap();
    let mut short = [9u8; 18];
    assert_eq!(write_command(&header, &command, &mut short), Err(SerializeError::TooBig));
    assert_eq!(short, [9u8; 18]);

    let overlong = EncodedCommand { size: COMMAND_SIZE + 1, buf: [0u8; COMMAND_SIZE] };
    let mut out = [0u8; PACKET_SIZE];
    assert_eq!(write_command(&header, &overlong, &mut out), Err(SerializeError::TooBig));

    let full = EncodedCommand { size: COMMAND_SIZE, buf: [3u8; COMMAND_SIZE] };
    assert_eq!(write_command(&header, &full, &mut out), Ok(16 + COMMAND_SIZE));
}

#[test]
fn envelope_round_trip() {
    for size in [0usize, 1, 2, 255, 256, 257, COMMAND_SIZE] {
        let payload: Vec<u8> = (0..size).map(|i| (i * 7 + 3) as u8).collect();
        let command = EncodedCommand::from_slice(&payload).unwrap();
        let header = PackedHeader::new(MessageType::EncryptedMessage, 42, 3, 9, 8);
        let mut out = [0u8; PACKET_SIZE];
        let written = write_command(&header, &command, &mut out).unwrap();
        assert_eq!(written, 16 + size);
        assert_eq!(PackedHeader::try_deserialize(&out[..written]), Ok(header));
        let back = parse_command(&out[14..written]).unwrap();
        assert_eq!(back.size, size);
        assert_eq!(back.payload(), payload.as_slice());
    }
}

#[test]
fn make_new_command_writes_the_same_datagram() {
    let command = EncodedCommand::from_slice(&[4, 5]).unwrap();
    let mut buf = [0u8; 32];
    assert_eq!(
        make_new_command(MessageType::Ack, &command, &mut buf, 1234567890, 1, 2, 3),
        Ok(18)
    );
    let header = PackedHeader::new(MessageType::Ack, 1234567890, 1, 2, 3);
    let mut other = [0u8; 32];
    assert_eq!(write_command(&header, &command, &mut other), Ok(18));
    assert_eq!(buf, other);
    assert_eq!(&buf[14..18], &[0, 2, 4, 5]);

    let mut short = [1u8; 17];
    assert_eq!(
        make_new_command(MessageType::Ack, &command, &mut short, 1, 1, 2, 3),
        Err(SerializeError::TooBig)
    );
    assert_eq!(short, [1u8; 17]);

    // no header fits either
    let mut tiny = [1u8; 5];
    assert_eq!(
        make_new_command(MessageType::Ack, &command, &mut tiny, 1, 1, 2, 3),
        Err(SerializeError::TooBig)
    );
    assert_eq!(tiny, [1u8; 5]);

    let overlong = EncodedCommand { size: COMMAND_SIZE + 1, buf: [0u8; COMMAND_SIZE] };
    let mut room = [0u8; PACKET_SIZE];
    assert_eq!(
        make_new_command(MessageType::Ack, &overlong, &mut room, 1, 1, 2, 3),
        Err(SerializeError::TooBig)
    );
    let mut wide = vec![0u8; 2 * PACKET_SIZE];
    let full = EncodedCommand { size: COMMAND_SIZE, buf: [3u8; COMMAND_SIZE] };
    assert_eq!(
        make_new_command(MessageType::Ack, &full, &mut wide, 1, 1, 2, 3),
        Ok(16 + COMMAND_SIZE)
    );
}

#[test]
fn parse_command_errors() {
    assert_eq!(parse_command(&[]).err(), Some(SerializeError::BufferEmpty));
    assert_eq!(parse_command(&[0]).err(), Some(SerializeError::NotEnough));
    assert_eq!(parse_command(&[0, 3, 1, 2]).err(), Some(SerializeError::NotEnough));
    let mut long = vec![0u8; 2 + COMMAND_SIZE + 1];
    long[0] = ((COMMAND_SIZE + 1) >> 8) as u8;
    long[1] = ((COMMAND_SIZE + 1) & 0xFF) as u8;
    assert_eq!(parse_command(&long).err(), Some(SerializeError::TooBig));
    // a declared length above what is there is reported before its size
    assert_eq!(parse_command(&long[..100]).err(), Some(SerializeError::NotEnough));
}

#[test]
fn parse_command_ignores_what_follows() {
    let command = parse_command(&[0, 2, 8, 9, 10, 11]).unwrap();
    assert_eq!(command.payload(), &[8, 9]);
    let empty = parse_command(&[0, 0]).unwrap();
    assert_eq!(empty.size, 0);
}

#[test]
fn frame_round_trip() {
    let mut buf = [0xFFu8; 8];
    assert_eq!(write_non_encrypted(&[1, 2, 3], &mut buf), Ok(5));
    assert_eq!(buf, [0, 3, 1, 2, 3, 0xFF, 0xFF, 0xFF]);
    assert_eq!(parse_non_encrypted(&buf[..5]), Ok(&[1u8, 2, 3][..]));
    assert_eq!(parse_non_encrypted(&buf[..4]), Err(SerializeError::NotEnough));
    assert_eq!(parse_non_encrypted(&[]), Err(SerializeError::BufferEmpty));
    assert_eq!(parse_non_encrypted(&[0]), Err(SerializeError::NotEnough));

    let mut short = [5u8; 4];
    assert_eq!(write_non_encrypted(&[1, 2, 3], &mut short), Err(SerializeError::TooBig));
    assert_eq!(short, [5u8; 4]);

    let big = vec![0u8; 0x1_0000];
    let mut room = vec![0u8; 0x1_0010];
    assert_eq!(write_non_encrypted(&big, &mut room), Err(SerializeError::TooBig));
    assert_eq!(write_non_encrypted(&big[..0xFFFD], &mut room), Ok(0xFFFF));
    assert_eq!(&room[..2], &[0xFF, 0xFD]);
}
