use sensor_link::error::SerializeError;
use sensor_link::network::MessageType;
use sensor_link::network::PackedHeader;
use sensor_link::server::decide;
use sensor_link::server::next_step;
use sensor_link::server::state::parse_request;
use sensor_link::server::state::ProcessingError;
use sensor_link::server::state::State;
use sensor_link::server::state::SESSIONS_MAX_COUNT;
use sensor_link::server::Endpoint;
use sensor_link::server::Event;
use sensor_link::server::Step;
use sensor_link::server::CLEANUP_INTERVAL;

fn peer(port: u16) -> Endpoint {
    Endpoint::V4 { octets: 0x7F00_0001, port }
}

fn datagram(message_type: MessageType, session_id: u16, sequence: u16, body: &[u8]) -> Vec<u8> {
    let header = PackedHeader::new(message_type, 1234567890, session_id, sequence, 0);
    let mut buf = vec![0u8; 14 + body.len()];
    header.serialize_info(&mut buf).unwrap();
    buf[14..].copy_from_slice(body);
    buf
}

#[test]
fn parse_request_splits_header_and_body() {
    let bytes = datagram(MessageType::Ack, 3, 4, &[9, 8, 7]);
    let (header, body) = parse_request(&bytes).unwrap();
    assert_eq!(header, PackedHeader::new(MessageType::Ack, 1234567890, 3, 4, 0));
    assert_eq!(body, vec![9, 8, 7]);
    let (_, body) = parse_request(&bytes[..14]).unwrap();
    assert!(body.is_empty());
    assert_eq!(parse_request(&bytes[..13]).err(), Some(SerializeError::NotEnough));
}

#[test]
fn first_handshake_opens_session_one() {
    let mut state = State::new();
    assert_eq!(state.len(), 0);
    let bytes = datagram(MessageType::HandshakeRequest, 0, 1, &[0, 0]);
    let dispatch = state.process_received_message(&bytes, peer(4000), 10).unwrap();
    assert_eq!(dispatch.session_id, 1);
    assert!(dispatch.created);
    assert!(dispatch.fresh);
    assert_eq!(dispatch.message.addr, peer(4000));
    assert_eq!(dispatch.message.header.session_id, 0);
    assert_eq!(dispatch.message.header.sequence, 1);
    assert_eq!(dispatch.message.body, vec![0, 0]);
    assert_eq!(state.len(), 1);
    let session = state.session(1).unwrap();
    assert_eq!(session.last_sequence_id, 1);
    assert_eq!(session.last_timestamp, 10);
    assert!(state.session(2).is_none());
}

#[test]
fn bad_protocol_id_is_dropped() {
    let mut state = State::new();
    let mut bytes = datagram(MessageType::HandshakeRequest, 0, 1, &[0, 0]);
    bytes[0] = 0;
    bytes[1] = 0;
    assert_eq!(
        state.process_received_message(&bytes, peer(4000), 10).err(),
        Some(ProcessingError::DeserializeFailed(SerializeError::UnknownProtocol))
    );
    assert_eq!(state.len(), 0);
    assert_eq!(
        state.process_received_message(&bytes[..5], peer(4000), 10).err(),
        Some(ProcessingError::DeserializeFailed(SerializeError::NotEnough))
    );
}

#[test]
fn unknown_session_is_not_found() {
    let mut state = State::new();
    let bytes = datagram(MessageType::EncryptedMessage, 7, 2, &[0, 0]);
    assert_eq!(
        state.process_received_message(&bytes, peer(4000), 10).err(),
        Some(ProcessingError::SessionsNotFound(7))
    );
    assert_eq!(state.len(), 0);
}

#[test]
fn repeats_are_passed_on_as_repeats() {
    let mut state = State::new();
    let open = datagram(MessageType::HandshakeRequest, 0, 1, &[0, 0]);
    state.process_received_message(&open, peer(4000), 10).unwrap();

    let message = datagram(MessageType::EncryptedMessage, 1, 2, &[0, 0]);
    let first = state.process_received_message(&message, peer(4000), 20).unwrap();
    assert!(first.fresh);
    assert!(!first.created);
    assert_eq!(first.session_id, 1);
    assert_eq!(state.session(1).unwrap().last_sequence_id, 2);
    assert_eq!(state.session(1).unwrap().last_timestamp, 20);

    let second = state.process_received_message(&message, peer(4000), 30).unwrap();
    assert!(!second.fresh);
    assert_eq!(second.session_id, 1);
    assert_eq!(second.message.body, first.message.body);
    // a repeat does not count as a sign of life
    assert_eq!(state.session(1).unwrap().last_timestamp, 20);

    let older = datagram(MessageType::EncryptedMessage, 1, 1, &[0, 0]);
    assert!(!state.process_received_message(&older, peer(4000), 40).unwrap().fresh);
    assert_eq!(state.session(1).unwrap().last_sequence_id, 2);
}

#[test]
fn fresh_sequences_rise() {
    let mut state = State::new();
    let open = datagram(MessageType::HandshakeRequest, 0, 1, &[0, 0]);
    state.process_received_message(&open, peer(4000), 0).unwrap();
    let mut last_fresh = 1u16;
    for sequence in [5u16, 3, 5, 6, 2, 9, 9, 8, 10] {
        let bytes = datagram(MessageType::EncryptedMessage, 1, sequence, &[0, 0]);
        let dispatch = state.process_received_message(&bytes, peer(4000), 1).unwrap();
        assert_eq!(dispatch.fresh, sequence > last_fresh);
        if dispatch.fresh {
            last_fresh = sequence;
        }
        assert_eq!(state.session(1).unwrap().last_sequence_id, last_fresh);
    }
}

#[test]
fn session_cap() {
    let mut state = State::new();
    let open = datagram(MessageType::HandshakeRequest, 0, 1, &[0, 0]);
    for i in 0..SESSIONS_MAX_COUNT {
        let dispatch = state.process_received_message(&open, peer(i as u16), 0).unwrap();
        assert_eq!(dispatch.session_id as usize, i + 1);
        assert!(dispatch.created);
    }
    assert_eq!(state.len(), 100);
    assert_eq!(
        state.process_received_message(&open, peer(500), 0).err(),
        Some(ProcessingError::TooManySessions { current: 100, limit: 100 })
    );
    assert_eq!(state.len(), 100);
    // sessions that are there still work
    let bytes = datagram(MessageType::EncryptedMessage, 100, 2, &[0, 0]);
    assert!(state.process_received_message(&bytes, peer(99), 1).unwrap().fresh);
}

#[test]
fn closed_session_leaves_the_table() {
    let mut state = State::new();
    let open = datagram(MessageType::HandshakeRequest, 0, 1, &[0, 0]);
    state.process_received_message(&open, peer(1), 0).unwrap();
    state.process_received_message(&open, peer(2), 0).unwrap();
    assert_eq!(state.session_closed(1), ProcessingError::SessionClosed(1));
    assert_eq!(state.len(), 1);
    assert!(state.session(1).is_none());
    assert!(state.session(2).is_some());
    // the next id follows the last one given out
    assert_eq!(state.process_received_message(&open, peer(3), 0).unwrap().session_id, 3);
    assert_eq!(state.session_closed(9), ProcessingError::SessionClosed(9));
    assert_eq!(state.len(), 2);
}

#[test]
fn cleanup_evicts_idle_and_closed_sessions() {
    let mut state = State::new();
    let open = datagram(MessageType::HandshakeRequest, 0, 1, &[0, 0]);
    for (i, now) in [0u64, 100, 200, 301, 400].iter().enumerate() {
        let dispatch = state.process_received_message(&open, peer(i as u16), *now).unwrap();
        assert_eq!(dispatch.session_id as usize, i + 1);
    }
    // at 601 with a threshold of 300: sessions 1 to 3 are idle, 4 is exactly
    // at the threshold and stays, 5 stays but its worker has ended
    let removed = state.cleanup(601, CLEANUP_INTERVAL, &[5, 77]);
    assert_eq!(removed, vec![1, 2, 3, 5]);
    assert_eq!(state.len(), 1);
    assert_eq!(state.session(4).unwrap().last_timestamp, 301);
    assert!(state.cleanup(601, CLEANUP_INTERVAL, &[]).is_empty());
    // a clock that reads earlier than the session evicts nothing
    assert!(state.cleanup(0, 0, &[]).is_empty());
    assert_eq!(state.cleanup(602, CLEANUP_INTERVAL, &[]), vec![4]);
    assert_eq!(state.len(), 0);
}

#[test]
fn cleanup_makes_room() {
    let mut state = State::new();
    let open = datagram(MessageType::HandshakeRequest, 0, 1, &[0, 0]);
    for _ in 0..SESSIONS_MAX_COUNT {
        state.process_received_message(&open, peer(1), 0).unwrap();
    }
    assert!(state.process_received_message(&open, peer(1), 0).is_err());
    assert_eq!(state.cleanup(1000, CLEANUP_INTERVAL, &[]).len(), 100);
    assert_eq!(state.process_received_message(&open, peer(1), 1000).unwrap().session_id, 101);
}

#[test]
fn supervisor_steps() {
    assert_eq!(CLEANUP_INTERVAL, 300);
    assert_eq!(decide(Event::Received, 4, 3), Step::Process);
    assert_eq!(decide(Event::Received, 3, 3), Step::Skip);
    assert_eq!(decide(Event::Received, 0, 3), Step::Skip);
    assert_eq!(decide(Event::Received, 0, 0), Step::Process);
    assert_eq!(decide(Event::Outgoing, 5, 3), Step::Send);
    assert_eq!(decide(Event::Outgoing, 6, 3), Step::Skip);
    assert_eq!(decide(Event::Outgoing, 6, 0), Step::Send);
    assert_eq!(decide(Event::ReceiveFailed, 1, 3), Step::Skip);
    assert_eq!(decide(Event::QueueClosed, 0, 3), Step::Stop);
    assert_eq!(decide(Event::CleanupTick, 0, 3), Step::Cleanup);
    assert_eq!(decide(Event::Shutdown, 0, 3), Step::Drain);
}

#[test]
fn supervisor_without_loss_never_skips() {
    for _ in 0..200 {
        assert_eq!(next_step(Event::Received, 0), Step::Process);
        assert_eq!(next_step(Event::Outgoing, 0), Step::Send);
    }
}

#[test]
fn supervisor_with_loss_skips_some() {
    let mut skipped = 0;
    let mut processed = 0;
    for _ in 0..2000 {
        match next_step(Event::Received, 3) {
            Step::Skip => skipped += 1,
            Step::Process => processed += 1,
            other => panic!("unexpected step {:?}", other),
        }
    }
    assert!(skipped > 0);
    assert!(processed > 0);
    // with one in one, every sample is lost
    assert_eq!(next_step(Event::Outgoing, 1), Step::Skip);
}

#[test]
fn ids_start_again_after_the_highest_and_skip_those_in_use() {
    let mut state = State::new();
    let open = datagram(MessageType::HandshakeRequest, 0, 1, &[0, 0]);
    // sessions 1 and 2 stay
    assert_eq!(state.process_received_message(&open, peer(1), 0).unwrap().session_id, 1);
    assert_eq!(state.process_received_message(&open, peer(1), 0).unwrap().session_id, 2);
    for id in 3..=u16::MAX {
        assert_eq!(state.process_received_message(&open, peer(1), 0).unwrap().session_id, id);
        assert_eq!(state.session_closed(id), ProcessingError::SessionClosed(id));
    }
    assert_eq!(state.len(), 2);
    // after the highest id comes 1 again, but 1 and 2 have sessions
    let dispatch = state.process_received_message(&open, peer(1), 7).unwrap();
    assert_eq!(dispatch.session_id, 3);
    assert!(dispatch.created);
    assert_eq!(state.session(3).unwrap().last_timestamp, 7);
    assert_eq!(state.session(1).unwrap().last_timestamp, 0);
    state.session_closed(1);
    // a free id behind the last one given out waits for the next round
    assert_eq!(state.process_received_message(&open, peer(1), 0).unwrap().session_id, 4);
    assert_eq!(state.len(), 3);
}

#[test]
fn full_table_refuses_wherever_the_ids_stand() {
    let mut state = State::new();
    let open = datagram(MessageType::HandshakeRequest, 0, 1, &[0, 0]);
    for id in 1..=u16::MAX - 50 {
        assert_eq!(state.process_received_message(&open, peer(1), 0).unwrap().session_id, id);
        state.session_closed(id);
    }
    // the next hundred ids run over the highest one
    for i in 0..SESSIONS_MAX_COUNT {
        let expected = if i < 50 { u16::MAX - 49 + i as u16 } else { i as u16 - 49 };
        assert_eq!(state.process_received_message(&open, peer(1), 0).unwrap().session_id, expected);
    }
    assert_eq!(state.len(), 100);
    assert_eq!(
        state.process_received_message(&open, peer(1), 0).err(),
        Some(ProcessingError::TooManySessions { current: 100, limit: 100 })
    );
    assert_eq!(state.session_closed(u16::MAX), ProcessingError::SessionClosed(u16::MAX));
    assert_eq!(state.process_received_message(&open, peer(1), 0).unwrap().session_id, 51);
    assert_eq!(state.cleanup(1000, CLEANUP_INTERVAL, &[]).len(), 100);
    assert_eq!(state.len(), 0);
}
