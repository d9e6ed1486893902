use sensor_link::client::channel::SendAndWait;
use sensor_link::client::channel::Wait;
use sensor_link::network::MessageType;
use sensor_link::network::PackedHeader;

fn reply(ack: u16) -> [u8; 16] {
    let mut buf = [0u8; 16];
    PackedHeader::new(MessageType::Ack, 7, 1, 2, ack).serialize_info(&mut buf).unwrap();
    buf
}

#[test]
fn silent_server_times_out_after_max_retries_sends() {
    for max_retries in 1usize..8 {
        let mut wait = SendAndWait::new(2, max_retries);
        let mut sends = 1;
        loop {
            match wait.on_timeout() {
                Wait::Retransmit => sends += 1,
                Wait::TimedOut => break,
                other => panic!("unexpected {:?}", other),
            }
        }
        assert_eq!(sends, max_retries);
    }
}

#[test]
fn no_retries_still_sends_once() {
    let mut wait = SendAndWait::new(2, 0);
    assert_eq!(wait.on_timeout(), Wait::TimedOut);
    assert_eq!(wait.on_timeout(), Wait::TimedOut);
}

#[test]
fn matching_ack_is_delivered() {
    let wait = SendAndWait::new(2, 5);
    assert_eq!(wait.on_datagram(&reply(2)), Wait::Deliver);
    assert_eq!(wait.on_datagram(&reply(1)), Wait::KeepWaiting);
    assert_eq!(wait.on_datagram(&reply(3)), Wait::KeepWaiting);
}

#[test]
fn unreadable_reply_is_invalid_data() {
    let wait = SendAndWait::new(2, 5);
    assert_eq!(wait.on_datagram(&[]), Wait::InvalidData);
    assert_eq!(wait.on_datagram(&reply(2)[..13]), Wait::InvalidData);
    let mut bad = reply(2);
    bad[0] = 0;
    assert_eq!(wait.on_datagram(&bad), Wait::InvalidData);
}

#[test]
fn wrong_ack_does_not_use_up_an_attempt() {
    let mut wait = SendAndWait::new(2, 2);
    assert_eq!(wait.on_datagram(&reply(1)), Wait::KeepWaiting);
    assert_eq!(wait.on_datagram(&reply(1)), Wait::KeepWaiting);
    assert_eq!(wait.on_datagram(&reply(1)), Wait::KeepWaiting);
    assert_eq!(wait.on_timeout(), Wait::Retransmit);
    assert_eq!(wait.on_datagram(&reply(2)), Wait::Deliver);
}

#[test]
fn second_attempt_succeeds_after_one_loss() {
    let mut wait = SendAndWait::new(2, 5);
    assert_eq!(wait.on_timeout(), Wait::Retransmit);
    assert_eq!(wait.on_datagram(&reply(2)), Wait::Deliver);
}
