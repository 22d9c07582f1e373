use pinger::codec::encode_echo;
use pinger::codec::Ipv4Address;
use pinger::codec::ECHO_REPLY_TYPE;
use pinger::codec::TIME_EXCEEDED_TYPE;
use pinger::session::Delivery;
use pinger::session::PingError;
use pinger::session::Pinger;
use pinger::session::RecvEvent;
use pinger::session::RecvStep;
use pinger::session::Reply;

fn addr(a: u8, b: u8, c: u8, d: u8) -> Ipv4Address {
    Ipv4Address { a, b, c, d }
}

fn reply_from(identifier: u16, sequence_number: u16, payload: &[u8], from: Ipv4Address, delay_ms: u64) -> Delivery {
    Delivery {
        bytes: encode_echo(ECHO_REPLY_TYPE, identifier, sequence_number, &payload.to_vec()),
        from,
        delay_ms,
    }
}

#[test]
fn happy_path_scenario() {
    let pinger = Pinger::open(64);
    assert_eq!(pinger.ttl, 64);
    let dest = addr(93, 184, 216, 34);
    let payload = vec![0x2a; 56];

    let wire = pinger.send(0, &payload);
    assert_eq!(wire.len(), 64);
    assert_eq!(wire[0], 8); // echo request type

    let inbound = vec![reply_from(pinger.identifier, 0, &payload, dest, 5)];
    match pinger.recv(inbound, 2000) {
        Ok(Reply::EchoReply { from, sequence_number, payload: p }) => {
            assert_eq!(from, dest);
            assert_eq!(sequence_number, 0);
            assert_eq!(p, payload);
        }
        _ => panic!("expected the echo reply"),
    }
}

#[test]
fn timeout_scenario() {
    let pinger = Pinger::open(64);
    let _wire = pinger.send(1, &vec![0x2a; 56]);
    match pinger.recv(Vec::new(), 100) {
        Ok(Reply::Timeout) => {}
        _ => panic!("expected a timeout"),
    }
}

#[test]
fn identifier_filtering_returns_only_the_matching_reply() {
    let pinger = Pinger { identifier: 0x5a5a, ttl: 64 };
    let dest = addr(10, 9, 8, 7);
    let other = addr(172, 16, 0, 1);
    let foreign = pinger.identifier.wrapping_add(1);

    // The matching reply sits among foreign ones, in several orders.
    for position in 0..3usize {
        let mut inbound = Vec::new();
        for slot in 0..3usize {
            if slot == position {
                inbound.push(reply_from(pinger.identifier, 9, b"hello", dest, 10));
            } else {
                inbound.push(reply_from(foreign, 9, b"noise", other, 10));
            }
        }
        match pinger.recv(inbound, 1000) {
            Ok(Reply::EchoReply { from, sequence_number, payload }) => {
                assert_eq!(from, dest);
                assert_eq!(sequence_number, 9);
                assert_eq!(payload, b"hello".to_vec());
            }
            _ => panic!("expected the matching reply"),
        }
    }
}

#[test]
fn foreign_replies_only_ends_in_timeout_within_deadline() {
    let pinger = Pinger { identifier: 1, ttl: 64 };
    let other = addr(172, 16, 0, 1);
    // Five foreign replies whose delays sum to 50, well under the timeout:
    // the deadline is never reset, and the call reports a timeout.
    let inbound: Vec<Delivery> = (0..5).map(|_| reply_from(2, 0, b"x", other, 10)).collect();
    match pinger.recv(inbound, 1000) {
        Ok(Reply::Timeout) => {}
        _ => panic!("expected a timeout"),
    }
}

#[test]
fn reply_arriving_after_deadline_is_a_timeout() {
    let pinger = Pinger { identifier: 7, ttl: 64 };
    let dest = addr(10, 0, 0, 2);
    let inbound = vec![reply_from(7, 0, b"late", dest, 100)];
    match pinger.recv(inbound, 100) {
        Ok(Reply::Timeout) => {}
        _ => panic!("expected a timeout"),
    }
}

#[test]
fn time_exceeded_bypasses_identifier_check() {
    // A session that has sent nothing still gets the Time Exceeded reply.
    let pinger = Pinger { identifier: 0x1111, ttl: 4 };
    let router = addr(10, 255, 0, 1);
    let inbound = vec![Delivery {
        bytes: encode_echo(TIME_EXCEEDED_TYPE, 0x9999, 42, &Vec::new()),
        from: router,
        delay_ms: 1,
    }];
    match pinger.recv(inbound, 1000) {
        Ok(Reply::TimeToLiveExceeded { from }) => assert_eq!(from, router),
        _ => panic!("expected time exceeded"),
    }
}

#[test]
fn malformed_packet_fails_the_receive() {
    let pinger = Pinger { identifier: 3, ttl: 64 };
    let inbound = vec![Delivery { bytes: vec![0u8; 5], from: addr(1, 2, 3, 4), delay_ms: 1 }];
    match pinger.recv(inbound, 1000) {
        Err(PingError::MalformedPacket { packet }) => assert_eq!(packet, vec![0u8; 5]),
        _ => panic!("expected a malformed-packet error"),
    }
}

#[test]
fn unexpected_packet_fails_the_receive() {
    let pinger = Pinger { identifier: 3, ttl: 64 };
    let bytes = encode_echo(3, 0, 0, &Vec::new()); // destination unreachable
    let inbound = vec![Delivery { bytes: bytes.clone(), from: addr(1, 2, 3, 4), delay_ms: 1 }];
    match pinger.recv(inbound, 1000) {
        Err(PingError::UnexpectedPacket { packet }) => assert_eq!(packet, bytes),
        _ => panic!("expected an unexpected-packet error"),
    }
}

#[test]
fn recv_step_decisions() {
    let pinger = Pinger { identifier: 0xabcd, ttl: 64 };
    match pinger.recv_step(RecvEvent::DeadlineElapsed) {
        RecvStep::Deliver { reply: Reply::Timeout } => {}
        _ => panic!("deadline elapsing must deliver a timeout"),
    }
    match pinger.recv_step(RecvEvent::ReadFailed) {
        RecvStep::Fail { error: PingError::IcmpRecv } => {}
        _ => panic!("a read failure must fail the receive"),
    }
    let foreign = encode_echo(ECHO_REPLY_TYPE, 0x1234, 0, &Vec::new());
    match pinger.recv_step(RecvEvent::Datagram { bytes: foreign, from: addr(1, 1, 1, 1) }) {
        RecvStep::KeepWaiting => {}
        _ => panic!("a foreign reply must be discarded"),
    }
}

#[test]
fn send_uses_the_session_identifier() {
    let pinger = Pinger { identifier: 0xc0de, ttl: 64 };
    let wire = pinger.send(5, &vec![1, 2, 3]);
    assert_eq!(wire[4], 0xc0);
    assert_eq!(wire[5], 0xde);
    assert_eq!(wire[6], 0);
    assert_eq!(wire[7], 5);
    assert_eq!(&wire[8..], &[1, 2, 3]);
}
