use serial_bridge::acceptor::{Acceptor, Action, Event, Phase, SessionOutcome};
use serial_bridge::bridge::{Bridge, BridgeEvent, Demand, Direction, Progress};

fn read(direction: Direction, bytes: &[u8]) -> BridgeEvent {
    BridgeEvent::Read(direction, bytes.to_vec())
}

#[test]
fn new_bridge_waits_for_both_reads() {
    let bridge = Bridge::new();
    assert_eq!(bridge.demand(Direction::ToDevice), Demand::Read);
    assert_eq!(bridge.demand(Direction::ToClient), Demand::Read);
    assert!(bridge.unsent(Direction::ToDevice).is_empty());
    assert!(bridge.unsent(Direction::ToClient).is_empty());
    assert_eq!(bridge.progress(), Progress::Running);
}

#[test]
fn ping_reaches_the_device_and_pong_the_client() {
    let mut acceptor = Acceptor::new();
    acceptor.step(Event::Accepted);
    acceptor.step(Event::DeviceOpened);
    assert_eq!(acceptor.action(), Action::RunBridge);

    let mut bridge = Bridge::new();
    assert_eq!(bridge.handle(read(Direction::ToDevice, b"PING")), Some(Progress::Running));
    assert_eq!(bridge.demand(Direction::ToDevice), Demand::Write);
    assert_eq!(bridge.unsent(Direction::ToDevice).as_slice(), b"PING");
    assert_eq!(bridge.handle(BridgeEvent::Wrote(Direction::ToDevice, 4)), Some(Progress::Running));
    assert_eq!(bridge.demand(Direction::ToDevice), Demand::Read);
    assert!(bridge.unsent(Direction::ToDevice).is_empty());

    assert_eq!(bridge.handle(read(Direction::ToClient, b"PONG")), Some(Progress::Running));
    assert_eq!(bridge.demand(Direction::ToClient), Demand::Write);
    assert_eq!(bridge.unsent(Direction::ToClient).as_slice(), b"PONG");
    assert_eq!(bridge.handle(BridgeEvent::Wrote(Direction::ToClient, 4)), Some(Progress::Running));
    assert_eq!(bridge.demand(Direction::ToClient), Demand::Read);

    let ended = bridge.handle(read(Direction::ToDevice, b""));
    assert_eq!(ended, Some(Progress::Ended(SessionOutcome::Completed)));
    assert_eq!(
        acceptor.step(Event::SessionEnded(SessionOutcome::Completed)).unwrap().action,
        Action::Accept
    );
    assert_eq!(acceptor.phase(), Phase::Listening);
    assert!(acceptor.step(Event::Accepted).is_some());
}

#[test]
fn partial_writes_leave_the_rest_in_order() {
    let mut bridge = Bridge::new();
    bridge.handle(read(Direction::ToDevice, b"abcdefgh"));
    let mut sink: Vec<u8> = Vec::new();
    for count in [1usize, 3, 2, 2] {
        assert_eq!(bridge.demand(Direction::ToDevice), Demand::Write);
        sink.extend_from_slice(&bridge.unsent(Direction::ToDevice)[..count]);
        assert_eq!(
            bridge.handle(BridgeEvent::Wrote(Direction::ToDevice, count)),
            Some(Progress::Running)
        );
    }
    assert_eq!(sink, b"abcdefgh");
    assert_eq!(bridge.demand(Direction::ToDevice), Demand::Read);
}

#[test]
fn rest_after_a_partial_write_is_exact() {
    let mut bridge = Bridge::new();
    bridge.handle(read(Direction::ToClient, b"PONG"));
    bridge.handle(BridgeEvent::Wrote(Direction::ToClient, 1));
    assert_eq!(bridge.unsent(Direction::ToClient).as_slice(), b"ONG");
    bridge.handle(BridgeEvent::Wrote(Direction::ToClient, 2));
    assert_eq!(bridge.unsent(Direction::ToClient).as_slice(), b"G");
    assert!(bridge.unsent(Direction::ToDevice).is_empty());
}

#[test]
fn copies_do_not_mix() {
    let mut bridge = Bridge::new();
    bridge.handle(read(Direction::ToDevice, b"up"));
    bridge.handle(read(Direction::ToClient, b"down"));
    assert_eq!(bridge.unsent(Direction::ToDevice).as_slice(), b"up");
    assert_eq!(bridge.unsent(Direction::ToClient).as_slice(), b"down");
    bridge.handle(BridgeEvent::Wrote(Direction::ToClient, 4));
    assert_eq!(bridge.unsent(Direction::ToDevice).as_slice(), b"up");
    assert_eq!(bridge.demand(Direction::ToDevice), Demand::Write);
    assert_eq!(bridge.demand(Direction::ToClient), Demand::Read);
}

#[test]
fn every_byte_arrives_once_and_in_order() {
    let chunks: [&[u8]; 4] = [b"\x00\xff\x7f", b"serial", b"\r\n", b"x"];
    for direction in [Direction::ToDevice, Direction::ToClient] {
        let mut bridge = Bridge::new();
        let mut received: Vec<u8> = Vec::new();
        let mut delivered: Vec<u8> = Vec::new();
        for (index, chunk) in chunks.iter().enumerate() {
            received.extend_from_slice(chunk);
            assert_eq!(bridge.handle(read(direction, chunk)), Some(Progress::Running));
            while bridge.demand(direction) == Demand::Write {
                let count = 1 + index % bridge.unsent(direction).len();
                delivered.extend_from_slice(&bridge.unsent(direction)[..count]);
                bridge.handle(BridgeEvent::Wrote(direction, count));
                let mut whole = delivered.clone();
                whole.extend_from_slice(bridge.unsent(direction));
                assert_eq!(whole, received);
            }
        }
        assert_eq!(
            bridge.handle(read(direction, b"")),
            Some(Progress::Ended(SessionOutcome::Completed))
        );
        assert_eq!(delivered, received);
    }
}

#[test]
fn client_close_abandons_bytes_from_the_device() {
    let mut bridge = Bridge::new();
    bridge.handle(read(Direction::ToClient, b"late output"));
    bridge.handle(BridgeEvent::Wrote(Direction::ToClient, 4));
    assert_eq!(bridge.unsent(Direction::ToClient).as_slice(), b" output");

    let ended = bridge.handle(read(Direction::ToDevice, b""));
    assert_eq!(ended, Some(Progress::Ended(SessionOutcome::Completed)));
    assert_eq!(bridge.progress(), Progress::Ended(SessionOutcome::Completed));
    assert_eq!(bridge.demand(Direction::ToClient), Demand::Nothing);
    assert_eq!(bridge.demand(Direction::ToDevice), Demand::Nothing);

    assert_eq!(bridge.handle(BridgeEvent::Wrote(Direction::ToClient, 7)), None);
    assert_eq!(bridge.handle(BridgeEvent::Wrote(Direction::ToClient, 1)), None);
    assert_eq!(bridge.unsent(Direction::ToClient).as_slice(), b" output");
    assert_eq!(bridge.progress(), Progress::Ended(SessionOutcome::Completed));
}

#[test]
fn device_close_ends_the_session_too() {
    let mut bridge = Bridge::new();
    bridge.handle(read(Direction::ToDevice, b"unsent"));
    let ended = bridge.handle(read(Direction::ToClient, b""));
    assert_eq!(ended, Some(Progress::Ended(SessionOutcome::Completed)));
    assert_eq!(bridge.handle(BridgeEvent::Wrote(Direction::ToDevice, 6)), None);
}

#[test]
fn failure_of_either_copy_fails_the_session() {
    for direction in [Direction::ToDevice, Direction::ToClient] {
        let mut bridge = Bridge::new();
        assert_eq!(
            bridge.handle(BridgeEvent::Failed(direction)),
            Some(Progress::Ended(SessionOutcome::Failed))
        );
        assert_eq!(bridge.progress(), Progress::Ended(SessionOutcome::Failed));

        let mut holding = Bridge::new();
        holding.handle(read(direction, b"abc"));
        assert_eq!(
            holding.handle(BridgeEvent::Failed(direction)),
            Some(Progress::Ended(SessionOutcome::Failed))
        );
    }
}

#[test]
fn sink_that_takes_nothing_fails_the_session() {
    let mut bridge = Bridge::new();
    bridge.handle(read(Direction::ToDevice, b"abc"));
    assert_eq!(
        bridge.handle(BridgeEvent::Wrote(Direction::ToDevice, 0)),
        Some(Progress::Ended(SessionOutcome::Failed))
    );
}

#[test]
fn read_is_refused_while_bytes_are_unsent() {
    let mut bridge = Bridge::new();
    bridge.handle(read(Direction::ToDevice, b"abc"));
    assert_eq!(bridge.handle(read(Direction::ToDevice, b"def")), None);
    assert_eq!(bridge.handle(read(Direction::ToDevice, b"")), None);
    assert_eq!(bridge.unsent(Direction::ToDevice).as_slice(), b"abc");
    assert_eq!(bridge.progress(), Progress::Running);
}

#[test]
fn write_is_refused_where_nothing_was_to_write() {
    let mut bridge = Bridge::new();
    assert_eq!(bridge.handle(BridgeEvent::Wrote(Direction::ToDevice, 0)), None);
    assert_eq!(bridge.handle(BridgeEvent::Wrote(Direction::ToDevice, 1)), None);
    bridge.handle(read(Direction::ToDevice, b"abc"));
    assert_eq!(bridge.handle(BridgeEvent::Wrote(Direction::ToClient, 1)), None);
    assert_eq!(bridge.handle(BridgeEvent::Wrote(Direction::ToDevice, 4)), None);
    assert_eq!(bridge.handle(BridgeEvent::Wrote(Direction::ToDevice, usize::MAX)), None);
    assert_eq!(bridge.unsent(Direction::ToDevice).as_slice(), b"abc");
    assert_eq!(bridge.progress(), Progress::Running);
}

#[test]
fn ended_bridge_takes_nothing() {
    let mut bridge = Bridge::new();
    bridge.handle(BridgeEvent::Failed(Direction::ToClient));
    for direction in [Direction::ToDevice, Direction::ToClient] {
        assert_eq!(bridge.handle(read(direction, b"abc")), None);
        assert_eq!(bridge.handle(read(direction, b"")), None);
        assert_eq!(bridge.handle(BridgeEvent::Wrote(direction, 0)), None);
        assert_eq!(bridge.handle(BridgeEvent::Failed(direction)), None);
    }
    assert_eq!(bridge.progress(), Progress::Ended(SessionOutcome::Failed));
}
