use tungstenite::Message;
use ws_bridge::connection::{inbound_event, open_channels, outbound_event};
use ws_bridge::driver::{Action, CloseReason, Driver, Event, Phase};
use ws_bridge::RecvError;

fn open_driver() -> Driver<Message> {
    let mut d = Driver::new(None);
    assert!(matches!(d.step(Event::HandshakeDone), Action::Idle));
    assert_eq!(d.phase, Phase::Open);
    d
}

fn text(s: &str) -> Message {
    Message::Text(s.to_string())
}

/// Drives one step as a runner would: feeds the event, performs the action
/// against a fake transport (a list of sent frames) and the inbound queue.
fn perform(
    d: &mut Driver<Message>,
    ev: Event<Message>,
    sent: &mut Vec<Message>,
    ports: &ws_bridge::connection::DriverPorts,
) -> bool {
    match d.step(ev) {
        Action::Transmit(m) => {
            sent.push(m);
            true
        }
        Action::Deliver(m) => {
            ports.deliver(m);
            true
        }
        Action::Idle => true,
        Action::Stop => false,
    }
}

#[test]
fn outbound_frames_keep_send_order() {
    let (conn, ports) = open_channels();
    let mut d = open_driver();
    let mut sent = Vec::new();
    for s in ["a", "b", "c", "d"] {
        assert!(conn.send(text(s)));
    }
    while let Some(ev) = ports.poll_outbound() {
        assert!(perform(&mut d, ev, &mut sent, &ports));
    }
    assert_eq!(sent, vec![text("a"), text("b"), text("c"), text("d")]);
}

#[test]
fn interleaved_traffic_keeps_each_direction_in_order() {
    let (conn, ports) = open_channels();
    let mut d = open_driver();
    let mut sent = Vec::new();
    let evs = vec![
        Event::Outbound(text("o1")),
        Event::Inbound(text("i1")),
        Event::Outbound(text("o2")),
        Event::Inbound(text("i2")),
        Event::Inbound(text("i3")),
    ];
    for ev in evs {
        assert!(perform(&mut d, ev, &mut sent, &ports));
    }
    assert_eq!(sent, vec![text("o1"), text("o2")]);
    assert_eq!(conn.recv().ok(), Some(text("i1")));
    assert_eq!(conn.recv().ok(), Some(text("i2")));
    assert_eq!(conn.recv().ok(), Some(text("i3")));
    assert!(matches!(conn.recv(), Err(RecvError::Empty)));
}

#[test]
fn inbound_frames_arrive_in_order_then_empty() {
    let (conn, ports) = open_channels();
    assert!(ports.deliver(text("m1")));
    assert!(ports.deliver(text("m2")));
    assert!(ports.deliver(Message::Binary(vec![3, 3])));
    assert_eq!(conn.recv().ok(), Some(text("m1")));
    assert_eq!(conn.recv().ok(), Some(text("m2")));
    assert_eq!(conn.recv().ok(), Some(Message::Binary(vec![3, 3])));
    assert!(matches!(conn.recv(), Err(RecvError::Empty)));
    assert!(matches!(conn.recv(), Err(RecvError::Empty)));
    assert!(ports.deliver(text("m4")));
    assert_eq!(conn.recv().ok(), Some(text("m4")));
}

#[test]
fn transport_end_closes_for_good() {
    let (conn, ports) = open_channels();
    let mut d = open_driver();
    let mut sent = Vec::new();
    assert!(perform(&mut d, Event::Inbound(text("last")), &mut sent, &ports));
    assert!(!perform(&mut d, Event::InboundEnded, &mut sent, &ports));
    assert_eq!(d.phase, Phase::Closed(CloseReason::TransportEnded));
    assert!(!d.is_running());
    // A late frame is not forwarded once the driver has stopped.
    assert!(matches!(d.step(Event::Inbound(text("stale"))), Action::Stop));
    drop(ports);
    assert_eq!(conn.recv().ok(), Some(text("last")));
    for _ in 0..5 {
        assert!(matches!(conn.recv(), Err(RecvError::Closed)));
    }
}

#[test]
fn send_after_driver_gone_is_false() {
    let (conn, ports) = open_channels();
    drop(ports);
    assert!(!conn.send(text("x")));
    assert!(!conn.send(Message::Binary(vec![1])));
}

#[test]
fn echo_round_trip() {
    let (conn, ports) = open_channels();
    let mut d = Driver::new(None);
    let mut wire = Vec::new();
    assert!(perform(&mut d, Event::HandshakeDone, &mut wire, &ports));
    assert!(conn.send(text("hi")));
    let ev = ports.poll_outbound().unwrap();
    assert!(perform(&mut d, ev, &mut wire, &ports));
    assert_eq!(wire, vec![text("hi")]);
    // The echo transport hands the frame back.
    let echoed = wire.remove(0);
    let ev = inbound_event::<Message, tungstenite::Error>(Some(Ok(echoed)));
    assert!(perform(&mut d, ev, &mut wire, &ports));
    assert_eq!(conn.recv().ok(), Some(text("hi")));
}

#[test]
fn dropping_handle_stops_driver() {
    let (conn, ports) = open_channels();
    let mut d = open_driver();
    let mut sent = Vec::new();
    drop(conn);
    let ev = ports.poll_outbound().unwrap();
    assert!(matches!(ev, Event::OutboundClosed));
    assert!(!perform(&mut d, ev, &mut sent, &ports));
    assert_eq!(d.phase, Phase::Closed(CloseReason::ConsumerGone));
    assert!(!perform(&mut d, Event::Outbound(text("late")), &mut sent, &ports));
    assert!(!perform(&mut d, Event::Inbound(text("late")), &mut sent, &ports));
    assert!(sent.is_empty());
    assert!(!ports.deliver(text("nobody")));
}

#[test]
fn handshake_failure_stops_without_sending() {
    let mut d = Driver::new(Some(text("init")));
    assert!(matches!(d.step(Event::HandshakeFailed), Action::Stop));
    assert_eq!(d.phase, Phase::Closed(CloseReason::HandshakeFailed));
    assert!(d.initial.is_none());
    assert!(matches!(d.step(Event::HandshakeDone), Action::Stop));
}

#[test]
fn initial_message_goes_first() {
    let mut d = Driver::new(Some(text("init")));
    assert!(d.is_running());
    match d.step(Event::HandshakeDone) {
        Action::Transmit(m) => assert_eq!(m, text("init")),
        _ => panic!("expected the initial message"),
    }
    assert_eq!(d.phase, Phase::Open);
    assert!(d.initial.is_none());
    assert!(matches!(d.step(Event::Outbound(text("next"))), Action::Transmit(_)));
}

#[test]
fn failures_close_with_reason() {
    let mut d = open_driver();
    assert!(matches!(d.step(Event::SendFailed), Action::Stop));
    assert_eq!(d.phase, Phase::Closed(CloseReason::SendFailed));
    let mut d = open_driver();
    assert!(matches!(d.step(Event::InboundFailed), Action::Stop));
    assert_eq!(d.phase, Phase::Closed(CloseReason::TransportFailed));
}

#[test]
fn socket_failing_before_open_is_failed_handshake() {
    let mut d: Driver<Message> = Driver::new(None);
    assert!(matches!(d.step(Event::InboundFailed), Action::Stop));
    assert_eq!(d.phase, Phase::Closed(CloseReason::HandshakeFailed));
    let mut d: Driver<Message> = Driver::new(None);
    assert!(matches!(d.step(Event::InboundEnded), Action::Stop));
    assert_eq!(d.phase, Phase::Closed(CloseReason::HandshakeFailed));
    let mut d: Driver<Message> = Driver::new(Some(text("init")));
    assert!(matches!(d.step(Event::OutboundClosed), Action::Stop));
    assert_eq!(d.phase, Phase::Closed(CloseReason::ConsumerGone));
}

#[test]
fn inbound_before_handshake_is_forwarded() {
    let mut d: Driver<Message> = Driver::new(None);
    match d.step(Event::Inbound(text("early"))) {
        Action::Deliver(m) => assert_eq!(m, text("early")),
        _ => panic!("expected the early frame to be delivered"),
    }
    assert_eq!(d.phase, Phase::Connecting);
}

#[test]
fn wait_outcomes_become_events() {
    assert!(matches!(outbound_event(Some(7u8)), Event::Outbound(7)));
    assert!(matches!(outbound_event::<u8>(None), Event::OutboundClosed));
    assert!(matches!(inbound_event::<u8, ()>(Some(Ok(4))), Event::Inbound(4)));
    assert!(matches!(inbound_event::<u8, ()>(Some(Err(()))), Event::InboundFailed));
    assert!(matches!(inbound_event::<u8, ()>(None), Event::InboundEnded));
}
