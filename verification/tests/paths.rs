use crossbeam_channel::{bounded, Sender};
use mqtt_connection::channel::{Outgoing, Undelivered};
use mqtt_connection::error::{ConnectError, NetworkError, TimeoutError};
use mqtt_connection::notification::{delivered, handle_notification, Delivery, Notification};
use mqtt_connection::options::{ConnectionMethod, MqttOptions, Proxy, ReconnectOptions};
use mqtt_connection::packet::{
    Connack, Connect, ConnectReturnCode, Packet, PacketIdentifier, Protocol, Publish, QoS,
    Subscribe, SubscribeTopic, Unsubscribe,
};
use mqtt_connection::request::{command_stream, should_forward_packet, Command, Request};
use mqtt_connection::session::{
    check_and_validate_connack, handle_stream_timeout_error, limit_in_flight_request_stream,
    mqtt_connect, network_reply_packet, network_reply_stream, network_request_packet,
    request_stream, start_session, validate_userrequest, ConnectAction, ConnectEvent, MqttState,
};
use mqtt_connection::stream::{EitherStream, Prepend, Prepended};
use std::collections::VecDeque;
use std::io::{Error, ErrorKind};
use std::sync::Arc;

fn options(client_id: &str) -> MqttOptions {
    MqttOptions {
        broker_addr: "localhost".to_string(),
        port: 1883,
        client_id: client_id.to_string(),
        keep_alive: 10,
        connection_method: ConnectionMethod::Tcp,
        proxy: Proxy::Direct,
        reconnect: ReconnectOptions::Never,
        notification_channel_capacity: 1,
        request_channel_capacity: 1,
        in_flight: 2,
        outgoing_ratelimit: None,
    }
}

fn publish(topic: &str) -> Publish {
    Publish {
        dup: false,
        qos: QoS::AtLeastOnce,
        retain: false,
        topic_name: topic.to_string(),
        pkid: Some(PacketIdentifier(7)),
        payload: Arc::new(vec![1, 2, 3]),
    }
}

fn subscribe() -> Subscribe {
    Subscribe {
        pkid: PacketIdentifier(2),
        topics: vec![SubscribeTopic { topic_path: "a/+".to_string(), qos: QoS::ExactlyOnce }],
    }
}

fn unsubscribe() -> Unsubscribe {
    Unsubscribe { pkid: PacketIdentifier(3), topics: vec!["a/+".to_string()] }
}

fn connect() -> Connect {
    Connect {
        protocol: Protocol::MQTT(4),
        keep_alive: 10,
        client_id: "device".to_string(),
        clean_session: true,
        last_will: None,
        username: None,
        password: None,
    }
}

fn sendable() -> Vec<(Request, Packet)> {
    let id = PacketIdentifier(5);
    vec![
        (Request::Publish(publish("t")), Packet::Publish(publish("t"))),
        (Request::PubAck(id), Packet::Puback(id)),
        (Request::PubRec(id), Packet::Pubrec(id)),
        (Request::PubRel(id), Packet::Pubrel(id)),
        (Request::PubComp(id), Packet::Pubcomp(id)),
        (Request::Ping, Packet::Pingreq),
        (Request::Disconnect, Packet::Disconnect),
        (Request::Subscribe(subscribe()), Packet::Subscribe(subscribe())),
        (Request::Unsubscribe(unsubscribe()), Packet::Unsubscribe(unsubscribe())),
    ]
}

#[test]
fn requests_become_their_packets() {
    for (request, packet) in sendable() {
        assert_eq!(Packet::from(request), packet);
    }
}

#[test]
fn different_requests_become_different_packets() {
    let packets: Vec<Packet> = sendable().into_iter().map(|(r, _)| Packet::from(r)).collect();
    for i in 0..packets.len() {
        for j in 0..i {
            assert_ne!(packets[i], packets[j]);
        }
    }
}

#[test]
fn only_empty_requests_are_held_back() {
    assert!(!should_forward_packet(&Request::Empty));
    assert!(should_forward_packet(&Request::Reconnect(options("x"))));
    for (request, _) in sendable() {
        assert!(should_forward_packet(&request));
    }
}

#[test]
fn commands_become_errors() {
    assert!(matches!(command_stream(Ok(Command::Pause)), Err(NetworkError::UserDisconnect)));
    assert!(matches!(command_stream(Ok(Command::Resume)), Err(NetworkError::UserReconnect)));
    assert!(matches!(command_stream(Err(())), Err(NetworkError::Blah)));
}

fn tell(notification: Notification, notification_tx: &Sender<Notification>) -> Delivery {
    handle_notification(Outgoing::new(notification, notification_tx))
}

#[test]
fn reconnect_request_replaces_the_options() {
    let mut state = MqttState { opts: options("old"), session: 4 };
    let result = validate_userrequest(Request::Reconnect(options("new")), &mut state);
    assert!(matches!(result, Err(NetworkError::UserReconnect)));
    assert_eq!(state.opts, options("new"));
    assert_eq!(state.session, 4);
}

#[test]
fn other_requests_leave_the_options() {
    for (request, packet) in sendable() {
        let mut state = MqttState { opts: options("old"), session: 4 };
        assert_eq!(validate_userrequest(request, &mut state).unwrap(), packet);
        assert_eq!(state.opts, options("old"));
    }
}

#[test]
fn requests_go_through_the_session() {
    let mut state = MqttState { opts: options("old"), session: Vec::new() };
    for (request, packet) in sendable() {
        let outgoing = request_stream(Ok(request), &mut state, |state, p| {
            state.session.push(p);
            Ok(Request::Ping)
        });
        assert!(matches!(outgoing, Ok(Request::Ping)));
        assert_eq!(state.session.pop(), Some(packet));
    }
    let outgoing = request_stream(Ok(Request::Ping), &mut state, |_, _| {
        Err(NetworkError::InvalidState)
    });
    assert!(matches!(outgoing, Err(NetworkError::InvalidState)));
}

#[test]
fn failed_and_reconnect_requests_do_not_reach_the_session() {
    let mut state = MqttState { opts: options("old"), session: 0 };
    let outgoing = request_stream(Err(NetworkError::Unsolicited), &mut state, |_, _| {
        panic!("reached the session")
    });
    assert!(matches!(outgoing, Err(NetworkError::Blah)));
    assert_eq!(state.opts, options("old"));
    let outgoing = request_stream(Ok(Request::Reconnect(options("new"))), &mut state, |_, _| {
        panic!("reached the session")
    });
    assert!(matches!(outgoing, Err(NetworkError::UserReconnect)));
    assert_eq!(state.opts, options("new"));
}

#[test]
fn free_queue_lets_requests_through() {
    let mut requests = Prepend::new(vec![20, 10]);
    let poll = |s: &mut Vec<u8>| s.pop().ok_or("end");
    let polled =
        limit_in_flight_request_stream(2, 1, &mut requests, |_| panic!("peeked"), poll);
    assert_eq!(polled, Some(Ok(10)));
    requests.insert(VecDeque::from(vec![5]));
    let polled = limit_in_flight_request_stream(
        2,
        1,
        &mut requests,
        |_| panic!("peeked"),
        |_| -> Result<u8, ()> { panic!("polled") },
    );
    assert_eq!(polled, Some(Ok(5)));
    for answer in vec![Ok(20), Err("end")] {
        let polled =
            limit_in_flight_request_stream(2, 0, &mut requests, |_| panic!("peeked"), poll);
        assert_eq!(polled, Some(answer));
    }
}

#[test]
fn full_queue_holds_requests_back() {
    let mut requests = Prepend::new(vec![20, 10]);
    let peek = |s: &mut Vec<u8>| s.pop().ok_or(false);
    let polled = limit_in_flight_request_stream(
        2,
        2,
        &mut requests,
        peek,
        |_| -> Result<u8, ()> { panic!("polled") },
    );
    assert_eq!(polled, None);
    let polled = limit_in_flight_request_stream(
        2,
        3,
        &mut requests,
        |_| panic!("peeked"),
        |_| -> Result<u8, ()> { panic!("polled") },
    );
    assert_eq!(polled, None);
    for answer in vec![Ok(10), Ok(20), Err(())] {
        let polled = limit_in_flight_request_stream(
            2,
            1,
            &mut requests,
            |_| panic!("peeked"),
            |s| s.pop().ok_or(()),
        );
        assert_eq!(polled, Some(answer));
    }
}

#[test]
fn failed_peek_polls_in_spite_of_a_full_queue() {
    let mut requests: Prepend<u8, u32> = Prepend::new(0);
    let polled = limit_in_flight_request_stream(
        2,
        2,
        &mut requests,
        |asked| {
            *asked += 1;
            Err(true)
        },
        |asked| {
            *asked += 10;
            Err(*asked)
        },
    );
    assert_eq!(polled, Some(Err(11)));
    let polled = limit_in_flight_request_stream(
        2,
        2,
        &mut requests,
        |_| Err(false),
        |_| -> Result<u8, u32> { panic!("polled") },
    );
    assert_eq!(polled, None);
}

#[test]
fn zero_in_flight_takes_nothing() {
    let mut requests = Prepend::new(vec![1]);
    for _ in 0..3 {
        let polled = limit_in_flight_request_stream(
            0,
            0,
            &mut requests,
            |s| s.pop().ok_or(false),
            |s| s.pop().ok_or(()),
        );
        assert_eq!(polled, None);
    }
}

#[test]
fn last_session_goes_in_front() {
    let id = |i| Request::PubAck(PacketIdentifier(i));
    let mut requests = Prepend::new(VecDeque::from(vec![Request::Ping]));
    let mut state = MqttState { opts: options("a"), session: VecDeque::new() };
    start_session(&mut requests, &mut state, |state| std::mem::take(&mut state.session));
    state.session = VecDeque::from(vec![id(3)]);
    start_session(&mut requests, &mut state, |state| std::mem::take(&mut state.session));
    state.session = VecDeque::from(vec![id(1), id(2)]);
    start_session(&mut requests, &mut state, |state| std::mem::take(&mut state.session));
    assert!(state.session.is_empty());
    for request in vec![id(1), id(2), id(3), Request::Ping] {
        let polled = limit_in_flight_request_stream(
            1,
            0,
            &mut requests,
            |_| panic!("peeked"),
            |s| s.pop_front().ok_or(()),
        );
        assert_eq!(polled, Some(Ok(request)));
    }
}

#[test]
fn silence_is_answered_by_a_ping() {
    let mut pings = 0;
    let reply = handle_stream_timeout_error(TimeoutError::Elapsed, &mut pings, |pings, packet| {
        assert_eq!(packet, Packet::Pingreq);
        *pings += 1;
        Ok(Request::Ping)
    });
    assert!(matches!(reply, Ok(Request::Ping)));
    let reply = handle_stream_timeout_error(TimeoutError::Elapsed, &mut pings, |_, _| {
        Err(NetworkError::InvalidState)
    });
    assert!(matches!(reply, Err(NetworkError::InvalidState)));
    assert_eq!(pings, 1);
}

#[test]
fn stream_errors_pass_though_the_session_sees_a_ping() {
    let mut pings = 0;
    let error = TimeoutError::Inner(NetworkError::NetworkStreamClosed);
    let reply = handle_stream_timeout_error(error, &mut pings, |pings, _| {
        *pings += 1;
        Ok(Request::Ping)
    });
    assert!(matches!(reply, Err(NetworkError::NetworkStreamClosed)));
    assert_eq!(pings, 1);
}

#[test]
fn replies_become_packets() {
    let id = PacketIdentifier(9);
    let packet = network_reply_packet(Ok(Request::PubAck(id)), &mut (), |_, _| panic!("pinged"));
    assert_eq!(packet.unwrap(), Some(Packet::Puback(id)));
    let packet = network_reply_packet(Ok(Request::Empty), &mut (), |_, _| panic!("pinged"));
    assert_eq!(packet.unwrap(), None);
    let packet = network_reply_packet(Err(TimeoutError::Elapsed), &mut (), |_, _| Ok(Request::Ping));
    assert_eq!(packet.unwrap(), Some(Packet::Pingreq));
    let packet = network_reply_packet(Err(TimeoutError::Elapsed), &mut (), |_, _| Ok(Request::Empty));
    assert_eq!(packet.unwrap(), None);
    let packet = network_reply_packet(
        Err(TimeoutError::Inner(NetworkError::NetworkStreamClosed)),
        &mut (),
        |_, _| Ok(Request::Ping),
    );
    assert!(matches!(packet, Err(NetworkError::NetworkStreamClosed)));
}

#[test]
fn outgoing_requests_are_filtered_and_become_packets() {
    let items = vec![Request::Empty, Request::Ping];
    let sent: Vec<Packet> =
        items.into_iter().filter_map(|r| network_request_packet(Ok(r)).unwrap()).collect();
    assert_eq!(sent, vec![Packet::Pingreq]);
    for (request, packet) in sendable() {
        assert_eq!(network_request_packet(Ok(request)).unwrap(), Some(packet));
    }
    let failed = network_request_packet(Err(NetworkError::InvalidState));
    assert!(matches!(failed, Err(NetworkError::InvalidState)));
}

#[test]
fn replies_and_notifications_keep_their_order() {
    let (tx, rx) = bounded(10);
    let ack = |i| Request::PubAck(PacketIdentifier(i));
    let told = |i| Notification::PubAck(PacketIdentifier(i));
    let mut answers = VecDeque::from(vec![
        (told(1), ack(1)),
        (told(2), Request::Empty),
        (Notification::Empty, ack(3)),
        (told(4), ack(4)),
    ]);
    let mut replies = Vec::new();
    while !answers.is_empty() {
        let item = Some(Ok(Packet::Pingresp));
        let reply = network_reply_stream(
            item,
            &mut answers,
            |a, _| Ok(a.pop_front().unwrap()),
            |n| tell(n, &tx),
        );
        replies.extend(reply.unwrap());
    }
    assert_eq!(replies, vec![ack(1), ack(3), ack(4)]);
    assert_eq!(rx.try_iter().collect::<Vec<_>>(), vec![told(1), told(2), told(4)]);
}

#[test]
fn limited_stream_keeps_the_order() {
    let mut requests = Prepend::new(VecDeque::from(vec![1, 2, 3, 4]));
    let mut yielded = Vec::new();
    for full in vec![true, true, false, false, true, false, true, false, true, false] {
        let polled = limit_in_flight_request_stream(
            1,
            if full { 1 } else { 0 },
            &mut requests,
            |s| s.pop_front().ok_or(false),
            |s| s.pop_front().ok_or(()),
        );
        match polled {
            Some(item) => yielded.extend(item),
            None => assert!(full),
        }
    }
    assert_eq!(yielded, vec![1, 2, 3, 4]);
}

#[test]
fn incoming_packet_notifies_and_replies() {
    let (tx, rx) = bounded(2);
    let mut seen = Vec::new();
    let reply = network_reply_stream(
        Some(Ok(Packet::Publish(publish("t")))),
        &mut seen,
        |seen, packet| {
            seen.push(packet);
            Ok((Notification::Publish(publish("t")), Request::PubAck(PacketIdentifier(7))))
        },
        |n| tell(n, &tx),
    );
    assert_eq!(reply.unwrap(), Some(Request::PubAck(PacketIdentifier(7))));
    assert_eq!(seen, vec![Packet::Publish(publish("t"))]);
    assert_eq!(rx.try_recv(), Ok(Notification::Publish(publish("t"))));

    let reply = network_reply_stream(
        Some(Ok(Packet::Pingresp)),
        &mut seen,
        |_, _| Ok((Notification::Empty, Request::Empty)),
        |n| tell(n, &tx),
    );
    assert_eq!(reply.unwrap(), None);
    assert!(rx.try_recv().is_err());
}

#[test]
fn network_stream_errors_tell_the_user_nothing() {
    let tell = |_| panic!("told");
    let reply = network_reply_stream(None, &mut (), |_, _| panic!("handled"), tell);
    assert!(matches!(reply, Err(NetworkError::NetworkStreamClosed)));
    let broken = Error::new(ErrorKind::BrokenPipe, "broken");
    let reply = network_reply_stream(Some(Err(broken)), &mut (), |_, _| panic!("handled"), tell);
    match reply {
        Err(NetworkError::Io(e)) => assert_eq!(e.kind(), ErrorKind::BrokenPipe),
        _ => panic!("no io error"),
    }
    let reply = network_reply_stream(
        Some(Ok(Packet::Pingresp)),
        &mut (),
        |_, _| Err(NetworkError::Unsolicited),
        tell,
    );
    assert!(matches!(reply, Err(NetworkError::Unsolicited)));
}

#[test]
fn notification_is_handed_to_the_notifier() {
    let mut told = Vec::new();
    let reply = network_reply_stream(
        Some(Ok(Packet::Pingresp)),
        &mut (),
        |_, _| Ok((Notification::PubComp(PacketIdentifier(1)), Request::Empty)),
        |notification| {
            told.push(notification);
            Delivery::Sent
        },
    );
    assert_eq!(reply.unwrap(), None);
    assert_eq!(told, vec![Notification::PubComp(PacketIdentifier(1))]);
}

#[test]
fn notifications_are_sent_once_and_dropped_when_full() {
    let (tx, rx) = bounded(1);
    assert!(Outgoing::new(Notification::Empty, &tx).is_empty());
    let first = Notification::PubAck(PacketIdentifier(1));
    assert!(!Outgoing::new(first.clone(), &tx).is_empty());
    let second = Notification::PubAck(PacketIdentifier(2));
    assert_eq!(tell(Notification::Empty, &tx), Delivery::Skipped);
    assert!(rx.is_empty());
    assert_eq!(tell(first.clone(), &tx), Delivery::Sent);
    assert_eq!(
        tell(second.clone(), &tx),
        Delivery::Failed(Undelivered::Full(second.clone()))
    );
    assert_eq!(rx.try_recv(), Ok(first));
    assert!(rx.is_empty());
    drop(rx);
    assert_eq!(
        tell(second.clone(), &tx),
        Delivery::Failed(Undelivered::Disconnected(second))
    );
}

#[test]
fn deliveries_follow_the_channel() {
    assert_eq!(delivered(Ok(())), Delivery::Sent);
    let lost = Undelivered::Full(Notification::PubRec(PacketIdentifier(4)));
    assert_eq!(delivered(Err(lost.clone())), Delivery::Failed(lost));
}

fn connack(code: ConnectReturnCode) -> Connack {
    Connack { session_present: false, code }
}

#[test]
fn connack_is_checked_by_the_session() {
    let accepted = connack(ConnectReturnCode::Accepted);
    let checked = check_and_validate_connack(Some(Packet::Connack(accepted)), 3, &mut (), |_, c| {
        assert_eq!(c, accepted);
        Ok(())
    });
    assert!(matches!(checked, Ok(3)));
    let refused = connack(ConnectReturnCode::NotAuthorized);
    let checked = check_and_validate_connack(Some(Packet::Connack(refused)), 3, &mut (), |_, c| {
        Err(ConnectError::MqttConnectionRefused(c.code))
    });
    assert!(matches!(
        checked,
        Err(ConnectError::MqttConnectionRefused(ConnectReturnCode::NotAuthorized))
    ));
}

#[test]
fn anything_but_a_connack_is_refused() {
    let checked =
        check_and_validate_connack(Some(Packet::Pingresp), 3, &mut (), |_, _| panic!("asked"));
    assert!(matches!(checked, Err(ConnectError::NotConnackPacket(Packet::Pingresp))));
    let checked = check_and_validate_connack(None, 3, &mut (), |_, _| panic!("asked"));
    assert!(matches!(checked, Err(ConnectError::NoResponse)));
}

fn handshake(event: ConnectEvent<u8>, verdict: Result<(), ConnectError>) -> ConnectAction<u8> {
    mqtt_connect(event, &mut (), |_, _| verdict)
}

#[test]
fn handshake_step_by_step() {
    match handshake(ConnectEvent::Opened(Ok(1), connect()), Ok(())) {
        ConnectAction::Send(1, packet) => assert_eq!(packet, Packet::Connect(connect())),
        _ => panic!("nothing sent"),
    }
    assert!(matches!(handshake(ConnectEvent::Sent(Ok(1)), Ok(())), ConnectAction::Receive(1)));
    let answer = Packet::Connack(connack(ConnectReturnCode::Accepted));
    assert!(matches!(
        handshake(ConnectEvent::Received(Ok((Some(answer), 1))), Ok(())),
        ConnectAction::Finish(Ok(1))
    ));
}

#[test]
fn handshake_failures() {
    let broken = || Error::new(ErrorKind::ConnectionReset, "reset");
    assert!(matches!(
        handshake(ConnectEvent::Opened(Err(ConnectError::Timeout), connect()), Ok(())),
        ConnectAction::Finish(Err(ConnectError::Timeout))
    ));
    assert!(matches!(
        handshake(ConnectEvent::Sent(Err(broken())), Ok(())),
        ConnectAction::Finish(Err(ConnectError::Io(_)))
    ));
    assert!(matches!(
        handshake(ConnectEvent::Received(Err(broken())), Ok(())),
        ConnectAction::Finish(Err(ConnectError::Io(_)))
    ));
    assert!(matches!(
        handshake(ConnectEvent::Received(Ok((None, 1))), Ok(())),
        ConnectAction::Finish(Err(ConnectError::NoResponse))
    ));
    assert!(matches!(
        handshake(ConnectEvent::Received(Ok((Some(Packet::Disconnect), 1))), Ok(())),
        ConnectAction::Finish(Err(ConnectError::NotConnackPacket(Packet::Disconnect)))
    ));
    let answer = Packet::Connack(connack(ConnectReturnCode::ServerUnavailable));
    assert!(matches!(
        handshake(
            ConnectEvent::Received(Ok((Some(answer), 1))),
            Err(ConnectError::MqttConnectionRefused(ConnectReturnCode::ServerUnavailable))
        ),
        ConnectAction::Finish(Err(ConnectError::MqttConnectionRefused(
            ConnectReturnCode::ServerUnavailable
        )))
    ));
}

#[test]
fn either_stream_polls_the_one_that_is_there() {
    let mut a: EitherStream<Vec<u8>, bool> = EitherStream::A(vec![1, 2]);
    assert_eq!(a.poll(|v| v.pop(), |_| panic!("polled b")), Some(2));
    assert!(matches!(a, EitherStream::A(ref v) if *v == vec![1]));
    let mut b: EitherStream<Vec<u8>, bool> = EitherStream::B(true);
    let polled = b.poll(
        |_| panic!("polled a"),
        |flag| {
            *flag = false;
            7
        },
    );
    assert_eq!(polled, 7);
    assert!(matches!(b, EitherStream::B(false)));
}

#[test]
fn session_goes_first() {
    let mut stream = Prepend::new(vec![9, 8]);
    assert_eq!(stream.poll(|s| s.pop()), Prepended::Behind(Some(8)));
    stream.insert(VecDeque::from(vec![1, 2, 3]));
    assert_eq!(stream.poll(|_| panic!("polled")), Prepended::Front::<i32, ()>(1));
    stream.insert(VecDeque::from(vec![4, 5]));
    let mut order = Vec::new();
    loop {
        match stream.poll(|s| s.pop()) {
            Prepended::Front(item) => order.push(item),
            Prepended::Behind(item) => {
                assert_eq!(item, Some(9));
                break;
            }
        }
    }
    assert_eq!(order, vec![4, 5, 2, 3]);
    assert_eq!(stream.poll(|s| s.pop()), Prepended::Behind(None));
}

#[test]
fn peeked_items_are_not_lost() {
    let mut stream = Prepend::new(vec![9, 8]);
    let take = |s: &mut Vec<i32>| s.pop().ok_or("end");
    assert_eq!(stream.peek(take), Ok(()));
    assert_eq!(stream.peek(|_| panic!("polled")), Ok::<(), ()>(()));
    // a reconnection puts its items in front of the one that was looked at
    stream.insert(VecDeque::from(vec![1]));
    assert_eq!(stream.poll(|_| panic!("polled")), Prepended::Front::<i32, ()>(1));
    assert_eq!(stream.poll(|_| panic!("polled")), Prepended::Front::<i32, ()>(8));
    assert_eq!(stream.poll(|s| s.pop()), Prepended::Behind(Some(9)));
    assert_eq!(stream.peek(take), Err("end"));
    assert_eq!(stream.poll(|s| s.pop()), Prepended::Behind(None));
}
