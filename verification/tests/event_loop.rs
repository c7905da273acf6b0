use crossbeam_channel::{bounded, Receiver, RecvError};
use mqtt_connection::connection::{
    throttle_error, ChannelCapacities, Connection, HttpProxy, LoopEvent, LoopStep, Reconnection,
    Transition, CONNECT_TIMEOUT_SECS,
};
use mqtt_connection::error::{ConnectError, NetworkError, TimeoutError};
use mqtt_connection::notification::Notification;
use mqtt_connection::options::{ConnectionMethod, MqttOptions, Proxy, ReconnectOptions};
use mqtt_connection::request::{command_stream, Command};
use mqtt_connection::stream::EitherStream;

type Status = Result<(), ConnectError>;

fn options(reconnect: ReconnectOptions) -> MqttOptions {
    MqttOptions {
        broker_addr: "broker.example".to_string(),
        port: 1883,
        client_id: "device-1".to_string(),
        keep_alive: 60,
        connection_method: ConnectionMethod::Tcp,
        proxy: Proxy::Direct,
        reconnect,
        notification_channel_capacity: 10,
        request_channel_capacity: 20,
        in_flight: 100,
        outgoing_ratelimit: None,
    }
}

fn connect_with(options: MqttOptions) -> (Connection, Receiver<Notification>, Receiver<Status>) {
    let capacities = Connection::channel_capacities(&options);
    let (notification_tx, notification_rx) = bounded(capacities.notification);
    let (connection_tx, connection_rx) = bounded(capacities.connection);
    (
        Connection::new(options, notification_tx, connection_tx),
        notification_rx,
        connection_rx,
    )
}

fn send(transition: Transition<u8>) -> (bool, Option<u64>, LoopStep<u8>) {
    let reported = transition.report.is_some();
    if let Some(report) = transition.report {
        report.to.send(report.status).unwrap();
    }
    (reported, transition.delay, transition.next)
}

fn refused() -> LoopEvent<u8> {
    LoopEvent::Connect(Err(TimeoutError::Inner(ConnectError::NoResponse)))
}

#[test]
fn capacities_come_from_the_options() {
    assert_eq!(
        Connection::channel_capacities(&options(ReconnectOptions::Never)),
        ChannelCapacities { notification: 10, request: 20, command: 5, connection: 1 }
    );
    assert_eq!(CONNECT_TIMEOUT_SECS, 30);
}

#[test]
fn first_success_is_reported_and_streams_run() {
    let (mut connection, _n, rx) = connect_with(options(ReconnectOptions::Never));
    let turn = send(connection.mqtt_eventloop(LoopEvent::Connect(Ok(7)), false));
    assert_eq!(turn, (true, None, LoopStep::Stream(7)));
    assert!(matches!(rx.recv(), Ok(Ok(()))));
}

#[test]
fn first_attempt_is_reported_once() {
    let (mut connection, _n, rx) = connect_with(options(ReconnectOptions::Always(3)));
    assert_eq!(
        send(connection.mqtt_eventloop(refused(), false)),
        (true, Some(3), LoopStep::Connect)
    );
    assert!(matches!(rx.recv(), Ok(Err(ConnectError::NoResponse))));
    assert_eq!(
        send(connection.mqtt_eventloop(refused(), false)),
        (false, Some(3), LoopStep::Connect)
    );
    assert_eq!(
        send(connection.mqtt_eventloop(LoopEvent::Connect(Ok(1)), false)),
        (false, None, LoopStep::Stream(1))
    );
    // the sending half went with the only report
    assert!(rx.recv().is_err());
}

#[test]
fn first_failure_ends_the_loop_where_the_first_attempt_has_to_succeed() {
    for disconnecting in vec![false, true] {
        let policy = ReconnectOptions::AfterFirstSuccess(3);
        let (mut connection, _n, rx) = connect_with(options(policy));
        let turn = send(connection.mqtt_eventloop(refused(), disconnecting));
        assert_eq!(turn, (true, None, LoopStep::Stop));
        assert!(matches!(
            Connection::run(policy, rx.recv(), ()),
            Err(ConnectError::NoResponse)
        ));
    }
}

#[test]
fn later_failures_are_retried_after_a_first_success() {
    let (mut connection, _n, _rx) = connect_with(options(ReconnectOptions::AfterFirstSuccess(3)));
    assert_eq!(
        send(connection.mqtt_eventloop(LoopEvent::Connect(Ok(1)), false)),
        (true, None, LoopStep::Stream(1))
    );
    let closed = LoopEvent::Io(Err(NetworkError::NetworkStreamClosed));
    assert_eq!(
        send(connection.mqtt_eventloop(closed, false)),
        (false, Some(3), LoopStep::Connect)
    );
    assert_eq!(
        send(connection.mqtt_eventloop(refused(), false)),
        (false, Some(3), LoopStep::Connect)
    );
}

#[test]
fn elapsed_and_timer_errors_are_reported_as_timeout() {
    for event in vec![TimeoutError::Elapsed, TimeoutError::Timer] {
        let (mut connection, _n, rx) = connect_with(options(ReconnectOptions::Never));
        let turn = send(connection.mqtt_eventloop(LoopEvent::Connect(Err(event)), false));
        assert_eq!(turn, (true, None, LoopStep::Stop));
        assert!(matches!(rx.recv(), Ok(Err(ConnectError::Timeout))));
    }
}

#[test]
fn success_and_error_handlers_report_the_first_attempt_only() {
    let (mut connection, _n, _rx) = connect_with(options(ReconnectOptions::Never));
    let report = connection.handle_connection_error(TimeoutError::Elapsed).unwrap();
    assert!(matches!(report.status, Err(ConnectError::Timeout)));
    assert!(connection.handle_connection_success().is_none());
    assert!(connection.handle_connection_error(TimeoutError::Elapsed).is_none());

    let (mut connection, _n, _rx) = connect_with(options(ReconnectOptions::Never));
    assert!(matches!(connection.handle_connection_success().unwrap().status, Ok(())));
    assert!(connection.handle_connection_success().is_none());
}

#[test]
fn connect_timeout_hands_on_the_transport_or_the_policy() {
    let (mut connection, _n, _rx) = connect_with(options(ReconnectOptions::AfterFirstSuccess(9)));
    let (report, framed) = connection.connect_timeout(Ok(5u8), false);
    assert!(report.is_some());
    assert_eq!(framed, Ok(5));
    let (report, framed) = connection.connect_timeout::<u8>(Err(TimeoutError::Elapsed), false);
    assert!(report.is_none());
    assert_eq!(framed, Err(Reconnection { delay: Some(9), again: true }));
}

#[test]
fn policy_decides_on_reconnection() {
    for (policy, disconnecting, delay, again) in vec![
        (ReconnectOptions::Never, false, None, false),
        (ReconnectOptions::Never, true, None, false),
        (ReconnectOptions::AfterFirstSuccess(4), false, Some(4), true),
        (ReconnectOptions::AfterFirstSuccess(4), true, Some(4), false),
        (ReconnectOptions::Always(0), false, Some(0), true),
        (ReconnectOptions::Always(8), true, Some(8), false),
    ] {
        let (mut connection, _n, _rx) = connect_with(options(policy));
        assert_eq!(
            connection.should_reconnect_again(disconnecting),
            Reconnection { delay, again }
        );
        let next = if again { LoopStep::Connect } else { LoopStep::Stop };
        for outcome in vec![
            Ok(()),
            Err(NetworkError::NetworkStreamClosed),
            Err(NetworkError::ThrottleError),
            Err(NetworkError::Blah),
        ] {
            let turn = send(connection.mqtt_eventloop(LoopEvent::Io(outcome), disconnecting));
            assert_eq!(turn, (false, delay, next));
        }
    }
}

#[test]
fn commands_reconnect_at_once() {
    for policy in vec![ReconnectOptions::Never, ReconnectOptions::Always(60)] {
        for disconnecting in vec![false, true] {
            for command in vec![Command::Pause, Command::Resume] {
                let (mut connection, _n, _rx) = connect_with(options(policy));
                let ended = command_stream(Ok(command)).map(|_| ());
                let turn = send(connection.mqtt_eventloop(LoopEvent::Io(ended), disconnecting));
                assert_eq!(turn, (false, None, LoopStep::Connect));
            }
        }
    }
}

#[test]
fn mqtt_io_never_succeeds() {
    let (mut connection, _n, _rx) = connect_with(options(ReconnectOptions::Never));
    assert_eq!(connection.mqtt_io(Ok(())), Err(false));
    assert_eq!(connection.mqtt_io(Err(NetworkError::UserDisconnect)), Err(true));
    assert_eq!(connection.mqtt_io(Err(NetworkError::UserReconnect)), Err(true));
    assert_eq!(connection.mqtt_io(Err(NetworkError::NetworkStreamClosed)), Err(false));
    assert_eq!(connection.mqtt_io(Err(NetworkError::InvalidState)), Err(false));
}

fn streams(connection: &Connection) -> (String, Option<u64>) {
    let stream = connection.mqtt_future(
        "commands",
        "packets",
        |commands, packets| format!("{} and {}", commands, packets),
        |stream: EitherStream<String, &str>, nanos| (stream, nanos),
    );
    let name = |stream| match stream {
        EitherStream::A(selected) => selected,
        EitherStream::B(commands) => format!("only {}", commands),
    };
    match stream {
        EitherStream::A((stream, nanos)) => (name(stream), Some(nanos)),
        EitherStream::B(stream) => (name(stream), None),
    }
}

#[test]
fn pause_and_resume_switch_the_packets() {
    let (mut connection, _n, _rx) = connect_with(options(ReconnectOptions::Always(1)));
    assert_eq!(streams(&connection), ("commands and packets".to_string(), None));
    connection.mqtt_eventloop::<u8>(LoopEvent::Io(Err(NetworkError::UserDisconnect)), false);
    assert_eq!(streams(&connection), ("only commands".to_string(), None));
    connection.mqtt_eventloop::<u8>(LoopEvent::Connect(Ok(1)), false);
    connection.mqtt_eventloop::<u8>(LoopEvent::Io(Err(NetworkError::NetworkStreamClosed)), false);
    connection.mqtt_eventloop::<u8>(LoopEvent::Io(Err(NetworkError::ThrottleError)), false);
    assert_eq!(streams(&connection), ("only commands".to_string(), None));
    connection.mqtt_eventloop::<u8>(LoopEvent::Io(Err(NetworkError::UserReconnect)), false);
    assert_eq!(streams(&connection), ("commands and packets".to_string(), None));
}

#[test]
fn rate_limit_gives_the_interval() {
    for (rate, nanos) in vec![(1, 1_000_000_000), (10, 100_000_000), (3, 333_333_333), (2_000_000_000, 0)] {
        let mut opts = options(ReconnectOptions::Never);
        opts.outgoing_ratelimit = Some(rate);
        let (connection, _n, _rx) = connect_with(opts);
        assert_eq!(streams(&connection), ("commands and packets".to_string(), Some(nanos)));
        match connection.rate_limited_network_stream("s", |s, n| (s, n)) {
            EitherStream::A(throttled) => assert_eq!(throttled, ("s", nanos)),
            EitherStream::B(_) => panic!("not limited"),
        }
    }
    let (connection, _n, _rx) = connect_with(options(ReconnectOptions::Never));
    assert!(matches!(
        connection.rate_limited_network_stream("s", |s, n| (s, n)),
        EitherStream::B("s")
    ));
}

#[test]
fn limiter_hides_what_went_wrong() {
    assert!(matches!(throttle_error(NetworkError::UserDisconnect), NetworkError::ThrottleError));
    assert!(matches!(throttle_error(()), NetworkError::ThrottleError));
}

#[test]
fn handle_depends_on_first_attempt_and_policy() {
    let never = ReconnectOptions::Never;
    let after = ReconnectOptions::AfterFirstSuccess(1);
    let always = ReconnectOptions::Always(1);
    for policy in vec![never, after, always] {
        assert!(matches!(Connection::run(policy, Ok(Ok(())), 5), Ok(5)));
        assert!(matches!(
            Connection::run(policy, Err(RecvError), 5),
            Err(ConnectError::Recv(RecvError))
        ));
    }
    for policy in vec![never, after] {
        assert!(matches!(
            Connection::run(policy, Ok(Err(ConnectError::NoResponse)), 5),
            Err(ConnectError::NoResponse)
        ));
    }
    assert!(matches!(Connection::run(always, Ok(Err(ConnectError::NoResponse)), 5), Ok(5)));
}

#[test]
fn handle_follows_the_report() {
    for (policy, ok) in vec![
        (ReconnectOptions::Never, false),
        (ReconnectOptions::AfterFirstSuccess(0), false),
        (ReconnectOptions::Always(0), true),
    ] {
        let (mut connection, _n, rx) = connect_with(options(policy));
        send(connection.mqtt_eventloop(refused(), false));
        assert_eq!(Connection::run(policy, rx.recv(), ()).is_ok(), ok);
    }
}

#[test]
fn plan_for_plain_tcp() {
    let (connection, _n, _rx) = connect_with(options(ReconnectOptions::Never));
    let plan = connection.tcp_connect_future();
    assert_eq!(plan.host, "broker.example");
    assert_eq!(plan.port, 1883);
    assert_eq!(plan.certificate_authority, None);
    assert_eq!(plan.client_auth, None);
    assert_eq!(plan.http_proxy, None);
}

#[test]
fn plan_for_tls_without_client_authentication() {
    let mut opts = options(ReconnectOptions::Never);
    opts.connection_method = ConnectionMethod::Tls(vec![1, 2], None);
    let (connection, _n, _rx) = connect_with(opts);
    let plan = connection.tcp_connect_future();
    assert_eq!(plan.certificate_authority, Some(vec![1, 2]));
    assert_eq!(plan.client_auth, None);
}

#[test]
fn plan_for_tls_through_a_proxy() {
    let mut opts = options(ReconnectOptions::Never);
    opts.connection_method = ConnectionMethod::Tls(vec![1], Some((vec![2], vec![3, 4])));
    opts.proxy = Proxy::HttpConnect("proxy.example".to_string(), 8080, vec![9], -5);
    let (connection, _n, _rx) = connect_with(opts);
    let plan = connection.tcp_connect_future();
    assert_eq!(plan.certificate_authority, Some(vec![1]));
    assert_eq!(plan.client_auth, Some((vec![2], vec![3, 4])));
    assert_eq!(
        plan.http_proxy,
        Some(HttpProxy {
            id: "device-1".to_string(),
            host: "proxy.example".to_string(),
            port: 8080,
            key: vec![9],
            expiry: -5,
        })
    );
}
