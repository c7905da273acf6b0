//! What each step of a connection does, in terms of what goes in and what comes out.

use crate::connection::{
    throttle_error, ChannelCapacities, ConnectPlan, Connection, LoopEvent, LoopStep, Reconnection,
    Report, Transition, CONNECT_TIMEOUT_SECS,
};
use crate::error::{ConnectError, NetworkError, TimeoutError};
use crate::laws;
use crate::notification::Notification;
use crate::options::{ConnectionMethod, MqttOptions, Proxy, ReconnectOptions};
use crate::stream::EitherStream;
use crossbeam_channel::{RecvError, Sender};
use vstd::prelude::*;

verus! {

/// The channels for notifications and requests are as large as the options say. Five commands and
/// one connection result may wait.
pub proof fn law_channel_capacities(options: MqttOptions, capacities: ChannelCapacities)
    requires
        call_ensures(Connection::channel_capacities, (&options,), capacities),
    ensures
        capacities.notification == options.notification_channel_capacity,
        capacities.request == options.request_channel_capacity,
        capacities.command == 5,
        capacities.connection == 1,
{
}

/// An attempt to connect may take half a minute.
pub proof fn law_time_for_an_attempt()
    ensures
        CONNECT_TIMEOUT_SECS == 30,
{
}

/// A new connection has made no attempt, owes the result of the first, lets packets flow, and
/// hands its options and its notification channel out as they were handed in.
pub proof fn law_new_connection(
    options: MqttOptions,
    notification_tx: Sender<Notification>,
    connection_tx: Sender<Result<(), ConnectError>>,
    connection: Connection,
    read_options: &MqttOptions,
    read_notification_tx: &Sender<Notification>,
    count: u32,
)
    requires
        call_ensures(Connection::new, (options, notification_tx, connection_tx), connection),
        call_ensures(Connection::options, (&connection,), read_options),
        call_ensures(Connection::notification_tx, (&connection,), read_notification_tx),
        call_ensures(Connection::connection_count, (&connection,), count),
    ensures
        connection@.wf(),
        connection@.connection_tx == Some(connection_tx),
        connection@.network_enabled,
        connection@.options == options,
        connection@.notification_tx == notification_tx,
        connection@.connection_count == 0,
        *read_options == options,
        *read_notification_tx == notification_tx,
        count == 0,
{
}

/// What is read of a connection is what it holds.
pub proof fn law_reading_a_connection(
    connection: Connection,
    options: &MqttOptions,
    notification_tx: &Sender<Notification>,
    count: u32,
)
    requires
        call_ensures(Connection::options, (&connection,), options),
        call_ensures(Connection::notification_tx, (&connection,), notification_tx),
        call_ensures(Connection::connection_count, (&connection,), count),
    ensures
        *options == connection@.options,
        *notification_tx == connection@.notification_tx,
        count == connection@.connection_count,
{
}

/// The user gets the handle, and no other, exactly if a result arrived and either it is a success
/// or the connection is always made again. Else the user gets the error of the first attempt, or
/// that of the channel where no result arrived.
pub proof fn law_run<H>(
    reconnect: ReconnectOptions,
    received: Result<Result<(), ConnectError>, RecvError>,
    user_handle: H,
    handle: Result<H, ConnectError>,
)
    requires
        call_ensures(Connection::run, (reconnect, received, user_handle), handle),
    ensures
        handle is Ok <==> (received matches Ok(status) && (status is Ok || reconnect is Always)),
        handle matches Ok(given) ==> given == user_handle,
        handle matches Err(error) ==> match received {
            Ok(status) => status == Err::<(), ConnectError>(error),
            Err(e) => error == ConnectError::Recv(e),
        },
{
}

/// The end of the streams makes the connection anew at once exactly if the user paused the network,
/// resumed it or asked for a reconnection. On every other end, whatever the error and also without
/// one, the event loop stops if the policy is `Never` or a disconnection is under way, and else
/// connects again. Then the delay is that of the policy, and `Never` has none. No end of the
/// streams is reported.
pub proof fn law_end_of_streams<F>(
    outcome: Result<(), NetworkError>,
    is_disconnecting: bool,
    turn: Transition<F>,
)
    ensures
        forall|connection: &mut Connection| #[trigger]
            call_ensures(
                Connection::mqtt_eventloop,
                (connection, LoopEvent::Io(outcome), is_disconnecting),
                turn,
            ) ==> {
                let policy = connection@.options.reconnect;
                let commanded = outcome == Err::<(), NetworkError>(NetworkError::UserDisconnect)
                    || outcome == Err::<(), NetworkError>(NetworkError::UserReconnect);
                &&& turn.report is None
                &&& !(turn.next is Stream)
                &&& turn.next is Stop <==> !commanded && (policy is Never || is_disconnecting)
                &&& turn.delay is Some <==> !commanded && !(policy is Never)
                &&& turn.delay matches Some(time) ==> policy == ReconnectOptions::Always(time)
                    || policy == ReconnectOptions::AfterFirstSuccess(time)
            },
{
}

/// After the end of the streams packets flow no more if the user paused the network, flow again if
/// the user resumed it or asked for a reconnection, and else do what they did. Nothing else
/// changes.
pub proof fn law_end_of_streams_state<F>(
    outcome: Result<(), NetworkError>,
    is_disconnecting: bool,
    turn: Transition<F>,
)
    ensures
        forall|connection: &mut Connection| #[trigger]
            call_ensures(
                Connection::mqtt_eventloop,
                (connection, LoopEvent::Io(outcome), is_disconnecting),
                turn,
            ) ==> {
                let before = connection@;
                let after = final(connection)@;
                &&& after.network_enabled <==> outcome == Err::<(), NetworkError>(
                    NetworkError::UserReconnect,
                ) || (before.network_enabled && outcome != Err::<(), NetworkError>(
                    NetworkError::UserDisconnect,
                ))
                &&& after.options == before.options
                &&& after.notification_tx == before.notification_tx
                &&& after.connection_tx == before.connection_tx
                &&& after.connection_count == before.connection_count
            },
{
}

/// An attempt that succeeds is followed by the streams on its transport, at once.
pub proof fn law_successful_attempt<F>(framed: F, is_disconnecting: bool, turn: Transition<F>)
    ensures
        forall|connection: &mut Connection| #[trigger]
            call_ensures(
                Connection::mqtt_eventloop,
                (connection, LoopEvent::Connect(Ok(framed)), is_disconnecting),
                turn,
            ) ==> {
                &&& turn.next == LoopStep::Stream(framed)
                &&& turn.delay is None
                &&& turn.report is Some <==> connection@.connection_tx is Some
                &&& turn.report matches Some(report) ==> {
                    &&& Some(report.to) == connection@.connection_tx
                    &&& report.status is Ok
                }
            },
{
}

/// An attempt that fails, for whatever reason, is followed by another one exactly if the policy is
/// `Always`, or `AfterFirstSuccess` and there was an attempt before, and no disconnection is under
/// way. Else the event loop stops. The delay of the policy passes in either case, but not where
/// the first attempt had to succeed.
pub proof fn law_failed_attempt<F>(
    error: TimeoutError<ConnectError>,
    is_disconnecting: bool,
    turn: Transition<F>,
)
    ensures
        forall|connection: &mut Connection| #[trigger]
            call_ensures(
                Connection::mqtt_eventloop,
                (connection, LoopEvent::Connect(Err::<F, _>(error)), is_disconnecting),
                turn,
            ) ==> {
                let policy = connection@.options.reconnect;
                let retries = policy is Always || (policy is AfterFirstSuccess
                    && connection@.connection_count > 0);
                &&& !(turn.next is Stream)
                &&& turn.next is Connect <==> retries && !is_disconnecting
                &&& turn.delay is Some <==> retries
                &&& turn.delay matches Some(time) ==> policy == ReconnectOptions::Always(time)
                    || policy == ReconnectOptions::AfterFirstSuccess(time)
            },
{
}

/// The failure of an attempt is reported where the result of one is owed: with the error of the
/// attempt itself if it has one, and else as a timeout.
pub proof fn law_failed_attempt_report<F>(
    error: TimeoutError<ConnectError>,
    is_disconnecting: bool,
    turn: Transition<F>,
)
    ensures
        forall|connection: &mut Connection| #[trigger]
            call_ensures(
                Connection::mqtt_eventloop,
                (connection, LoopEvent::Connect(Err::<F, _>(error)), is_disconnecting),
                turn,
            ) ==> {
                &&& turn.report is Some <==> connection@.connection_tx is Some
                &&& turn.report matches Some(report) ==> {
                    &&& Some(report.to) == connection@.connection_tx
                    &&& report.status matches Err(reported) && (error
                        == TimeoutError::Inner(reported) || (!(error is Inner) && reported
                        is Timeout))
                }
            },
{
}

/// Every attempt, successful or not, is counted once, and after it no result is owed. Nothing else
/// changes.
pub proof fn law_attempt_state<F>(
    outcome: Result<F, TimeoutError<ConnectError>>,
    is_disconnecting: bool,
    turn: Transition<F>,
)
    ensures
        forall|connection: &mut Connection| #[trigger]
            call_ensures(
                Connection::mqtt_eventloop,
                (connection, LoopEvent::Connect(outcome), is_disconnecting),
                turn,
            ) ==> {
                let before = connection@;
                let after = final(connection)@;
                &&& after.connection_count == before.connection_count + 1
                &&& after.connection_tx is None
                &&& after.options == before.options
                &&& after.notification_tx == before.notification_tx
                &&& after.network_enabled == before.network_enabled
            },
{
}

/// A connection that fails or ends is treated by the event loop without regard to how often it
/// failed before: two connections with the same policy, neither before its first attempt, take the
/// same step after the same delay.
pub proof fn law_turns_depend_on_the_policy<F>(
    event: LoopEvent<F>,
    is_disconnecting: bool,
    first: Transition<F>,
    second: Transition<F>,
)
    ensures
        forall|one: &mut Connection, other: &mut Connection|
            {
                &&& #[trigger] call_ensures(
                    Connection::mqtt_eventloop,
                    (one, event, is_disconnecting),
                    first,
                )
                &&& #[trigger] call_ensures(
                    Connection::mqtt_eventloop,
                    (other, event, is_disconnecting),
                    second,
                )
                &&& one@.options.reconnect == other@.options.reconnect
                &&& one@.connection_count > 0
                &&& other@.connection_count > 0
            } ==> first.next == second.next && first.delay == second.delay,
{
}

/// The end of an attempt gives its transport, or says whether the policy is to connect again, and
/// after what delay. It counts the attempt, and reports it where its result is owed.
pub proof fn law_connect_timeout<F>(
    outcome: Result<F, TimeoutError<ConnectError>>,
    is_disconnecting: bool,
    report: Option<Report>,
    framed: Result<F, Reconnection>,
)
    ensures
        forall|connection: &mut Connection| #[trigger]
            call_ensures(
                Connection::connect_timeout,
                (connection, outcome, is_disconnecting),
                (report, framed),
            ) ==> {
                let before = connection@;
                let after = final(connection)@;
                let policy = before.options.reconnect;
                &&& framed is Ok <==> outcome is Ok
                &&& framed matches Ok(f) ==> outcome == Ok::<F, TimeoutError<ConnectError>>(f)
                &&& framed matches Err(reconnection) ==> {
                    &&& reconnection.again <==> !(policy is Never) && !is_disconnecting
                    &&& reconnection.delay is None <==> policy is Never
                    &&& reconnection.delay matches Some(time) ==> policy
                        == ReconnectOptions::Always(time) || policy
                        == ReconnectOptions::AfterFirstSuccess(time)
                }
                &&& report is Some <==> before.connection_tx is Some
                &&& report matches Some(sent) ==> {
                    &&& Some(sent.to) == before.connection_tx
                    &&& match sent.status {
                        Ok(_) => outcome is Ok,
                        Err(reported) => outcome matches Err(error) && (error
                            == TimeoutError::Inner(reported) || (!(error is Inner) && reported
                            is Timeout)),
                    }
                }
                &&& after.connection_count == before.connection_count + 1
                &&& after.connection_tx is None
                &&& after.options == before.options
                &&& after.notification_tx == before.notification_tx
                &&& after.network_enabled == before.network_enabled
            },
{
}

/// The policy is to connect again unless it is `Never` or a disconnection is under way. Each policy
/// but `Never` has a delay, which passes even during a disconnection.
pub proof fn law_should_reconnect_again(
    connection: Connection,
    is_disconnecting: bool,
    reconnection: Reconnection,
)
    requires
        call_ensures(
            Connection::should_reconnect_again,
            (&connection, is_disconnecting),
            reconnection,
        ),
    ensures
        reconnection.again <==> !(connection@.options.reconnect is Never) && !is_disconnecting,
        reconnection.delay is None <==> connection@.options.reconnect is Never,
        reconnection.delay matches Some(time) ==> connection@.options.reconnect
            == ReconnectOptions::Always(time) || connection@.options.reconnect
            == ReconnectOptions::AfterFirstSuccess(time),
{
}

/// The end of the streams is always an error, and one to obey exactly if the user paused the
/// network, resumed it or asked for a reconnection. Only these switch whether packets flow.
pub proof fn law_mqtt_io(outcome: Result<(), NetworkError>, result: Result<(), bool>)
    ensures
        forall|connection: &mut Connection| #[trigger]
            call_ensures(Connection::mqtt_io, (connection, outcome), result) ==> {
                let before = connection@;
                let after = final(connection)@;
                let pauses = outcome == Err::<(), NetworkError>(NetworkError::UserDisconnect);
                let resumes = outcome == Err::<(), NetworkError>(NetworkError::UserReconnect);
                &&& result matches Err(obeyed) && (obeyed <==> pauses || resumes)
                &&& pauses ==> !after.network_enabled
                &&& resumes ==> after.network_enabled
                &&& !pauses && !resumes ==> after.network_enabled == before.network_enabled
                &&& after.options == before.options
                &&& after.notification_tx == before.notification_tx
                &&& after.connection_tx == before.connection_tx
                &&& after.connection_count == before.connection_count
            },
{
}

/// A success is counted, and reported as a success to whom the result is owed.
pub proof fn law_connection_success(report: Option<Report>)
    ensures
        forall|connection: &mut Connection| #[trigger]
            call_ensures(Connection::handle_connection_success, (connection,), report) ==> {
                let before = connection@;
                let after = final(connection)@;
                &&& report is Some <==> before.connection_tx is Some
                &&& report matches Some(sent) ==> Some(sent.to) == before.connection_tx
                    && sent.status is Ok
                &&& after.connection_count == before.connection_count + 1
                &&& after.connection_tx is None
                &&& after.options == before.options
                &&& after.notification_tx == before.notification_tx
                &&& after.network_enabled == before.network_enabled
            },
{
}

/// A failure is counted, and reported to whom the result is owed: with the error of the attempt
/// itself if it has one, and else as a timeout.
pub proof fn law_connection_error(error: TimeoutError<ConnectError>, report: Option<Report>)
    ensures
        forall|connection: &mut Connection| #[trigger]
            call_ensures(Connection::handle_connection_error, (connection, error), report) ==> {
                let before = connection@;
                let after = final(connection)@;
                &&& report is Some <==> before.connection_tx is Some
                &&& report matches Some(sent) ==> {
                    &&& Some(sent.to) == before.connection_tx
                    &&& sent.status matches Err(reported) && (error
                        == TimeoutError::Inner(reported) || (!(error is Inner) && reported
                        is Timeout))
                }
                &&& after.connection_count == before.connection_count + 1
                &&& after.connection_tx is None
                &&& after.options == before.options
                &&& after.notification_tx == before.notification_tx
                &&& after.network_enabled == before.network_enabled
            },
{
}

/// The plan leads to the broker of the options. It is a TLS plan exactly if the connection method
/// is TLS, with that certificate authority, and it authenticates the client exactly if the options
/// do, with that certificate and that key.
pub proof fn law_plan_reaches_the_broker(connection: Connection, plan: ConnectPlan)
    requires
        call_ensures(Connection::tcp_connect_future, (&connection,), plan),
    ensures
        plan.host@ == connection@.options.broker_addr@,
        plan.port == connection@.options.port,
        match connection@.options.connection_method {
            ConnectionMethod::Tcp => plan.certificate_authority is None && plan.client_auth is None,
            ConnectionMethod::Tls(ca, auth) => {
                &&& plan.certificate_authority matches Some(planned_ca) && planned_ca@ == ca@
                &&& plan.client_auth is Some <==> auth is Some
                &&& plan.client_auth matches Some((planned_cert, planned_key)) ==> (auth
                    matches Some((cert, key)) && planned_cert@ == cert@ && planned_key@ == key@)
            },
        },
{
}

/// Whatever the connection method is, the plan has a proxy exactly if the options name one, and
/// that is the proxy at the host and port of the options, with their key and expiry, asked in the
/// name of the client.
pub proof fn law_plan_goes_through_the_proxy(connection: Connection, plan: ConnectPlan)
    requires
        call_ensures(Connection::tcp_connect_future, (&connection,), plan),
    ensures
        plan.http_proxy is None <==> connection@.options.proxy is Direct,
        plan.http_proxy matches Some(planned) ==> (connection@.options.proxy
            matches Proxy::HttpConnect(host, port, key, expiry) && {
            &&& planned.id@ == connection@.options.client_id@
            &&& planned.host@ == host@
            &&& planned.port == port
            &&& planned.key@ == key@
            &&& planned.expiry == expiry
        }),
{
}

/// A stream is slowed down exactly if the options limit the rate, at every rate. It then is what
/// `throttle` makes of the stream itself, with the longest interval between two packets, in whole
/// nanoseconds, at which as many of them as the rate says fit into a second.
pub proof fn law_rate_is_limited<S, T, F: FnOnce(S, u64) -> T>(
    connection: Connection,
    request: S,
    throttle: F,
    limited: EitherStream<T, S>,
)
    requires
        call_ensures(
            Connection::rate_limited_network_stream,
            (&connection, request, throttle),
            limited,
        ),
        connection@.options.outgoing_ratelimit != Some(0u64),
    ensures
        match connection@.options.outgoing_ratelimit {
            None => limited == EitherStream::<T, S>::B(request),
            Some(rate) => limited matches EitherStream::A(throttled) && exists|interval: u64|
                {
                    &&& #[trigger] call_ensures(throttle, (request, interval), throttled)
                    &&& rate * interval <= 1_000_000_000 < rate * (interval + 1)
                },
        },
{
    if let Some(rate) = connection@.options.outgoing_ratelimit {
        laws::law_rate_interval(rate);
        let interval: u64 = 1_000_000_000u64 / rate;
        assert(rate * interval <= 1_000_000_000 < rate * (interval + 1));
        let throttled = limited->A_0;
        assert(call_ensures(throttle, (request, interval), throttled));
    }
}

/// While packets flow, the streams of a connection are what `select` makes of the commands and the
/// network's packets; while they do not, the commands alone. In both cases they are slowed down
/// exactly if the options limit the rate.
pub proof fn law_streams_of_a_connection<
    C,
    N,
    S,
    T,
    G: FnOnce(C, N) -> S,
    F: FnOnce(EitherStream<S, C>, u64) -> T,
>(
    connection: Connection,
    commands: C,
    packets: N,
    select: G,
    throttle: F,
    stream: EitherStream<T, EitherStream<S, C>>,
)
    requires
        call_ensures(
            Connection::mqtt_future,
            (&connection, commands, packets, select, throttle),
            stream,
        ),
        connection@.options.outgoing_ratelimit != Some(0u64),
    ensures
        match stream {
            EitherStream::B(EitherStream::A(selected)) => {
                &&& connection@.options.outgoing_ratelimit is None
                &&& connection@.network_enabled
                &&& call_ensures(select, (commands, packets), selected)
            },
            EitherStream::B(EitherStream::B(alone)) => {
                &&& connection@.options.outgoing_ratelimit is None
                &&& !connection@.network_enabled
                &&& alone == commands
            },
            EitherStream::A(throttled) => {
                &&& connection@.options.outgoing_ratelimit matches Some(rate)
                &&& connection@.network_enabled ==> exists|selected: S, interval: u64|
                    {
                        &&& call_ensures(select, (commands, packets), selected)
                        &&& #[trigger] call_ensures(
                            throttle,
                            (EitherStream::A(selected), interval),
                            throttled,
                        )
                        &&& rate * interval <= 1_000_000_000 < rate * (interval + 1)
                    }
                &&& !connection@.network_enabled ==> exists|interval: u64|
                    {
                        &&& #[trigger] call_ensures(
                            throttle,
                            (EitherStream::B(commands), interval),
                            throttled,
                        )
                        &&& rate * interval <= 1_000_000_000 < rate * (interval + 1)
                    }
            },
        },
{
    if let Some(rate) = connection@.options.outgoing_ratelimit {
        laws::law_rate_interval(rate);
        let interval: u64 = 1_000_000_000u64 / rate;
        assert(rate * interval <= 1_000_000_000 < rate * (interval + 1));
        let throttled = stream->A_0;
        if connection@.network_enabled {
            assert(exists|selected: S|
                {
                    &&& call_ensures(select, (commands, packets), selected)
                    &&& #[trigger] call_ensures(
                        throttle,
                        (EitherStream::A(selected), interval),
                        throttled,
                    )
                });
        } else {
            assert(call_ensures(throttle, (EitherStream::B(commands), interval), throttled));
        }
    }
}

/// Once the user paused the network, a stream without a rate limit holds the commands alone; once
/// the user resumed it, also the packets.
pub proof fn law_pause_reaches_the_streams<
    X,
    C,
    N,
    S,
    T,
    G: FnOnce(C, N) -> S,
    F: FnOnce(EitherStream<S, C>, u64) -> T,
>(
    command: NetworkError,
    is_disconnecting: bool,
    turn: Transition<X>,
    commands: C,
    packets: N,
    select: G,
    throttle: F,
    stream: EitherStream<T, EitherStream<S, C>>,
)
    requires
        command is UserDisconnect || command is UserReconnect,
    ensures
        forall|connection: &mut Connection|
            {
                &&& #[trigger] call_ensures(
                    Connection::mqtt_eventloop,
                    (connection, LoopEvent::<X>::Io(Err(command)), is_disconnecting),
                    turn,
                )
                &&& call_ensures(
                    Connection::mqtt_future,
                    (&*final(connection), commands, packets, select, throttle),
                    stream,
                )
                &&& connection@.options.outgoing_ratelimit is None
            } ==> match stream {
                EitherStream::B(EitherStream::A(selected)) => command is UserReconnect && call_ensures(
                    select,
                    (commands, packets),
                    selected,
                ),
                EitherStream::B(EitherStream::B(alone)) => command is UserDisconnect && alone == commands,
                EitherStream::A(_) => false,
            },
{
}

/// Whatever goes wrong in a stream that is slowed down, the error is that of the limiter.
pub proof fn law_throttle_error<E>(error: E, raised: NetworkError)
    requires
        call_ensures(throttle_error::<E>, (error,), raised),
    ensures
        raised == NetworkError::ThrottleError,
{
}

} // verus!
