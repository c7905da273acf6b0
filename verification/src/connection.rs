//! The connection to a broker: how it is made, when it is made again, and what streams run on it.

use crate::error::{ConnectError, NetworkError, TimeoutError};
use crate::notification::Notification;
use crate::options::{self, ConnectionMethod, MqttOptions, Proxy, ReconnectOptions};
use crate::stream::EitherStream;
use crossbeam_channel::{RecvError, Sender};
use vstd::prelude::*;

verus! {

/// Seconds within which a connection has to be made.
pub const CONNECT_TIMEOUT_SECS: u64 = 30;

/// Number of commands that may wait.
pub const COMMAND_CHANNEL_CAPACITY: usize = 5;

/// Number of connection results that may wait.
pub const CONNECTION_CHANNEL_CAPACITY: usize = 1;

/// Nanoseconds in a second.
pub const NANOS_PER_SEC: u64 = 1_000_000_000;

/// A connection to a broker.
#[derive(Debug)]
pub struct Connection {
    notification_tx: Sender<Notification>,
    connection_tx: Option<Sender<Result<(), ConnectError>>>,
    connection_count: u32,
    mqttoptions: MqttOptions,
    is_network_enabled: bool,
}

/// What a connection holds.
pub struct ConnectionView {
    /// Where notifications go.
    pub notification_tx: Sender<Notification>,
    /// Where the result of the first attempt goes, as long as it is not known.
    pub connection_tx: Option<Sender<Result<(), ConnectError>>>,
    /// Attempts to connect so far.
    pub connection_count: nat,
    pub options: MqttOptions,
    /// Whether packets flow; false after the user paused the network.
    pub network_enabled: bool,
}

impl View for Connection {
    type V = ConnectionView;

    closed spec fn view(&self) -> ConnectionView {
        ConnectionView {
            notification_tx: self.notification_tx,
            connection_tx: self.connection_tx,
            connection_count: self.connection_count as nat,
            options: self.mqttoptions,
            network_enabled: self.is_network_enabled,
        }
    }
}

/// Capacities of the channels between the user and the network thread.
#[derive(Debug, Clone, Copy, PartialEq, Eq, Structural)]
pub struct ChannelCapacities {
    pub notification: usize,
    pub request: usize,
    pub command: usize,
    pub connection: usize,
}

/// The result of the first attempt to connect, and where it is to be sent.
#[derive(Debug)]
pub struct Report {
    pub to: Sender<Result<(), ConnectError>>,
    pub status: Result<(), ConnectError>,
}

/// Whether to connect again, and the seconds to wait before that is acted upon.
#[derive(Debug, Clone, Copy, PartialEq, Eq, Structural)]
pub struct Reconnection {
    pub delay: Option<u64>,
    pub again: bool,
}

/// Something that the event loop waited for.
#[derive(Debug)]
pub enum LoopEvent<F> {
    /// An attempt to connect is over.
    Connect(Result<F, TimeoutError<ConnectError>>),
    /// The streams of a connection ended.
    Io(Result<(), NetworkError>),
}

/// What the event loop does next.
#[derive(Debug, Clone, Copy, PartialEq, Eq)]
pub enum LoopStep<F> {
    /// Try to connect, within `CONNECT_TIMEOUT_SECS`.
    Connect,
    /// Run the streams on the connection.
    Stream(F),
    /// End.
    Stop,
}

/// One turn of the event loop: send the report, then wait, then take the step.
#[derive(Debug)]
pub struct Transition<F> {
    pub report: Option<Report>,
    pub delay: Option<u64>,
    pub next: LoopStep<F>,
}

/// A proxy that is asked to connect, with what it identifies the client by.
#[derive(Debug, Clone, PartialEq, Eq)]
pub struct HttpProxy {
    pub id: String,
    pub host: String,
    pub port: u16,
    pub key: Vec<u8>,
    pub expiry: i64,
}

/// Everything needed to open a network connection to the broker.
#[derive(Debug, Clone, PartialEq, Eq)]
pub struct ConnectPlan {
    pub host: String,
    pub port: u16,
    /// Present where the connection is a TLS connection.
    pub certificate_authority: Option<Vec<u8>>,
    /// Certificate and key of the client.
    pub client_auth: Option<(Vec<u8>, Vec<u8>)>,
    pub http_proxy: Option<HttpProxy>,
}

/// What a proxy is asked with.
pub struct HttpProxyView {
    pub id: Seq<char>,
    pub host: Seq<char>,
    pub port: u16,
    pub key: Seq<u8>,
    pub expiry: i64,
}

/// What a plan holds.
pub struct ConnectPlanView {
    pub host: Seq<char>,
    pub port: u16,
    pub certificate_authority: Option<Seq<u8>>,
    pub client_auth: Option<(Seq<u8>, Seq<u8>)>,
    pub http_proxy: Option<HttpProxyView>,
}

impl View for HttpProxy {
    type V = HttpProxyView;

    open spec fn view(&self) -> HttpProxyView {
        HttpProxyView {
            id: self.id@,
            host: self.host@,
            port: self.port,
            key: self.key@,
            expiry: self.expiry,
        }
    }
}

impl View for ConnectPlan {
    type V = ConnectPlanView;

    open spec fn view(&self) -> ConnectPlanView {
        ConnectPlanView {
            host: self.host@,
            port: self.port,
            certificate_authority: match self.certificate_authority {
                Some(ca) => Some(ca@),
                None => None,
            },
            client_auth: match self.client_auth {
                Some((cert, key)) => Some((cert@, key@)),
                None => None,
            },
            http_proxy: match self.http_proxy {
                Some(proxy) => Some(proxy@),
                None => None,
            },
        }
    }
}

/// The plan that options ask for: TLS with or without client authentication as the connection
/// method says, and the client's id as the identity towards a proxy.
pub open spec fn plan_of(options: options::MqttOptionsView) -> ConnectPlanView {
    ConnectPlanView {
        host: options.broker_addr,
        port: options.port,
        certificate_authority: match options.connection_method {
            options::ConnectionMethodView::Tls(ca, _) => Some(ca),
            options::ConnectionMethodView::Tcp => None,
        },
        client_auth: match options.connection_method {
            options::ConnectionMethodView::Tls(_, auth) => auth,
            options::ConnectionMethodView::Tcp => None,
        },
        http_proxy: match options.proxy {
            options::ProxyView::Direct => None,
            options::ProxyView::HttpConnect(host, port, key, expiry) => Some(
                HttpProxyView { id: options.client_id, host, port, key, expiry },
            ),
        },
    }
}

/// The delay that a reconnection policy asks for.
pub open spec fn delay_of(reconnect: ReconnectOptions) -> Option<u64> {
    match reconnect {
        ReconnectOptions::Never => None,
        ReconnectOptions::AfterFirstSuccess(time) => Some(time),
        ReconnectOptions::Always(time) => Some(time),
    }
}

/// Whether a connection that failed is made again, and after what delay. The delay passes even
/// where a disconnection that is under way rules the reconnection out.
pub open spec fn reconnection_of(
    reconnect: ReconnectOptions,
    is_disconnecting: bool,
) -> Reconnection {
    Reconnection {
        delay: delay_of(reconnect),
        again: !(reconnect is Never) && !is_disconnecting,
    }
}

/// The error that a failed attempt is reported with.
pub open spec fn reported_error(error: TimeoutError<ConnectError>) -> ConnectError {
    match error {
        TimeoutError::Inner(e) => e,
        _ => ConnectError::Timeout,
    }
}

/// What the user gets for a connection that was started, given what came of waiting for the
/// result of the first attempt.
pub open spec fn handle_of<H>(
    reconnect: ReconnectOptions,
    received: Result<Result<(), ConnectError>, RecvError>,
    user_handle: H,
) -> Result<H, ConnectError> {
    match received {
        Err(e) => Err(ConnectError::Recv(e)),
        Ok(Ok(_)) => Ok(user_handle),
        Ok(Err(e)) => if reconnect is Always {
            Ok(user_handle)
        } else {
            Err(e)
        },
    }
}

/// Whether the end of the streams is a command of the user to connect anew.
pub open spec fn is_user_command(outcome: Result<(), NetworkError>) -> bool {
    outcome matches Err(e) && (e is UserDisconnect || e is UserReconnect)
}

/// Whether packets flow after the streams ended with `outcome`.
pub open spec fn enabled_after(enabled: bool, outcome: Result<(), NetworkError>) -> bool {
    match outcome {
        Err(NetworkError::UserDisconnect) => false,
        Err(NetworkError::UserReconnect) => true,
        _ => enabled,
    }
}

/// `limited` is `request`, slowed down by `throttle` if there is a rate: so many nanoseconds lie
/// between two packets that `rate` of them fit into a second.
pub open spec fn is_rate_limited<S, T, F: FnOnce(S, u64) -> T>(
    outgoing_ratelimit: Option<u64>,
    request: S,
    throttle: F,
    limited: EitherStream<T, S>,
) -> bool {
    match outgoing_ratelimit {
        Some(rate) => exists|throttled: T|
            {
                &&& #[trigger] call_ensures(
                    throttle,
                    (request, 1_000_000_000u64 / rate),
                    throttled,
                )
                &&& limited == EitherStream::<T, S>::A(throttled)
            },
        None => limited == EitherStream::<T, S>::B(request),
    }
}

/// `chosen` is what `select` makes of both streams while packets flow, and the commands alone
/// while they do not.
pub open spec fn is_chosen<C, N, S, F: FnOnce(C, N) -> S>(
    network_enabled: bool,
    command_stream: C,
    network_stream: N,
    select: F,
    chosen: EitherStream<S, C>,
) -> bool {
    if network_enabled {
        exists|selected: S|
            {
                &&& #[trigger] call_ensures(select, (command_stream, network_stream), selected)
                &&& chosen == EitherStream::<S, C>::A(selected)
            }
    } else {
        chosen == EitherStream::<S, C>::B(command_stream)
    }
}

impl ConnectionView {
    /// The result of the first attempt is owed exactly as long as there was none.
    pub open spec fn wf(self) -> bool {
        self.connection_tx is Some <==> self.connection_count == 0
    }

    /// The connection after one more attempt to connect.
    pub open spec fn attempted(self) -> ConnectionView {
        ConnectionView {
            connection_tx: None,
            connection_count: self.connection_count + 1,
            ..self
        }
    }

    /// The report of an attempt that ended with `status`: due for the first one only.
    pub open spec fn report(self, status: Result<(), ConnectError>) -> Option<Report> {
        match self.connection_tx {
            Some(to) => Some(Report { to, status }),
            None => None,
        }
    }

    /// The connection after its streams ended.
    pub open spec fn ended(self, outcome: Result<(), NetworkError>) -> ConnectionView {
        ConnectionView {
            network_enabled: enabled_after(self.network_enabled, outcome),
            ..self
        }
    }

    /// The connection after an event of the event loop.
    pub open spec fn after<F>(self, event: LoopEvent<F>) -> ConnectionView {
        match event {
            LoopEvent::Connect(_) => self.attempted(),
            LoopEvent::Io(outcome) => self.ended(outcome),
        }
    }

    /// The next attempt is the first, and the connection is made again only if that one succeeds.
    pub open spec fn first_success_is_missing(self) -> bool {
        self.connection_count == 0 && self.options.reconnect is AfterFirstSuccess
    }

    /// The turn of the event loop that an event leads to. A first attempt that fails although it
    /// has to succeed ends the event loop at once.
    pub open spec fn transition<F>(
        self,
        event: LoopEvent<F>,
        is_disconnecting: bool,
    ) -> Transition<F> {
        let reconnection = reconnection_of(self.options.reconnect, is_disconnecting);
        let retry = if reconnection.again {
            LoopStep::<F>::Connect
        } else {
            LoopStep::<F>::Stop
        };
        match event {
            LoopEvent::Connect(Ok(framed)) => Transition {
                report: self.report(Ok(())),
                delay: None,
                next: LoopStep::Stream(framed),
            },
            LoopEvent::Connect(Err(error)) => if self.first_success_is_missing() {
                Transition {
                    report: self.report(Err(reported_error(error))),
                    delay: None,
                    next: LoopStep::Stop,
                }
            } else {
                Transition {
                    report: self.report(Err(reported_error(error))),
                    delay: reconnection.delay,
                    next: retry,
                }
            },
            LoopEvent::Io(outcome) => if is_user_command(outcome) {
                Transition { report: None, delay: None, next: LoopStep::Connect }
            } else {
                Transition { report: None, delay: reconnection.delay, next: retry }
            },
        }
    }
}

/// The error that a stream ends with when it is slowed down: the limiter's own, whatever went
/// wrong behind it.
pub fn throttle_error<E>(_error: E) -> (error: NetworkError)
    ensures
        error is ThrottleError,
{
    NetworkError::ThrottleError
}

/// A copy of some bytes.
fn copy_bytes(bytes: &Vec<u8>) -> (copy: Vec<u8>)
    ensures
        copy@ == bytes@,
{
    let copy = bytes.clone();
    assert(copy@ =~= bytes@);
    copy
}

impl Connection {
    /// Capacities of the channels that a connection with these options works with.
    pub fn channel_capacities(mqttoptions: &MqttOptions) -> (capacities: ChannelCapacities)
        ensures
            capacities == (ChannelCapacities {
                notification: mqttoptions.notification_channel_capacity,
                request: mqttoptions.request_channel_capacity,
                command: 5,
                connection: 1,
            }),
    {
        ChannelCapacities {
            notification: mqttoptions.notification_channel_capacity,
            request: mqttoptions.request_channel_capacity,
            command: COMMAND_CHANNEL_CAPACITY,
            connection: CONNECTION_CHANNEL_CAPACITY,
        }
    }

    /// A connection before the first attempt to connect.
    pub fn new(
        mqttoptions: MqttOptions,
        notification_tx: Sender<Notification>,
        connection_tx: Sender<Result<(), ConnectError>>,
    ) -> (connection: Connection)
        ensures
            connection@ == (ConnectionView {
                notification_tx,
                connection_tx: Some(connection_tx),
                connection_count: 0,
                options: mqttoptions,
                network_enabled: true,
            }),
            connection@.wf(),
    {
        Connection {
            notification_tx,
            connection_tx: Some(connection_tx),
            connection_count: 0,
            mqttoptions,
            is_network_enabled: true,
        }
    }

    /// The options of the connection.
    pub fn options(&self) -> (options: &MqttOptions)
        ensures
            *options == self@.options,
    {
        &self.mqttoptions
    }

    /// Where notifications go.
    pub fn notification_tx(&self) -> (notification_tx: &Sender<Notification>)
        ensures
            *notification_tx == self@.notification_tx,
    {
        &self.notification_tx
    }

    /// How many attempts to connect there were.
    pub fn connection_count(&self) -> (count: u32)
        ensures
            count == self@.connection_count,
    {
        self.connection_count
    }

    /// Hands the user the handle of a connection that was started, given what came of waiting for
    /// the result of the first attempt. Where the connection is always made again, a first attempt
    /// that failed is no failure.
    pub fn run<H>(
        reconnect_option: ReconnectOptions,
        received: Result<Result<(), ConnectError>, RecvError>,
        user_handle: H,
    ) -> (handle: Result<H, ConnectError>)
        ensures
            handle == handle_of(reconnect_option, received, user_handle),
    {
        let status = match received {
            Ok(status) => status,
            Err(e) => {
                return Err(ConnectError::Recv(e));
            },
        };
        match reconnect_option {
            ReconnectOptions::AfterFirstSuccess(_) => match status {
                Ok(()) => Ok(user_handle),
                Err(e) => Err(e),
            },
            ReconnectOptions::Never => match status {
                Ok(()) => Ok(user_handle),
                Err(e) => Err(e),
            },
            // read the result but ignore it
            ReconnectOptions::Always(_) => Ok(user_handle),
        }
    }

    /// Takes the event loop one turn on.
    pub fn mqtt_eventloop<F>(&mut self, event: LoopEvent<F>, is_disconnecting: bool) -> (transition:
        Transition<F>)
        requires
            old(self)@.wf(),
            event is Connect ==> old(self)@.connection_count < u32::MAX,
        ensures
            final(self)@ == old(self)@.after(event),
            final(self)@.wf(),
            transition == old(self)@.transition(event, is_disconnecting),
    {
        match event {
            LoopEvent::Connect(outcome) => {
                let first_success_is_missing = match self.mqttoptions.reconnect {
                    ReconnectOptions::AfterFirstSuccess(_) => self.connection_count == 0,
                    _ => false,
                };
                let (report, framed) = self.connect_timeout(outcome, is_disconnecting);
                match framed {
                    Ok(f) => Transition { report, delay: None, next: LoopStep::Stream(f) },
                    Err(reconnection) => if first_success_is_missing {
                        // nobody holds a handle to the connection
                        Transition { report, delay: None, next: LoopStep::Stop }
                    } else {
                        Transition {
                            report,
                            delay: reconnection.delay,
                            next: if reconnection.again {
                                LoopStep::Connect
                            } else {
                                LoopStep::Stop
                            },
                        }
                    },
                }
            },
            LoopEvent::Io(outcome) => {
                match self.mqtt_io(outcome) {
                    Err(true) => {
                        return Transition { report: None, delay: None, next: LoopStep::Connect };
                    },
                    Err(false) => (),
                    Ok(_) => (),
                };
                let reconnection = self.should_reconnect_again(is_disconnecting);
                Transition {
                    report: None,
                    delay: reconnection.delay,
                    next: if reconnection.again {
                        LoopStep::Connect
                    } else {
                        LoopStep::Stop
                    },
                }
            },
        }
    }

    /// Handles the end of an attempt to connect: the report that is due, and the transport that
    /// the streams run on or whether the policy is to connect again. That a first attempt may have
    /// to succeed is for `mqtt_eventloop` to see to.
    pub fn connect_timeout<F>(
        &mut self,
        outcome: Result<F, TimeoutError<ConnectError>>,
        is_disconnecting: bool,
    ) -> (result: (Option<Report>, Result<F, Reconnection>))
        requires
            old(self)@.wf(),
            old(self)@.connection_count < u32::MAX,
        ensures
            final(self)@ == old(self)@.attempted(),
            final(self)@.wf(),
            result == match outcome {
                Ok(framed) => (old(self)@.report(Ok(())), Ok::<F, Reconnection>(framed)),
                Err(e) => (
                    old(self)@.report(Err(reported_error(e))),
                    Err::<F, Reconnection>(
                        reconnection_of(old(self)@.options.reconnect, is_disconnecting),
                    ),
                ),
            },
    {
        match outcome {
            Ok(framed) => {
                let report = self.handle_connection_success();
                (report, Ok(framed))
            },
            Err(e) => {
                let report = self.handle_connection_error(e);
                (report, Err(self.should_reconnect_again(is_disconnecting)))
            },
        }
    }

    /// Whether to connect again after a failure.
    pub fn should_reconnect_again(&self, is_disconnecting: bool) -> (reconnection: Reconnection)
        ensures
            reconnection == reconnection_of(self@.options.reconnect, is_disconnecting),
    {
        let (delay, reconn_policy_action) = match self.mqttoptions.reconnect {
            ReconnectOptions::AfterFirstSuccess(time) => (Some(time), true),
            ReconnectOptions::Always(time) => (Some(time), true),
            ReconnectOptions::Never => (None, false),
        };
        Reconnection { delay, again: reconn_policy_action && !is_disconnecting }
    }

    /// Handles the end of the streams. The error is true where the user asked for it: then the
    /// connection is made again at once.
    pub fn mqtt_io(&mut self, outcome: Result<(), NetworkError>) -> (result: Result<(), bool>)
        ensures
            final(self)@ == old(self)@.ended(outcome),
            result == Err::<(), bool>(is_user_command(outcome)),
    {
        match outcome {
            Err(NetworkError::UserDisconnect) => {
                self.is_network_enabled = false;
                Err(true)
            },
            Err(NetworkError::UserReconnect) => {
                self.is_network_enabled = true;
                Err(true)
            },
            Err(_) => Err(false),
            Ok(_) => Err(false),
        }
    }

    /// Counts an attempt that succeeded. The first one is reported.
    pub fn handle_connection_success(&mut self) -> (report: Option<Report>)
        requires
            old(self)@.wf(),
            old(self)@.connection_count < u32::MAX,
        ensures
            final(self)@ == old(self)@.attempted(),
            final(self)@.wf(),
            report == old(self)@.report(Ok(())),
    {
        self.connection_count += 1;
        if self.connection_count == 1 {
            let connection_tx = self.connection_tx.take().unwrap();
            Some(Report { to: connection_tx, status: Ok(()) })
        } else {
            None
        }
    }

    /// Counts an attempt that failed. The first one is reported.
    pub fn handle_connection_error(&mut self, error: TimeoutError<ConnectError>) -> (report: Option<
        Report,
    >)
        requires
            old(self)@.wf(),
            old(self)@.connection_count < u32::MAX,
        ensures
            final(self)@ == old(self)@.attempted(),
            final(self)@.wf(),
            report == old(self)@.report(Err(reported_error(error))),
    {
        self.connection_count += 1;
        let error = match error {
            TimeoutError::Inner(e) => Err(e),
            _ => Err(ConnectError::Timeout),
        };
        if self.connection_count == 1 {
            let connection_tx = self.connection_tx.take().unwrap();
            Some(Report { to: connection_tx, status: error })
        } else {
            None
        }
    }

    /// Plans the network connection to the broker, over TCP or TLS and directly or through a
    /// proxy. Does not connect.
    pub fn tcp_connect_future(&self) -> (plan: ConnectPlan)
        ensures
            plan@ == plan_of(self@.options@),
    {
        let host = self.mqttoptions.broker_addr.clone();
        let port = self.mqttoptions.port;
        let (certificate_authority, client_auth) = match &self.mqttoptions.connection_method {
            ConnectionMethod::Tls(ca, Some((cert, key))) => (
                Some(copy_bytes(ca)),
                Some((copy_bytes(cert), copy_bytes(key))),
            ),
            ConnectionMethod::Tls(ca, None) => (Some(copy_bytes(ca)), None),
            ConnectionMethod::Tcp => (None, None),
        };
        let http_proxy = match &self.mqttoptions.proxy {
            Proxy::Direct => None,
            Proxy::HttpConnect(proxy_host, proxy_port, key, expiry) => {
                let id = self.mqttoptions.client_id.clone();
                Some(
                    HttpProxy {
                        id,
                        host: proxy_host.clone(),
                        port: *proxy_port,
                        key: copy_bytes(key),
                        expiry: *expiry,
                    },
                )
            },
        };
        ConnectPlan { host, port, certificate_authority, client_auth, http_proxy }
    }

    /// Slows a stream down with `throttle` where the options limit the rate. `throttle` gets the
    /// nanoseconds between two packets.
    pub fn rate_limited_network_stream<S, T>(
        &self,
        request: S,
        throttle: impl FnOnce(S, u64) -> T,
    ) -> (limited: EitherStream<T, S>)
        requires
            self@.options.outgoing_ratelimit matches Some(rate) ==> {
                &&& rate != 0
                &&& call_requires(throttle, (request, 1_000_000_000u64 / rate))
            },
        ensures
            is_rate_limited(self@.options.outgoing_ratelimit, request, throttle, limited),
    {
        match self.mqttoptions.outgoing_ratelimit {
            Some(rate) => EitherStream::A(throttle(request, NANOS_PER_SEC / rate)),
            None => EitherStream::B(request),
        }
    }

    /// Puts the streams of a connection together: commands always, the packets of the network
    /// only while it is enabled, and all of it slowed down where the rate is limited.
    pub fn mqtt_future<C, N, S, T>(
        &self,
        command_stream: C,
        network_stream: N,
        select: impl FnOnce(C, N) -> S,
        throttle: impl FnOnce(EitherStream<S, C>, u64) -> T,
    ) -> (stream: EitherStream<T, EitherStream<S, C>>)
        requires
            self@.network_enabled ==> call_requires(select, (command_stream, network_stream)),
            self@.options.outgoing_ratelimit matches Some(rate) ==> {
                &&& rate != 0
                &&& forall|unlimited: EitherStream<S, C>| #[trigger]
                    call_requires(throttle, (unlimited, 1_000_000_000u64 / rate))
            },
        ensures
            exists|unlimited: EitherStream<S, C>|
                {
                    &&& #[trigger] is_chosen(
                        self@.network_enabled,
                        command_stream,
                        network_stream,
                        select,
                        unlimited,
                    )
                    &&& is_rate_limited(
                        self@.options.outgoing_ratelimit,
                        unlimited,
                        throttle,
                        stream,
                    )
                },
    {
        let stream = if self.is_network_enabled {
            EitherStream::A(select(command_stream, network_stream))
        } else {
            EitherStream::B(command_stream)
        };
        assert(is_chosen(
            self@.network_enabled,
            command_stream,
            network_stream,
            select,
            stream,
        ));
        self.rate_limited_network_stream(stream, throttle)
    }
}

} // verus!
