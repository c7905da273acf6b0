//! Options of an MQTT connection, as far as the connection reads them.

use vstd::prelude::*;

verus! {

/// What happens when a connection fails or ends. The numbers are seconds to wait.
#[derive(Debug, Clone, Copy, PartialEq, Eq, Structural)]
pub enum ReconnectOptions {
    /// Give up.
    Never,
    /// Reconnect after the delay, once an attempt succeeded. Give up if the first one fails.
    AfterFirstSuccess(u64),
    /// Reconnect after the delay, whatever became of the first attempt.
    Always(u64),
}

/// How the broker is reached.
#[derive(Debug, Clone, PartialEq, Eq)]
pub enum ConnectionMethod {
    Tcp,
    /// Certificate authority, and the client's certificate and key.
    Tls(Vec<u8>, Option<(Vec<u8>, Vec<u8>)>),
}

/// Whether a proxy stands on the way to the broker.
#[derive(Debug, Clone, PartialEq, Eq)]
pub enum Proxy {
    Direct,
    /// Host, port, key and expiry in seconds.
    HttpConnect(String, u16, Vec<u8>, i64),
}

/// Options of a connection.
#[derive(Debug, Clone, PartialEq, Eq)]
pub struct MqttOptions {
    pub broker_addr: String,
    pub port: u16,
    pub client_id: String,
    /// Seconds of silence after which a ping is due.
    pub keep_alive: u16,
    pub connection_method: ConnectionMethod,
    pub proxy: Proxy,
    pub reconnect: ReconnectOptions,
    pub notification_channel_capacity: usize,
    pub request_channel_capacity: usize,
    /// Number of unacknowledged publishes at which no further request is taken.
    pub in_flight: usize,
    /// Packets per second that may leave, where that is limited.
    pub outgoing_ratelimit: Option<u64>,
}

/// What a connection method holds.
pub enum ConnectionMethodView {
    Tcp,
    Tls(Seq<u8>, Option<(Seq<u8>, Seq<u8>)>),
}

impl View for ConnectionMethod {
    type V = ConnectionMethodView;

    open spec fn view(&self) -> ConnectionMethodView {
        match self {
            ConnectionMethod::Tcp => ConnectionMethodView::Tcp,
            ConnectionMethod::Tls(ca, Some((cert, key))) => ConnectionMethodView::Tls(
                ca@,
                Some((cert@, key@)),
            ),
            ConnectionMethod::Tls(ca, None) => ConnectionMethodView::Tls(ca@, None),
        }
    }
}

/// What a proxy holds.
pub enum ProxyView {
    Direct,
    HttpConnect(Seq<char>, u16, Seq<u8>, i64),
}

impl View for Proxy {
    type V = ProxyView;

    open spec fn view(&self) -> ProxyView {
        match self {
            Proxy::Direct => ProxyView::Direct,
            Proxy::HttpConnect(host, port, key, expiry) => ProxyView::HttpConnect(
                host@,
                *port,
                key@,
                *expiry,
            ),
        }
    }
}

/// What the options of a connection hold.
pub struct MqttOptionsView {
    pub broker_addr: Seq<char>,
    pub port: u16,
    pub client_id: Seq<char>,
    pub keep_alive: u16,
    pub connection_method: ConnectionMethodView,
    pub proxy: ProxyView,
    pub reconnect: ReconnectOptions,
    pub notification_channel_capacity: usize,
    pub request_channel_capacity: usize,
    pub in_flight: usize,
    pub outgoing_ratelimit: Option<u64>,
}

impl View for MqttOptions {
    type V = MqttOptionsView;

    open spec fn view(&self) -> MqttOptionsView {
        MqttOptionsView {
            broker_addr: self.broker_addr@,
            port: self.port,
            client_id: self.client_id@,
            keep_alive: self.keep_alive,
            connection_method: self.connection_method@,
            proxy: self.proxy@,
            reconnect: self.reconnect,
            notification_channel_capacity: self.notification_channel_capacity,
            request_channel_capacity: self.request_channel_capacity,
            in_flight: self.in_flight,
            outgoing_ratelimit: self.outgoing_ratelimit,
        }
    }
}

} // verus!
