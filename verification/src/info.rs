//! One-line descriptions of packets and requests, for logs.

use crate::options::{self, ConnectionMethod, MqttOptions, Proxy, ReconnectOptions};
use crate::packet::{
    self, Connack, Connect, ConnectReturnCode, Packet, PacketIdentifier, Protocol, Publish, QoS,
    Suback, Subscribe, SubscribeReturnCodes, Unsubscribe,
};
use crate::request::Request;
use crate::text::{
    self, enclose, quote, write_bytes, write_decimal, write_optional, write_signed_decimal,
};
use vstd::prelude::*;
use vstd::string::StringExecFns;

verus! {

/// The name of a quality of service.
pub open spec fn qos_name(qos: QoS) -> Seq<char> {
    match qos {
        QoS::AtMostOnce => "AtMostOnce"@,
        QoS::AtLeastOnce => "AtLeastOnce"@,
        QoS::ExactlyOnce => "ExactlyOnce"@,
    }
}

/// Formats an `mqtt311::QoS` with its derived `Debug`. Claims that this gives the name of the
/// variant.
#[verifier::external_body]
fn qos_text(qos: QoS) -> (text: String)
    ensures
        text@ == qos_name(qos),
{
    let outside = match qos {
        QoS::AtMostOnce => mqtt311::QoS::AtMostOnce,
        QoS::AtLeastOnce => mqtt311::QoS::AtLeastOnce,
        QoS::ExactlyOnce => mqtt311::QoS::ExactlyOnce,
    };
    format!("{:?}", outside)
}

/// How a packet identifier reads.
pub open spec fn pkid_debug(pkid: PacketIdentifier) -> Seq<char> {
    text::enclosed("PacketIdentifier"@, text::decimal(pkid.0 as nat))
}

/// Formats an `mqtt311::PacketIdentifier` with its derived `Debug`. Claims that this gives the
/// name of the type with the number in decimal in brackets.
#[verifier::external_body]
fn pkid_text(pkid: PacketIdentifier) -> (text: String)
    ensures
        text@ == pkid_debug(pkid),
{
    format!("{:?}", mqtt311::PacketIdentifier(pkid.0))
}

/// How a publish reads: its topic, quality of service, identifier and the size of its payload.
pub open spec fn publish_line(
    topic_name: Seq<char>,
    qos: QoS,
    pkid: Option<PacketIdentifier>,
    payload_len: nat,
) -> Seq<char> {
    "topic = "@ + topic_name + ", qos = "@ + qos_name(qos) + ", pkid = "@ + text::optional(
        match pkid {
            Some(id) => Some(pkid_debug(id)),
            None => None,
        },
    ) + ", payload size = "@ + text::decimal(payload_len) + " bytes"@
}

fn publish_info(p: &Publish) -> (text: String)
    ensures
        text@ == publish_line(p.topic_name@, p.qos, p.pkid, p.payload@.len()),
{
    let qos = qos_text(p.qos);
    let pkid = write_optional(
        match p.pkid {
            Some(id) => Some(pkid_text(id)),
            None => None,
        },
    );
    let size = write_decimal(p.payload.len() as u64);
    "topic = ".to_owned().concat(p.topic_name.as_str()).concat(", qos = ").concat(
        qos.as_str(),
    ).concat(", pkid = ").concat(pkid.as_str()).concat(", payload size = ").concat(
        size.as_str(),
    ).concat(" bytes")
}

/// How a topic of a subscribe packet reads.
pub open spec fn topic_debug(topic: (Seq<char>, QoS)) -> Seq<char> {
    "SubscribeTopic { topic_path: "@ + text::quoted(topic.0) + ", qos: "@ + qos_name(topic.1)
        + " }"@
}

/// How a subscribe packet reads, given its identifier and its topics.
pub open spec fn subscribe_debug(subscribe: (u16, Seq<(Seq<char>, QoS)>)) -> Seq<char> {
    "Subscribe { pkid: "@ + pkid_debug(PacketIdentifier(subscribe.0)) + ", topics: ["@
        + text::listed(subscribe.1.map_values(|topic: (Seq<char>, QoS)| topic_debug(topic)))
        + "] }"@
}

/// Formats an `mqtt311::Subscribe` with its derived `Debug`. Claims that this gives the name of
/// the type and both fields with their names, in braces, the topics as a list in square brackets
/// and their paths quoted as `quote` does.
#[verifier::external_body]
fn subscribe_text(subscribe: &Subscribe) -> (text: String)
    ensures
        text@ == subscribe_debug(subscribe@),
{
    let convert = |topic: &packet::SubscribeTopic| mqtt311::SubscribeTopic {
        topic_path: topic.topic_path.clone(),
        qos: match topic.qos {
            QoS::AtMostOnce => mqtt311::QoS::AtMostOnce,
            QoS::AtLeastOnce => mqtt311::QoS::AtLeastOnce,
            QoS::ExactlyOnce => mqtt311::QoS::ExactlyOnce,
        },
    };
    let pkid = mqtt311::PacketIdentifier(subscribe.pkid.0);
    let topics = subscribe.topics.iter().map(convert).collect();
    format!("{:?}", mqtt311::Subscribe { pkid, topics })
}

/// How an unsubscribe packet reads, given its identifier and its topics.
pub open spec fn unsubscribe_debug(unsubscribe: (u16, Seq<Seq<char>>)) -> Seq<char> {
    "Unsubscribe { pkid: "@ + pkid_debug(PacketIdentifier(unsubscribe.0)) + ", topics: ["@
        + text::listed(unsubscribe.1.map_values(|topic: Seq<char>| text::quoted(topic))) + "] }"@
}

/// Formats an `mqtt311::Unsubscribe` with its derived `Debug`. Claims that this gives the name of
/// the type and both fields with their names, in braces, the topics quoted as `quote` does and as
/// a list in square brackets.
#[verifier::external_body]
fn unsubscribe_text(unsubscribe: &Unsubscribe) -> (text: String)
    ensures
        text@ == unsubscribe_debug(unsubscribe@),
{
    let pkid = mqtt311::PacketIdentifier(unsubscribe.pkid.0);
    format!("{:?}", mqtt311::Unsubscribe { pkid, topics: unsubscribe.topics.clone() })
}

/// How a protocol version reads.
pub open spec fn protocol_debug(protocol: Protocol) -> Seq<char> {
    match protocol {
        Protocol::MQIsdp(level) => text::enclosed("MQIsdp"@, text::decimal(level as nat)),
        Protocol::MQTT(level) => text::enclosed("MQTT"@, text::decimal(level as nat)),
    }
}

/// How a last will reads.
pub open spec fn last_will_debug(will: packet::LastWillView) -> Seq<char> {
    "LastWill { topic: "@ + text::quoted(will.topic) + ", message: "@ + text::quoted(will.message)
        + ", qos: "@ + qos_name(will.qos) + ", retain: "@ + text::bool_name(will.retain) + " }"@
}

/// How a string that may be absent reads.
pub open spec fn optional_quoted(text: Option<Seq<char>>) -> Seq<char> {
    match text {
        Some(t) => text::optional(Some(text::quoted(t))),
        None => text::optional(None),
    }
}

/// How a connect packet reads.
pub open spec fn connect_debug(connect: packet::ConnectView) -> Seq<char> {
    "Connect { protocol: "@ + protocol_debug(connect.protocol) + ", keep_alive: "@ + text::decimal(
        connect.keep_alive as nat,
    ) + ", client_id: "@ + text::quoted(connect.client_id) + ", clean_session: "@ + text::bool_name(
        connect.clean_session,
    ) + ", last_will: "@ + text::optional(
        match connect.last_will {
            Some(will) => Some(last_will_debug(will)),
            None => None,
        },
    ) + ", username: "@ + optional_quoted(connect.username) + ", password: "@ + optional_quoted(
        connect.password,
    ) + " }"@
}

/// Formats an `mqtt311::Connect` with its derived `Debug`. Claims that this gives the name of the
/// type and the fields with their names, in braces, with numbers in decimal and strings quoted as
/// `quote` does.
#[verifier::external_body]
fn connect_text(connect: &Connect) -> (text: String)
    ensures
        text@ == connect_debug(connect@),
{
    let Connect { keep_alive, client_id, clean_session, username, password, .. } = connect.clone();
    let protocol = match connect.protocol {
        Protocol::MQIsdp(level) => mqtt311::Protocol::MQIsdp(level),
        Protocol::MQTT(level) => mqtt311::Protocol::MQTT(level),
    };
    let last_will = connect.last_will.clone().map(|will| mqtt311::LastWill {
        topic: will.topic, message: will.message, retain: will.retain, qos: match will.qos {
            QoS::AtMostOnce => mqtt311::QoS::AtMostOnce,
            QoS::AtLeastOnce => mqtt311::QoS::AtLeastOnce,
            QoS::ExactlyOnce => mqtt311::QoS::ExactlyOnce,
        } });
    format!("{:?}", mqtt311::Connect {
        protocol, keep_alive, client_id, clean_session, last_will, username, password })
}

/// The name of a return code.
pub open spec fn return_code_name(code: ConnectReturnCode) -> Seq<char> {
    match code {
        ConnectReturnCode::Accepted => "Accepted"@,
        ConnectReturnCode::RefusedProtocolVersion => "RefusedProtocolVersion"@,
        ConnectReturnCode::RefusedIdentifierRejected => "RefusedIdentifierRejected"@,
        ConnectReturnCode::ServerUnavailable => "ServerUnavailable"@,
        ConnectReturnCode::BadUsernamePassword => "BadUsernamePassword"@,
        ConnectReturnCode::NotAuthorized => "NotAuthorized"@,
    }
}

/// How a connack packet reads.
pub open spec fn connack_debug(connack: Connack) -> Seq<char> {
    "Connack { session_present: "@ + text::bool_name(connack.session_present) + ", code: "@
        + return_code_name(connack.code) + " }"@
}

/// Formats an `mqtt311::Connack` with its derived `Debug`. Claims that this gives the name of the
/// type and both fields with their names, in braces.
#[verifier::external_body]
fn connack_text(connack: Connack) -> (text: String)
    ensures
        text@ == connack_debug(connack),
{
    let code = match connack.code {
        ConnectReturnCode::Accepted => mqtt311::ConnectReturnCode::Accepted,
        ConnectReturnCode::RefusedProtocolVersion => mqtt311::ConnectReturnCode::RefusedProtocolVersion,
        ConnectReturnCode::RefusedIdentifierRejected => mqtt311::ConnectReturnCode::RefusedIdentifierRejected,
        ConnectReturnCode::ServerUnavailable => mqtt311::ConnectReturnCode::ServerUnavailable,
        ConnectReturnCode::BadUsernamePassword => mqtt311::ConnectReturnCode::BadUsernamePassword,
        ConnectReturnCode::NotAuthorized => mqtt311::ConnectReturnCode::NotAuthorized,
    };
    format!("{:?}", mqtt311::Connack { session_present: connack.session_present, code })
}

/// How the answer to one topic reads.
pub open spec fn subscribe_code_debug(code: SubscribeReturnCodes) -> Seq<char> {
    match code {
        SubscribeReturnCodes::Success(qos) => text::enclosed("Success"@, qos_name(qos)),
        SubscribeReturnCodes::Failure => "Failure"@,
    }
}

/// How a suback packet reads.
pub open spec fn suback_debug(
    pkid: PacketIdentifier,
    codes: Seq<SubscribeReturnCodes>,
) -> Seq<char> {
    "Suback { pkid: "@ + pkid_debug(pkid) + ", return_codes: ["@ + text::listed(
        codes.map_values(|code: SubscribeReturnCodes| subscribe_code_debug(code)),
    ) + "] }"@
}

/// Formats an `mqtt311::Suback` with its derived `Debug`. Claims that this gives the name of the
/// type and both fields with their names, in braces, the codes as a list in square brackets.
#[verifier::external_body]
fn suback_text(suback: &Suback) -> (text: String)
    ensures
        text@ == suback_debug(suback.pkid, suback.return_codes@),
{
    let convert = |code: &SubscribeReturnCodes| match code {
        SubscribeReturnCodes::Success(qos) => mqtt311::SubscribeReturnCodes::Success(match qos {
            QoS::AtMostOnce => mqtt311::QoS::AtMostOnce,
            QoS::AtLeastOnce => mqtt311::QoS::AtLeastOnce,
            QoS::ExactlyOnce => mqtt311::QoS::ExactlyOnce,
        }),
        SubscribeReturnCodes::Failure => mqtt311::SubscribeReturnCodes::Failure,
    };
    let pkid = mqtt311::PacketIdentifier(suback.pkid.0);
    let return_codes = suback.return_codes.iter().map(convert).collect();
    format!("{:?}", mqtt311::Suback { pkid, return_codes })
}

/// How a packet reads: a publish as its line, every other one as its variant.
pub open spec fn packet_line(packet: Packet) -> Seq<char> {
    match packet {
        Packet::Connect(connect) => text::enclosed("Connect"@, connect_debug(connect@)),
        Packet::Connack(connack) => text::enclosed("Connack"@, connack_debug(connack)),
        Packet::Publish(p) => publish_line(p.topic_name@, p.qos, p.pkid, p.payload@.len()),
        Packet::Puback(pkid) => text::enclosed("Puback"@, pkid_debug(pkid)),
        Packet::Pubrec(pkid) => text::enclosed("Pubrec"@, pkid_debug(pkid)),
        Packet::Pubrel(pkid) => text::enclosed("Pubrel"@, pkid_debug(pkid)),
        Packet::Pubcomp(pkid) => text::enclosed("Pubcomp"@, pkid_debug(pkid)),
        Packet::Subscribe(subscribe) => text::enclosed("Subscribe"@, subscribe_debug(subscribe@)),
        Packet::Suback(suback) => text::enclosed(
            "Suback"@,
            suback_debug(suback.pkid, suback.return_codes@),
        ),
        Packet::Unsubscribe(unsubscribe) => text::enclosed(
            "Unsubscribe"@,
            unsubscribe_debug(unsubscribe@),
        ),
        Packet::Unsuback(pkid) => text::enclosed("Unsuback"@, pkid_debug(pkid)),
        Packet::Pingreq => "Pingreq"@,
        Packet::Pingresp => "Pingresp"@,
        Packet::Disconnect => "Disconnect"@,
    }
}

/// Describes a packet in a line.
pub fn packet_info(packet: &Packet) -> (text: String)
    ensures
        text@ == packet_line(*packet),
{
    match packet {
        Packet::Connect(connect) => enclose("Connect", connect_text(connect)),
        Packet::Connack(connack) => enclose("Connack", connack_text(*connack)),
        Packet::Publish(p) => publish_info(p),
        Packet::Puback(pkid) => enclose("Puback", pkid_text(*pkid)),
        Packet::Pubrec(pkid) => enclose("Pubrec", pkid_text(*pkid)),
        Packet::Pubrel(pkid) => enclose("Pubrel", pkid_text(*pkid)),
        Packet::Pubcomp(pkid) => enclose("Pubcomp", pkid_text(*pkid)),
        Packet::Subscribe(subscribe) => enclose("Subscribe", subscribe_text(subscribe)),
        Packet::Suback(suback) => enclose("Suback", suback_text(suback)),
        Packet::Unsubscribe(unsubscribe) => enclose("Unsubscribe", unsubscribe_text(unsubscribe)),
        Packet::Unsuback(pkid) => enclose("Unsuback", pkid_text(*pkid)),
        Packet::Pingreq => "Pingreq".to_owned(),
        Packet::Pingresp => "Pingresp".to_owned(),
        Packet::Disconnect => "Disconnect".to_owned(),
    }
}

/// How a connection method reads.
pub open spec fn connection_method_debug(
    method: options::ConnectionMethodView,
) -> Seq<char> {
    match method {
        options::ConnectionMethodView::Tcp => "Tcp"@,
        options::ConnectionMethodView::Tls(ca, auth) => text::enclosed(
            "Tls"@,
            text::bytes_debug(ca) + ", "@ + text::optional(
                match auth {
                    Some((cert, key)) => Some(
                        text::enclosed(
                            ""@,
                            text::bytes_debug(cert) + ", "@ + text::bytes_debug(key),
                        ),
                    ),
                    None => None,
                },
            ),
        ),
    }
}

fn connection_method_text(method: &ConnectionMethod) -> (text: String)
    ensures
        text@ == connection_method_debug(method@),
{
    match method {
        ConnectionMethod::Tcp => "Tcp".to_owned(),
        ConnectionMethod::Tls(ca, auth) => {
            let auth_text = match auth {
                Some((cert, key)) => Some(
                    enclose(
                        "",
                        write_bytes(cert).concat(", ").concat(write_bytes(key).as_str()),
                    ),
                ),
                None => None,
            };
            enclose(
                "Tls",
                write_bytes(ca).concat(", ").concat(write_optional(auth_text).as_str()),
            )
        },
    }
}

/// How a proxy reads.
pub open spec fn proxy_debug(proxy: options::ProxyView) -> Seq<char> {
    match proxy {
        options::ProxyView::Direct => "None"@,
        options::ProxyView::HttpConnect(host, port, key, expiry) => text::enclosed(
            "HttpConnect"@,
            text::quoted(host) + ", "@ + text::decimal(port as nat) + ", "@
                + text::bytes_debug(key) + ", "@ + text::signed_decimal(expiry as int),
        ),
    }
}

fn proxy_text(proxy: &Proxy) -> (text: String)
    ensures
        text@ == proxy_debug(proxy@),
{
    match proxy {
        Proxy::Direct => "None".to_owned(),
        Proxy::HttpConnect(host, port, key, expiry) => enclose(
            "HttpConnect",
            quote(host.as_str()).concat(", ").concat(
                write_decimal(*port as u64).as_str(),
            ).concat(", ").concat(write_bytes(key).as_str()).concat(", ").concat(
                write_signed_decimal(*expiry).as_str(),
            ),
        ),
    }
}

/// How a reconnection policy reads.
pub open spec fn reconnect_debug(reconnect: ReconnectOptions) -> Seq<char> {
    match reconnect {
        ReconnectOptions::Never => "Never"@,
        ReconnectOptions::AfterFirstSuccess(time) => text::enclosed(
            "AfterFirstSuccess"@,
            text::decimal(time as nat),
        ),
        ReconnectOptions::Always(time) => text::enclosed("Always"@, text::decimal(time as nat)),
    }
}

fn reconnect_text(reconnect: ReconnectOptions) -> (text: String)
    ensures
        text@ == reconnect_debug(reconnect),
{
    match reconnect {
        ReconnectOptions::Never => "Never".to_owned(),
        ReconnectOptions::AfterFirstSuccess(time) => enclose(
            "AfterFirstSuccess",
            write_decimal(time),
        ),
        ReconnectOptions::Always(time) => enclose("Always", write_decimal(time)),
    }
}

/// How the options of a connection read.
pub open spec fn options_debug(options: options::MqttOptionsView) -> Seq<char> {
    "MqttOptions { broker_addr: "@ + text::quoted(options.broker_addr) + ", port: "@
        + text::decimal(options.port as nat) + ", client_id: "@ + text::quoted(options.client_id) + ", keep_alive: "@ + text::decimal(
        options.keep_alive as nat,
    ) + ", connection_method: "@ + connection_method_debug(options.connection_method)
        + ", proxy: "@ + proxy_debug(options.proxy) + ", reconnect: "@ + reconnect_debug(
        options.reconnect,
    ) + ", notification_channel_capacity: "@ + text::decimal(
        options.notification_channel_capacity as nat,
    ) + ", request_channel_capacity: "@ + text::decimal(options.request_channel_capacity as nat)
        + ", in_flight: "@ + text::decimal(options.in_flight as nat) + ", outgoing_ratelimit: "@
        + text::optional(
        match options.outgoing_ratelimit {
            Some(rate) => Some(text::decimal(rate as nat)),
            None => None,
        },
    ) + " }"@
}

fn options_text(options: &MqttOptions) -> (text: String)
    ensures
        text@ == options_debug(options@),
{
    let ratelimit = match options.outgoing_ratelimit {
        Some(rate) => Some(write_decimal(rate)),
        None => None,
    };
    "MqttOptions { broker_addr: ".to_owned().concat(quote(options.broker_addr.as_str()).as_str())
        .concat(", port: ").concat(write_decimal(options.port as u64).as_str())
        .concat(", client_id: ").concat(quote(options.client_id.as_str()).as_str())
        .concat(", keep_alive: ").concat(write_decimal(options.keep_alive as u64).as_str())
        .concat(", connection_method: ")
        .concat(connection_method_text(&options.connection_method).as_str())
        .concat(", proxy: ").concat(proxy_text(&options.proxy).as_str())
        .concat(", reconnect: ").concat(reconnect_text(options.reconnect).as_str())
        .concat(", notification_channel_capacity: ")
        .concat(write_decimal(options.notification_channel_capacity as u64).as_str())
        .concat(", request_channel_capacity: ")
        .concat(write_decimal(options.request_channel_capacity as u64).as_str())
        .concat(", in_flight: ").concat(write_decimal(options.in_flight as u64).as_str())
        .concat(", outgoing_ratelimit: ").concat(write_optional(ratelimit).as_str())
        .concat(" }")
}

/// How a request reads: a publish as its line, every other one as its variant, and a request for
/// nothing as `None`.
pub open spec fn request_line(request: Request) -> Seq<char> {
    match request {
        Request::Publish(p) => publish_line(p.topic_name@, p.qos, p.pkid, p.payload@.len()),
        Request::Subscribe(subscribe) => text::enclosed("Subscribe"@, subscribe_debug(subscribe@)),
        Request::Unsubscribe(unsubscribe) => text::enclosed(
            "Unsubscribe"@,
            unsubscribe_debug(unsubscribe@),
        ),
        Request::PubAck(pkid) => text::enclosed("PubAck"@, pkid_debug(pkid)),
        Request::PubRec(pkid) => text::enclosed("PubRec"@, pkid_debug(pkid)),
        Request::PubRel(pkid) => text::enclosed("PubRel"@, pkid_debug(pkid)),
        Request::PubComp(pkid) => text::enclosed("PubComp"@, pkid_debug(pkid)),
        Request::Ping => "Ping"@,
        Request::Reconnect(options) => text::enclosed("Reconnect"@, options_debug(options@)),
        Request::Disconnect => "Disconnect"@,
        Request::Empty => "None"@,
    }
}

/// Describes a request in a line.
pub fn request_info(packet: &Request) -> (text: String)
    ensures
        text@ == request_line(*packet),
{
    match packet {
        Request::Publish(p) => publish_info(p),
        Request::Subscribe(subscribe) => enclose("Subscribe", subscribe_text(subscribe)),
        Request::Unsubscribe(unsubscribe) => enclose("Unsubscribe", unsubscribe_text(unsubscribe)),
        Request::PubAck(pkid) => enclose("PubAck", pkid_text(*pkid)),
        Request::PubRec(pkid) => enclose("PubRec", pkid_text(*pkid)),
        Request::PubRel(pkid) => enclose("PubRel", pkid_text(*pkid)),
        Request::PubComp(pkid) => enclose("PubComp", pkid_text(*pkid)),
        Request::Ping => "Ping".to_owned(),
        Request::Reconnect(options) => enclose("Reconnect", options_text(options)),
        Request::Disconnect => "Disconnect".to_owned(),
        Request::Empty => "None".to_owned(),
    }
}

} // verus!
