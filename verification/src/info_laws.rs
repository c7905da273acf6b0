//! How packets and requests read in logs.

use crate::info::{self, packet_info, request_info};
use crate::options::{ConnectionMethod, MqttOptions, Proxy, ReconnectOptions};
use crate::packet::{
    Connack, Connect, ConnectReturnCode, LastWill, Packet, PacketIdentifier, Protocol, Publish,
    QoS, Suback, Subscribe, SubscribeReturnCodes, SubscribeTopic, Unsubscribe,
};
use crate::request::Request;
use crate::text;
use crate::text_laws;
use vstd::prelude::*;

verus! {

/// `word` names the quality of service.
pub open spec fn is_qos(word: Seq<char>, qos: QoS) -> bool {
    &&& qos is AtMostOnce ==> word == "AtMostOnce"@
    &&& qos is AtLeastOnce ==> word == "AtLeastOnce"@
    &&& qos is ExactlyOnce ==> word == "ExactlyOnce"@
}

/// `word` names the truth value.
pub open spec fn is_truth(word: Seq<char>, truth: bool) -> bool {
    word == if truth {
        "true"@
    } else {
        "false"@
    }
}

/// `line` is the identifier, with its number.
pub open spec fn is_id(line: Seq<char>, pkid: PacketIdentifier) -> bool {
    exists|digits: Seq<char>|
        {
            &&& #[trigger] text_laws::is_numeral(digits, pkid.0 as nat)
            &&& line == "PacketIdentifier"@ + "("@ + digits + ")"@
        }
}

/// `line` is the identifier, if there is one.
pub open spec fn is_optional_id(line: Seq<char>, pkid: Option<PacketIdentifier>) -> bool {
    match pkid {
        Some(id) => exists|inner: Seq<char>|
            #[trigger] is_id(inner, id) && line == "Some"@ + "("@ + inner + ")"@,
        None => line == "None"@,
    }
}

/// `line` tells the topic, the quality of service, the identifier and the size of a publish.
pub open spec fn is_publish(line: Seq<char>, publish: Publish) -> bool {
    exists|qos: Seq<char>, pkid: Seq<char>, size: Seq<char>|
        {
            &&& #[trigger] is_qos(qos, publish.qos)
            &&& #[trigger] is_optional_id(pkid, publish.pkid)
            &&& #[trigger] text_laws::is_numeral(size, publish.payload@.len())
            &&& line == "topic = "@ + publish.topic_name@ + ", qos = "@ + qos + ", pkid = "@ + pkid
                + ", payload size = "@ + size + " bytes"@
        }
}

/// `line` is a topic of a subscribe packet.
pub open spec fn is_topic(line: Seq<char>, topic: SubscribeTopic) -> bool {
    exists|qos: Seq<char>|
        {
            &&& #[trigger] is_qos(qos, topic.qos)
            &&& line == "SubscribeTopic { topic_path: "@ + text::quoted(topic.topic_path@)
                + ", qos: "@ + qos + " }"@
        }
}

/// `line` is a subscribe packet: its identifier, and all its topics in their order.
pub open spec fn is_subscribe(line: Seq<char>, subscribe: Subscribe) -> bool {
    exists|pkid: Seq<char>, topics: Seq<Seq<char>>|
        {
            &&& #[trigger] is_id(pkid, subscribe.pkid)
            &&& topics.len() == subscribe.topics@.len()
            &&& forall|i: int|
                0 <= i < topics.len() ==> is_topic(#[trigger] topics[i], subscribe.topics@[i])
            &&& line == "Subscribe { pkid: "@ + pkid + ", topics: ["@
                + #[trigger] text_laws::joined(topics) + "] }"@
        }
}

/// `line` is an unsubscribe packet: its identifier, and all its topics in their order.
pub open spec fn is_unsubscribe(line: Seq<char>, unsubscribe: Unsubscribe) -> bool {
    exists|pkid: Seq<char>, topics: Seq<Seq<char>>|
        {
            &&& #[trigger] is_id(pkid, unsubscribe.pkid)
            &&& topics.len() == unsubscribe.topics@.len()
            &&& forall|i: int|
                0 <= i < topics.len() ==> #[trigger] topics[i] == text::quoted(
                    unsubscribe.topics@[i]@,
                )
            &&& line == "Unsubscribe { pkid: "@ + pkid + ", topics: ["@
                + #[trigger] text_laws::joined(topics) + "] }"@
        }
}

/// `line` is the answer of the broker to one topic.
pub open spec fn is_subscribe_code(line: Seq<char>, code: SubscribeReturnCodes) -> bool {
    match code {
        SubscribeReturnCodes::Failure => line == "Failure"@,
        SubscribeReturnCodes::Success(granted) => exists|qos: Seq<char>|
            #[trigger] is_qos(qos, granted) && line == "Success"@ + "("@ + qos + ")"@,
    }
}

/// `line` is a suback packet: its identifier, and all its codes in their order.
pub open spec fn is_suback(line: Seq<char>, suback: Suback) -> bool {
    exists|pkid: Seq<char>, codes: Seq<Seq<char>>|
        {
            &&& #[trigger] is_id(pkid, suback.pkid)
            &&& codes.len() == suback.return_codes@.len()
            &&& forall|i: int|
                0 <= i < codes.len() ==> is_subscribe_code(
                    #[trigger] codes[i],
                    suback.return_codes@[i],
                )
            &&& line == "Suback { pkid: "@ + pkid + ", return_codes: ["@
                + #[trigger] text_laws::joined(codes) + "] }"@
        }
}

/// `word` names the answer of the broker to a connect packet.
pub open spec fn is_return_code(word: Seq<char>, code: ConnectReturnCode) -> bool {
    &&& code is Accepted ==> word == "Accepted"@
    &&& code is RefusedProtocolVersion ==> word == "RefusedProtocolVersion"@
    &&& code is RefusedIdentifierRejected ==> word == "RefusedIdentifierRejected"@
    &&& code is ServerUnavailable ==> word == "ServerUnavailable"@
    &&& code is BadUsernamePassword ==> word == "BadUsernamePassword"@
    &&& code is NotAuthorized ==> word == "NotAuthorized"@
}

/// `line` is a connack packet.
pub open spec fn is_connack(line: Seq<char>, connack: Connack) -> bool {
    exists|present: Seq<char>, code: Seq<char>|
        {
            &&& #[trigger] is_truth(present, connack.session_present)
            &&& #[trigger] is_return_code(code, connack.code)
            &&& line == "Connack { session_present: "@ + present + ", code: "@ + code + " }"@
        }
}

/// `line` is the protocol version, with its level.
pub open spec fn is_protocol(line: Seq<char>, protocol: Protocol) -> bool {
    match protocol {
        Protocol::MQTT(level) => exists|digits: Seq<char>|
            #[trigger] text_laws::is_numeral(digits, level as nat) && line == "MQTT"@ + "("@
                + digits + ")"@,
        Protocol::MQIsdp(level) => exists|digits: Seq<char>|
            #[trigger] text_laws::is_numeral(digits, level as nat) && line == "MQIsdp"@ + "("@
                + digits + ")"@,
    }
}

/// `line` is a string in quotes, if there is one.
pub open spec fn is_optional_string(line: Seq<char>, string: Option<String>) -> bool {
    match string {
        Some(there) => line == "Some"@ + "("@ + text::quoted(there@) + ")"@,
        None => line == "None"@,
    }
}

/// `line` is a last will.
pub open spec fn is_last_will(line: Seq<char>, will: LastWill) -> bool {
    exists|qos: Seq<char>, retain: Seq<char>|
        {
            &&& #[trigger] is_qos(qos, will.qos)
            &&& #[trigger] is_truth(retain, will.retain)
            &&& line == "LastWill { topic: "@ + text::quoted(will.topic@) + ", message: "@
                + text::quoted(will.message@) + ", qos: "@ + qos + ", retain: "@ + retain + " }"@
        }
}

/// `line` is a last will, if there is one.
pub open spec fn is_optional_will(line: Seq<char>, will: Option<LastWill>) -> bool {
    match will {
        Some(there) => exists|inner: Seq<char>|
            #[trigger] is_last_will(inner, there) && line == "Some"@ + "("@ + inner + ")"@,
        None => line == "None"@,
    }
}

/// `line` is a connect packet.
pub open spec fn is_connect(line: Seq<char>, connect: Connect) -> bool {
    exists|
        protocol: Seq<char>,
        keep_alive: Seq<char>,
        clean: Seq<char>,
        will: Seq<char>,
        username: Seq<char>,
        password: Seq<char>,
    |
        {
            &&& #[trigger] is_protocol(protocol, connect.protocol)
            &&& #[trigger] text_laws::is_numeral(keep_alive, connect.keep_alive as nat)
            &&& #[trigger] is_truth(clean, connect.clean_session)
            &&& #[trigger] is_optional_will(will, connect.last_will)
            &&& #[trigger] is_optional_string(username, connect.username)
            &&& #[trigger] is_optional_string(password, connect.password)
            &&& line == "Connect { protocol: "@ + protocol + ", keep_alive: "@ + keep_alive
                + ", client_id: "@ + text::quoted(connect.client_id@) + ", clean_session: "@
                + clean + ", last_will: "@ + will + ", username: "@ + username + ", password: "@
                + password + " }"@
        }
}

/// `line` is the connection method, with what it holds.
pub open spec fn is_method(line: Seq<char>, method: ConnectionMethod) -> bool {
    match method {
        ConnectionMethod::Tcp => line == "Tcp"@,
        ConnectionMethod::Tls(ca, auth) => exists|ca_line: Seq<char>, auth_line: Seq<char>|
            {
                &&& #[trigger] text_laws::is_byte_list(ca_line, ca@)
                &&& #[trigger] is_auth(auth_line, auth)
                &&& line == "Tls"@ + "("@ + (ca_line + ", "@ + auth_line) + ")"@
            },
    }
}

/// `line` is the certificate and the key of the client, if there are any.
pub open spec fn is_auth(line: Seq<char>, auth: Option<(Vec<u8>, Vec<u8>)>) -> bool {
    match auth {
        Some((cert, key)) => exists|cert_line: Seq<char>, key_line: Seq<char>|
            {
                &&& #[trigger] text_laws::is_byte_list(cert_line, cert@)
                &&& #[trigger] text_laws::is_byte_list(key_line, key@)
                &&& line == "Some"@ + "("@ + (""@ + "("@ + (cert_line + ", "@ + key_line) + ")"@)
                    + ")"@
            },
        None => line == "None"@,
    }
}

/// `line` is a number with its sign.
pub open spec fn is_signed_numeral(line: Seq<char>, n: int) -> bool {
    if n < 0 {
        exists|digits: Seq<char>|
            #[trigger] text_laws::is_numeral(digits, (-n) as nat) && line == "-"@ + digits
    } else {
        text_laws::is_numeral(line, n as nat)
    }
}

/// `line` is the proxy, with what it holds.
pub open spec fn is_proxy(line: Seq<char>, proxy: Proxy) -> bool {
    match proxy {
        Proxy::Direct => line == "None"@,
        Proxy::HttpConnect(host, port, key, expiry) => exists|
            port_line: Seq<char>,
            key_line: Seq<char>,
            expiry_line: Seq<char>,
        |
            {
                &&& #[trigger] text_laws::is_numeral(port_line, port as nat)
                &&& #[trigger] text_laws::is_byte_list(key_line, key@)
                &&& #[trigger] is_signed_numeral(expiry_line, expiry as int)
                &&& line == "HttpConnect"@ + "("@ + (text::quoted(host@) + ", "@ + port_line + ", "@
                    + key_line + ", "@ + expiry_line) + ")"@
            },
    }
}

/// `line` is the reconnection policy, with its delay.
pub open spec fn is_policy(line: Seq<char>, policy: ReconnectOptions) -> bool {
    match policy {
        ReconnectOptions::Never => line == "Never"@,
        ReconnectOptions::Always(time) => exists|digits: Seq<char>|
            #[trigger] text_laws::is_numeral(digits, time as nat) && line == "Always"@ + "("@
                + digits + ")"@,
        ReconnectOptions::AfterFirstSuccess(time) => exists|digits: Seq<char>|
            #[trigger] text_laws::is_numeral(digits, time as nat) && line == "AfterFirstSuccess"@
                + "("@ + digits + ")"@,
    }
}

/// `line` is the rate limit, if there is one.
pub open spec fn is_rate(line: Seq<char>, rate: Option<u64>) -> bool {
    match rate {
        Some(there) => exists|digits: Seq<char>|
            #[trigger] text_laws::is_numeral(digits, there as nat) && line == "Some"@ + "("@
                + digits + ")"@,
        None => line == "None"@,
    }
}

/// `line` is the options of a connection, each under its name.
pub open spec fn is_options(line: Seq<char>, options: MqttOptions) -> bool {
    exists|
        port: Seq<char>,
        keep_alive: Seq<char>,
        method: Seq<char>,
        proxy: Seq<char>,
        policy: Seq<char>,
        notifications: Seq<char>,
        requests: Seq<char>,
        in_flight: Seq<char>,
        rate: Seq<char>,
    |
        {
            &&& #[trigger] text_laws::is_numeral(port, options.port as nat)
            &&& #[trigger] text_laws::is_numeral(keep_alive, options.keep_alive as nat)
            &&& #[trigger] is_method(method, options.connection_method)
            &&& #[trigger] is_proxy(proxy, options.proxy)
            &&& #[trigger] is_policy(policy, options.reconnect)
            &&& #[trigger] text_laws::is_numeral(
                notifications,
                options.notification_channel_capacity as nat,
            )
            &&& #[trigger] text_laws::is_numeral(
                requests,
                options.request_channel_capacity as nat,
            )
            &&& #[trigger] text_laws::is_numeral(in_flight, options.in_flight as nat)
            &&& #[trigger] is_rate(rate, options.outgoing_ratelimit)
            &&& line == "MqttOptions { broker_addr: "@ + text::quoted(options.broker_addr@)
                + ", port: "@ + port + ", client_id: "@ + text::quoted(options.client_id@)
                + ", keep_alive: "@ + keep_alive + ", connection_method: "@ + method + ", proxy: "@
                + proxy + ", reconnect: "@ + policy + ", notification_channel_capacity: "@
                + notifications + ", request_channel_capacity: "@ + requests + ", in_flight: "@
                + in_flight + ", outgoing_ratelimit: "@ + rate + " }"@
        }
}

proof fn lemma_id(pkid: PacketIdentifier)
    ensures
        is_id(info::pkid_debug(pkid), pkid),
{
    text_laws::law_decimal_is_numeral(pkid.0 as nat);
}

proof fn lemma_publish(publish: Publish)
    ensures
        is_publish(
            info::publish_line(
                publish.topic_name@,
                publish.qos,
                publish.pkid,
                publish.payload@.len(),
            ),
            publish,
        ),
{
    text_laws::law_decimal_is_numeral(publish.payload@.len());
    assert(is_qos(info::qos_name(publish.qos), publish.qos));
    let pkid = match publish.pkid {
        Some(id) => Some(info::pkid_debug(id)),
        None => None,
    };
    if let Some(id) = publish.pkid {
        lemma_id(id);
    }
    assert(is_optional_id(text::optional(pkid), publish.pkid));
}

proof fn lemma_subscribe(subscribe: Subscribe)
    ensures
        is_subscribe(info::subscribe_debug(subscribe@), subscribe),
{
    lemma_id(subscribe.pkid);
    assert(PacketIdentifier(subscribe.pkid.0) == subscribe.pkid);
    let views = subscribe.topics@.map_values(|topic: SubscribeTopic| topic@);
    let topics = views.map_values(|topic: (Seq<char>, QoS)| info::topic_debug(topic));
    text_laws::law_list_is_joined(topics);
    assert forall|i: int| 0 <= i < topics.len() implies is_topic(
        #[trigger] topics[i],
        subscribe.topics@[i],
    ) by {
        let topic = subscribe.topics@[i];
        assert(is_qos(info::qos_name(topic.qos), topic.qos));
    }
    assert(is_id(info::pkid_debug(subscribe.pkid), subscribe.pkid));
}

proof fn lemma_unsubscribe(unsubscribe: Unsubscribe)
    ensures
        is_unsubscribe(info::unsubscribe_debug(unsubscribe@), unsubscribe),
{
    lemma_id(unsubscribe.pkid);
    assert(PacketIdentifier(unsubscribe.pkid.0) == unsubscribe.pkid);
    let views = unsubscribe.topics@.map_values(|topic: String| topic@);
    let topics = views.map_values(|topic: Seq<char>| text::quoted(topic));
    text_laws::law_list_is_joined(topics);
}

proof fn lemma_suback(suback: Suback)
    ensures
        is_suback(info::suback_debug(suback.pkid, suback.return_codes@), suback),
{
    lemma_id(suback.pkid);
    let codes = suback.return_codes@.map_values(
        |code: SubscribeReturnCodes| info::subscribe_code_debug(code),
    );
    text_laws::law_list_is_joined(codes);
    assert forall|i: int| 0 <= i < codes.len() implies is_subscribe_code(
        #[trigger] codes[i],
        suback.return_codes@[i],
    ) by {
        if let SubscribeReturnCodes::Success(qos) = suback.return_codes@[i] {
            assert(is_qos(info::qos_name(qos), qos));
        }
    }
}

proof fn lemma_connack(connack: Connack)
    ensures
        is_connack(info::connack_debug(connack), connack),
{
    assert(is_truth(text::bool_name(connack.session_present), connack.session_present));
    assert(is_return_code(info::return_code_name(connack.code), connack.code));
}

proof fn lemma_connect(connect: Connect)
    ensures
        is_connect(info::connect_debug(connect@), connect),
{
    let level = match connect.protocol {
        Protocol::MQIsdp(level) => level,
        Protocol::MQTT(level) => level,
    };
    text_laws::law_decimal_is_numeral(level as nat);
    text_laws::law_decimal_is_numeral(connect.keep_alive as nat);
    assert(is_protocol(info::protocol_debug(connect.protocol), connect.protocol));
    assert(is_truth(text::bool_name(connect.clean_session), connect.clean_session));
    if let Some(will) = connect.last_will {
        assert(is_qos(info::qos_name(will.qos), will.qos));
        assert(is_truth(text::bool_name(will.retain), will.retain));
        assert(is_last_will(info::last_will_debug(will@), will));
    }
    let will = match connect@.last_will {
        Some(view) => Some(info::last_will_debug(view)),
        None => None,
    };
    assert(is_optional_will(text::optional(will), connect.last_will));
    assert(is_optional_string(info::optional_quoted(connect@.username), connect.username));
    assert(is_optional_string(info::optional_quoted(connect@.password), connect.password));
}

proof fn lemma_method(method: ConnectionMethod)
    ensures
        is_method(info::connection_method_debug(method@), method),
{
    if let ConnectionMethod::Tls(ca, auth) = method {
        text_laws::lemma_bytes(ca@);
        if let Some((cert, key)) = auth {
            text_laws::lemma_bytes(cert@);
            text_laws::lemma_bytes(key@);
        }
        let inner = match auth {
            Some((cert, key)) => Some(
                text::enclosed(
                    ""@,
                    text::bytes_debug(cert@) + ", "@ + text::bytes_debug(key@),
                ),
            ),
            None => None,
        };
        assert(is_auth(text::optional(inner), auth));
    }
}

proof fn lemma_proxy(proxy: Proxy)
    ensures
        is_proxy(info::proxy_debug(proxy@), proxy),
{
    if let Proxy::HttpConnect(_, port, key, expiry) = proxy {
        text_laws::law_decimal_is_numeral(port as nat);
        text_laws::lemma_bytes(key@);
        if expiry < 0 {
            text_laws::law_decimal_is_numeral((-(expiry as int)) as nat);
        } else {
            text_laws::law_decimal_is_numeral(expiry as nat);
        }
        assert(is_signed_numeral(text::signed_decimal(expiry as int), expiry as int));
    }
}

proof fn lemma_options(options: MqttOptions)
    ensures
        is_options(info::options_debug(options@), options),
{
    text_laws::law_decimal_is_numeral(options.port as nat);
    text_laws::law_decimal_is_numeral(options.keep_alive as nat);
    text_laws::law_decimal_is_numeral(options.notification_channel_capacity as nat);
    text_laws::law_decimal_is_numeral(options.request_channel_capacity as nat);
    text_laws::law_decimal_is_numeral(options.in_flight as nat);
    lemma_method(options.connection_method);
    lemma_proxy(options.proxy);
    match options.reconnect {
        ReconnectOptions::AfterFirstSuccess(time) => {
            text_laws::law_decimal_is_numeral(time as nat);
        },
        ReconnectOptions::Always(time) => {
            text_laws::law_decimal_is_numeral(time as nat);
        },
        ReconnectOptions::Never => {},
    }
    assert(is_policy(info::reconnect_debug(options.reconnect), options.reconnect));
    if let Some(rate) = options.outgoing_ratelimit {
        text_laws::law_decimal_is_numeral(rate as nat);
    }
    let rate = match options.outgoing_ratelimit {
        Some(rate) => Some(text::decimal(rate as nat)),
        None => None,
    };
    assert(is_rate(text::optional(rate), options.outgoing_ratelimit));
}

/// A publish reads the same as a packet and as a request: its topic, quality of service,
/// identifier and the size of its payload.
pub proof fn law_publish_reads(publish: Publish, as_packet: String, as_request: String)
    requires
        call_ensures(packet_info, (&Packet::Publish(publish),), as_packet),
        call_ensures(request_info, (&Request::Publish(publish),), as_request),
    ensures
        is_publish(as_packet@, publish),
        as_request@ == as_packet@,
{
    lemma_publish(publish);
}

/// Every packet but a publish reads as its name, with what it holds in round brackets.
pub proof fn law_packets_read(packet: Packet, written: String)
    requires
        call_ensures(packet_info, (&packet,), written),
    ensures
        packet is Pingreq ==> written@ == "Pingreq"@,
        packet is Pingresp ==> written@ == "Pingresp"@,
        packet is Disconnect ==> written@ == "Disconnect"@,
        packet matches Packet::Puback(pkid) ==> exists|inner: Seq<char>|
            #[trigger] is_id(inner, pkid) && written@ == "Puback"@ + "("@ + inner + ")"@,
        packet matches Packet::Pubrec(pkid) ==> exists|inner: Seq<char>|
            #[trigger] is_id(inner, pkid) && written@ == "Pubrec"@ + "("@ + inner + ")"@,
        packet matches Packet::Pubrel(pkid) ==> exists|inner: Seq<char>|
            #[trigger] is_id(inner, pkid) && written@ == "Pubrel"@ + "("@ + inner + ")"@,
        packet matches Packet::Pubcomp(pkid) ==> exists|inner: Seq<char>|
            #[trigger] is_id(inner, pkid) && written@ == "Pubcomp"@ + "("@ + inner + ")"@,
        packet matches Packet::Unsuback(pkid) ==> exists|inner: Seq<char>|
            #[trigger] is_id(inner, pkid) && written@ == "Unsuback"@ + "("@ + inner + ")"@,
        packet matches Packet::Connect(connect) ==> exists|inner: Seq<char>|
            #[trigger] is_connect(inner, connect) && written@ == "Connect"@ + "("@ + inner + ")"@,
        packet matches Packet::Connack(connack) ==> exists|inner: Seq<char>|
            #[trigger] is_connack(inner, connack) && written@ == "Connack"@ + "("@ + inner + ")"@,
        packet matches Packet::Subscribe(subscribe) ==> exists|inner: Seq<char>|
            #[trigger] is_subscribe(inner, subscribe) && written@ == "Subscribe"@ + "("@ + inner
                + ")"@,
        packet matches Packet::Suback(suback) ==> exists|inner: Seq<char>|
            #[trigger] is_suback(inner, suback) && written@ == "Suback"@ + "("@ + inner + ")"@,
        packet matches Packet::Unsubscribe(unsubscribe) ==> exists|inner: Seq<char>|
            #[trigger] is_unsubscribe(inner, unsubscribe) && written@ == "Unsubscribe"@ + "("@
                + inner + ")"@,
{
    match packet {
        Packet::Puback(pkid) => lemma_id(pkid),
        Packet::Pubrec(pkid) => lemma_id(pkid),
        Packet::Pubrel(pkid) => lemma_id(pkid),
        Packet::Pubcomp(pkid) => lemma_id(pkid),
        Packet::Unsuback(pkid) => lemma_id(pkid),
        Packet::Connect(connect) => lemma_connect(connect),
        Packet::Connack(connack) => lemma_connack(connack),
        Packet::Subscribe(subscribe) => lemma_subscribe(subscribe),
        Packet::Suback(suback) => lemma_suback(suback),
        Packet::Unsubscribe(unsubscribe) => lemma_unsubscribe(unsubscribe),
        _ => {},
    }
}

/// Every request but a publish reads as its name, with what it holds in round brackets. A request
/// for nothing is called `None`.
pub proof fn law_requests_read(request: Request, written: String)
    requires
        call_ensures(request_info, (&request,), written),
    ensures
        request is Ping ==> written@ == "Ping"@,
        request is Disconnect ==> written@ == "Disconnect"@,
        request is Empty ==> written@ == "None"@,
        request matches Request::PubAck(pkid) ==> exists|inner: Seq<char>|
            #[trigger] is_id(inner, pkid) && written@ == "PubAck"@ + "("@ + inner + ")"@,
        request matches Request::PubRec(pkid) ==> exists|inner: Seq<char>|
            #[trigger] is_id(inner, pkid) && written@ == "PubRec"@ + "("@ + inner + ")"@,
        request matches Request::PubRel(pkid) ==> exists|inner: Seq<char>|
            #[trigger] is_id(inner, pkid) && written@ == "PubRel"@ + "("@ + inner + ")"@,
        request matches Request::PubComp(pkid) ==> exists|inner: Seq<char>|
            #[trigger] is_id(inner, pkid) && written@ == "PubComp"@ + "("@ + inner + ")"@,
        request matches Request::Subscribe(subscribe) ==> exists|inner: Seq<char>|
            #[trigger] is_subscribe(inner, subscribe) && written@ == "Subscribe"@ + "("@ + inner
                + ")"@,
        request matches Request::Unsubscribe(unsubscribe) ==> exists|inner: Seq<char>|
            #[trigger] is_unsubscribe(inner, unsubscribe) && written@ == "Unsubscribe"@ + "("@
                + inner + ")"@,
        request matches Request::Reconnect(options) ==> exists|inner: Seq<char>|
            #[trigger] is_options(inner, options) && written@ == "Reconnect"@ + "("@ + inner
                + ")"@,
{
    match request {
        Request::PubAck(pkid) => lemma_id(pkid),
        Request::PubRec(pkid) => lemma_id(pkid),
        Request::PubRel(pkid) => lemma_id(pkid),
        Request::PubComp(pkid) => lemma_id(pkid),
        Request::Subscribe(subscribe) => lemma_subscribe(subscribe),
        Request::Unsubscribe(unsubscribe) => lemma_unsubscribe(unsubscribe),
        Request::Reconnect(options) => lemma_options(options),
        _ => {},
    }
}

} // verus!
