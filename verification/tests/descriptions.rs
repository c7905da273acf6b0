use mqtt_connection::info::{packet_info, request_info};
use mqtt_connection::options::{ConnectionMethod, MqttOptions, Proxy, ReconnectOptions};
use mqtt_connection::packet::{
    Connack, Connect, ConnectReturnCode, LastWill, Packet, PacketIdentifier, Protocol, Publish,
    QoS, Suback, Subscribe, SubscribeReturnCodes, SubscribeTopic, Unsubscribe,
};
use mqtt_connection::request::Request;
use mqtt_connection::text::{
    enclose, write_bytes, write_decimal, write_optional, write_signed_decimal,
};
use std::sync::Arc;

fn publish(qos: QoS, pkid: Option<PacketIdentifier>, payload: usize) -> Publish {
    Publish {
        dup: true,
        qos,
        retain: true,
        topic_name: "sensors/\"1\"".to_string(),
        pkid,
        payload: Arc::new(vec![0; payload]),
    }
}

#[test]
fn publish_line_is_exact() {
    let p = publish(QoS::AtLeastOnce, Some(PacketIdentifier(42)), 1005);
    let line = "topic = sensors/\"1\", qos = AtLeastOnce, pkid = Some(PacketIdentifier(42)), \
                payload size = 1005 bytes";
    assert_eq!(packet_info(&Packet::Publish(p.clone())), line);
    assert_eq!(request_info(&Request::Publish(p)), line);
    let p = publish(QoS::AtMostOnce, None, 0);
    assert_eq!(
        request_info(&Request::Publish(p)),
        "topic = sensors/\"1\", qos = AtMostOnce, pkid = None, payload size = 0 bytes"
    );
    let p = publish(QoS::ExactlyOnce, None, 1);
    assert_eq!(
        packet_info(&Packet::Publish(p)),
        "topic = sensors/\"1\", qos = ExactlyOnce, pkid = None, payload size = 1 bytes"
    );
}

#[test]
fn acknowledgements_and_bare_packets() {
    let id = PacketIdentifier(65535);
    let outside = mqtt311::PacketIdentifier(65535);
    for (packet, expected) in vec![
        (Packet::Puback(id), mqtt311::Packet::Puback(outside)),
        (Packet::Pubrec(id), mqtt311::Packet::Pubrec(outside)),
        (Packet::Pubrel(id), mqtt311::Packet::Pubrel(outside)),
        (Packet::Pubcomp(id), mqtt311::Packet::Pubcomp(outside)),
        (Packet::Unsuback(id), mqtt311::Packet::Unsuback(outside)),
        (Packet::Pingreq, mqtt311::Packet::Pingreq),
        (Packet::Pingresp, mqtt311::Packet::Pingresp),
        (Packet::Disconnect, mqtt311::Packet::Disconnect),
    ] {
        assert_eq!(packet_info(&packet), format!("{:?}", expected));
    }
    assert_eq!(packet_info(&Packet::Puback(PacketIdentifier(0))), "Puback(PacketIdentifier(0))");
}

#[test]
fn connack_and_suback() {
    let codes = vec![
        (ConnectReturnCode::Accepted, "Accepted"),
        (ConnectReturnCode::RefusedProtocolVersion, "RefusedProtocolVersion"),
        (ConnectReturnCode::RefusedIdentifierRejected, "RefusedIdentifierRejected"),
        (ConnectReturnCode::ServerUnavailable, "ServerUnavailable"),
        (ConnectReturnCode::BadUsernamePassword, "BadUsernamePassword"),
        (ConnectReturnCode::NotAuthorized, "NotAuthorized"),
    ];
    for (code, name) in codes {
        for session_present in vec![true, false] {
            assert_eq!(
                packet_info(&Packet::Connack(Connack { session_present, code })),
                format!("Connack(Connack {{ session_present: {}, code: {} }})", session_present, name)
            );
        }
    }
    let suback = Suback {
        pkid: PacketIdentifier(3),
        return_codes: vec![
            SubscribeReturnCodes::Success(QoS::AtMostOnce),
            SubscribeReturnCodes::Failure,
            SubscribeReturnCodes::Success(QoS::ExactlyOnce),
        ],
    };
    assert_eq!(
        packet_info(&Packet::Suback(suback)),
        "Suback(Suback { pkid: PacketIdentifier(3), return_codes: \
         [Success(AtMostOnce), Failure, Success(ExactlyOnce)] })"
    );
    let suback = Suback { pkid: PacketIdentifier(3), return_codes: vec![] };
    assert_eq!(
        packet_info(&Packet::Suback(suback)),
        "Suback(Suback { pkid: PacketIdentifier(3), return_codes: [] })"
    );
}

#[test]
fn subscriptions() {
    let subscribe = Subscribe {
        pkid: PacketIdentifier(1),
        topics: vec![
            SubscribeTopic { topic_path: "a\n".to_string(), qos: QoS::AtLeastOnce },
            SubscribeTopic { topic_path: "b/\"c\"".to_string(), qos: QoS::AtMostOnce },
        ],
    };
    let text = "Subscribe(Subscribe { pkid: PacketIdentifier(1), topics: \
                [SubscribeTopic { topic_path: \"a\\n\", qos: AtLeastOnce }, \
                SubscribeTopic { topic_path: \"b/\\\"c\\\"\", qos: AtMostOnce }] })";
    assert_eq!(packet_info(&Packet::Subscribe(subscribe.clone())), text);
    assert_eq!(request_info(&Request::Subscribe(subscribe)), text);

    let unsubscribe =
        Unsubscribe { pkid: PacketIdentifier(2), topics: vec!["a".to_string(), "\t".to_string()] };
    let text = "Unsubscribe(Unsubscribe { pkid: PacketIdentifier(2), topics: [\"a\", \"\\t\"] })";
    assert_eq!(packet_info(&Packet::Unsubscribe(unsubscribe.clone())), text);
    assert_eq!(request_info(&Request::Unsubscribe(unsubscribe)), text);
}

#[test]
fn connect_packets() {
    let mut connect = Connect {
        protocol: Protocol::MQTT(4),
        keep_alive: 300,
        client_id: "id".to_string(),
        clean_session: false,
        last_will: None,
        username: None,
        password: None,
    };
    assert_eq!(
        packet_info(&Packet::Connect(connect.clone())),
        "Connect(Connect { protocol: MQTT(4), keep_alive: 300, client_id: \"id\", \
         clean_session: false, last_will: None, username: None, password: None })"
    );
    connect.protocol = Protocol::MQIsdp(3);
    connect.clean_session = true;
    connect.last_will = Some(LastWill {
        topic: "gone".to_string(),
        message: "bye\\".to_string(),
        qos: QoS::ExactlyOnce,
        retain: true,
    });
    connect.username = Some("me".to_string());
    connect.password = Some("word".to_string());
    assert_eq!(
        packet_info(&Packet::Connect(connect)),
        "Connect(Connect { protocol: MQIsdp(3), keep_alive: 300, client_id: \"id\", \
         clean_session: true, last_will: Some(LastWill { topic: \"gone\", message: \"bye\\\\\", \
         qos: ExactlyOnce, retain: true }), username: Some(\"me\"), password: Some(\"word\") })"
    );
}

#[test]
fn requests() {
    let id = PacketIdentifier(8);
    for (request, text) in vec![
        (Request::PubAck(id), "PubAck(PacketIdentifier(8))"),
        (Request::PubRec(id), "PubRec(PacketIdentifier(8))"),
        (Request::PubRel(id), "PubRel(PacketIdentifier(8))"),
        (Request::PubComp(id), "PubComp(PacketIdentifier(8))"),
        (Request::Ping, "Ping"),
        (Request::Disconnect, "Disconnect"),
        (Request::Empty, "None"),
    ] {
        assert_eq!(request_info(&request), text);
    }
}

#[test]
fn reconnect_requests() {
    let mut options = MqttOptions {
        broker_addr: "localhost".to_string(),
        port: 1883,
        client_id: "\u{e9}\u{7}".to_string(),
        keep_alive: 10,
        connection_method: ConnectionMethod::Tls(vec![0, 255], Some((vec![], vec![7]))),
        proxy: Proxy::HttpConnect("proxy".to_string(), 80, vec![1, 2, 3], i64::MIN),
        reconnect: ReconnectOptions::AfterFirstSuccess(5),
        notification_channel_capacity: 1,
        request_channel_capacity: 2,
        in_flight: 3,
        outgoing_ratelimit: Some(4),
    };
    assert_eq!(request_info(&Request::Reconnect(options.clone())), format!("Reconnect({:?})", options));
    options.connection_method = ConnectionMethod::Tls(vec![1], None);
    options.proxy = Proxy::HttpConnect("proxy".to_string(), 80, vec![], 17);
    options.reconnect = ReconnectOptions::Always(18446744073709551615);
    options.outgoing_ratelimit = None;
    assert_eq!(request_info(&Request::Reconnect(options.clone())), format!("Reconnect({:?})", options));
    options.connection_method = ConnectionMethod::Tcp;
    options.proxy = Proxy::Direct;
    options.reconnect = ReconnectOptions::Never;
    assert_eq!(
        request_info(&Request::Reconnect(options)),
        "Reconnect(MqttOptions { broker_addr: \"localhost\", port: 1883, \
         client_id: \"\u{e9}\\u{7}\", keep_alive: 10, connection_method: Tcp, proxy: None, \
         reconnect: Never, notification_channel_capacity: 1, request_channel_capacity: 2, \
         in_flight: 3, outgoing_ratelimit: None })"
    );
}

#[test]
fn numbers_and_pieces() {
    for n in vec![0, 9, 10, 99, 100, 1234567890, u64::MAX] {
        assert_eq!(write_decimal(n), n.to_string());
    }
    for n in vec![0, -1, 5, -10, i64::MIN, i64::MAX] {
        assert_eq!(write_signed_decimal(n), n.to_string());
    }
    for bytes in vec![vec![], vec![5], vec![0, 10, 255]] {
        assert_eq!(write_bytes(&bytes), format!("{:?}", bytes));
    }
    assert_eq!(enclose("Name", "inner".to_string()), "Name(inner)");
    assert_eq!(write_optional(Some("x".to_string())), "Some(x)");
    assert_eq!(write_optional(None), "None");
}
