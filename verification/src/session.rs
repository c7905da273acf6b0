//! The path of a packet between the user, the session and the network.
//!
//! The session itself, which numbers packets and remembers what is unacknowledged, is a type of
//! the caller's. It is worked on through functions that the caller hands in.

use crate::error::{ConnectError, NetworkError, TimeoutError};
use crate::notification::{Delivery, Notification};
use crate::options::MqttOptions;
use crate::packet::{Connack, Connect, Packet};
use crate::request::{self, should_forward_packet, Request};
use crate::stream::{self, LimitedPoll, Prepend, Prepended};
use std::collections::VecDeque;
use vstd::prelude::*;

verus! {

/// State of an MQTT session, with the options that it goes by.
#[derive(Debug)]
pub struct MqttState<S> {
    pub opts: MqttOptions,
    pub session: S,
}

/// `f` may be called on a value that holds `before`, with `argument`.
pub open spec fn may_run_with<S, A, R, F: FnOnce(&mut S, A) -> R>(
    f: F,
    before: S,
    argument: A,
) -> bool {
    forall|target: &mut S| *target == before ==> #[trigger] call_requires(f, (target, argument))
}

/// Checks a request of the user. One for a reconnection replaces the options of the session and
/// ends the event loop; every other one becomes its packet.
pub fn validate_userrequest<S>(userrequest: Request, mqtt_state: &mut MqttState<S>) -> (packet:
    Result<Packet, NetworkError>)
    requires
        !(userrequest is Empty),
    ensures
        final(mqtt_state).session == old(mqtt_state).session,
        match userrequest {
            Request::Reconnect(mqttoptions) => {
                &&& packet == Err::<Packet, NetworkError>(NetworkError::UserReconnect)
                &&& final(mqtt_state).opts == mqttoptions
            },
            _ => {
                &&& packet matches Ok(sent)
                &&& request::packet_of(userrequest) == Some(sent)
                &&& final(mqtt_state).opts == old(mqtt_state).opts
            },
        },
{
    match userrequest {
        Request::Reconnect(mqttoptions) => {
            mqtt_state.opts = mqttoptions;
            Err(NetworkError::UserReconnect)
        },
        _ => Ok(Packet::from(userrequest)),
    }
}

/// Takes one item of the request stream to the session, which says what to send for it. A
/// request stream that fails ends the event loop with the error `Blah`, and so does a request for
/// a reconnection, with the error `UserReconnect`; neither reaches the session.
pub fn request_stream<S>(
    request: Result<Request, NetworkError>,
    mqtt_state: &mut MqttState<S>,
    handle_outgoing_mqtt_packet: impl FnOnce(&mut MqttState<S>, Packet) -> Result<
        Request,
        NetworkError,
    >,
) -> (outgoing: Result<Request, NetworkError>)
    requires
        request matches Ok(userrequest) ==> !(userrequest is Empty),
        request matches Ok(userrequest) ==> (request::packet_of(userrequest) matches Some(
            packet,
        ) ==> may_run_with(handle_outgoing_mqtt_packet, *old(mqtt_state), packet)),
    ensures
        match request {
            Err(_) => {
                &&& outgoing == Err::<Request, NetworkError>(NetworkError::Blah)
                &&& *final(mqtt_state) == *old(mqtt_state)
            },
            Ok(Request::Reconnect(mqttoptions)) => {
                &&& outgoing == Err::<Request, NetworkError>(NetworkError::UserReconnect)
                &&& final(mqtt_state).opts == mqttoptions
                &&& final(mqtt_state).session == old(mqtt_state).session
            },
            Ok(userrequest) => exists|target: &mut MqttState<S>|
                {
                    &&& *target == *old(mqtt_state)
                    &&& #[trigger] call_ensures(
                        handle_outgoing_mqtt_packet,
                        (target, request::packet_of(userrequest)->0),
                        outgoing,
                    )
                    &&& *final(mqtt_state) == *final(target)
                },
        },
{
    let userrequest = match request {
        Err(_) => {
            return Err(NetworkError::Blah);
        },
        Ok(userrequest) => userrequest,
    };
    match validate_userrequest(userrequest, mqtt_state) {
        Err(e) => Err(e),
        Ok(packet) => handle_outgoing_mqtt_packet(mqtt_state, packet),
    }
}

/// Starts the session on a new network connection: the requests that the session has to repeat,
/// if there was one before, go in front of all others.
pub fn start_session<S, Q>(
    requests: &mut Prepend<Request, Q>,
    mqtt_state: &mut MqttState<S>,
    handle_reconnection: impl FnOnce(&mut MqttState<S>) -> VecDeque<Request>,
)
    requires
        stream::may_run(handle_reconnection, *old(mqtt_state)),
    ensures
        exists|target: &mut MqttState<S>, session: VecDeque<Request>|
            {
                &&& *target == *old(mqtt_state)
                &&& #[trigger] call_ensures(handle_reconnection, (target,), session)
                &&& *final(mqtt_state) == *final(target)
                &&& final(requests).front() == session@ + old(requests).front()
                &&& final(requests).behind() == old(requests).behind()
            },
{
    requests.insert(handle_reconnection(mqtt_state));
}

/// Polls the request stream, unless the queue of unacknowledged publishes is full. Then the
/// stream is only peeked at, and polled all the same if the peek failed. An answer of the stream
/// to a peek says, where there is no item, whether that is a failure. `None` means that the
/// request stream is not ready.
pub fn limit_in_flight_request_stream<T, Q, E>(
    in_flight: usize,
    publish_queue_len: usize,
    requests: &mut Prepend<T, Q>,
    peek_stream: impl FnOnce(&mut Q) -> Result<T, bool>,
    poll_stream: impl FnOnce(&mut Q) -> Result<T, E>,
) -> (polled: Option<Result<T, E>>)
    requires
        old(requests).front().len() == 0 && publish_queue_len < in_flight ==> stream::may_run(
            poll_stream,
            old(requests).behind(),
        ),
        old(requests).front().len() == 0 && publish_queue_len >= in_flight ==> stream::may_run(
            peek_stream,
            old(requests).behind(),
        ),
        old(requests).front().len() == 0 && publish_queue_len >= in_flight ==> forall|
            peeked: &mut Q,
        |
            *peeked == old(requests).behind() && #[trigger] call_ensures(
                peek_stream,
                (peeked,),
                Err::<T, bool>(true),
            ) ==> stream::may_run(poll_stream, *final(peeked)),
    ensures
        exists|step: LimitedPoll<T, E>|
            {
                let front = old(requests).front();
                &&& step.full == (publish_queue_len >= in_flight)
                &&& polled == #[trigger] step.answer(old(requests).front())
                &&& final(requests).front() == step.front_after(front)
                &&& if step.asks_peek(front) {
                    exists|peeked: &mut Q|
                        {
                            &&& *peeked == old(requests).behind()
                            &&& #[trigger] call_ensures(peek_stream, (peeked,), step.peeked)
                            &&& if step.asks_poll(front) {
                                exists|target: &mut Q|
                                    {
                                        &&& *target == *final(peeked)
                                        &&& #[trigger] call_ensures(
                                            poll_stream,
                                            (target,),
                                            step.polled,
                                        )
                                        &&& final(requests).behind() == *final(target)
                                    }
                            } else {
                                final(requests).behind() == *final(peeked)
                            }
                        }
                } else if step.asks_poll(front) {
                    exists|target: &mut Q|
                        {
                            &&& *target == old(requests).behind()
                            &&& #[trigger] call_ensures(poll_stream, (target,), step.polled)
                            &&& final(requests).behind() == *final(target)
                        }
                } else {
                    final(requests).behind() == old(requests).behind()
                }
            },
{
    let full = publish_queue_len >= in_flight;
    let ghost front = requests.front();
    if full {
        let peeked = requests.peek(peek_stream);
        let failed = matches!(peeked, Err(true));
        if !failed {
            proof {
                let answer = match peeked {
                    Ok(_) => Ok(requests.front()[0]),
                    Err(failure) => Err(failure),
                };
                let step = LimitedPoll::<T, E> { full, peeked: answer, polled: arbitrary() };
                assert(step.answer(front) is None);
            }
            return None;
        }
    }
    let polled = match requests.poll(poll_stream) {
        Prepended::Front(item) => Ok(item),
        Prepended::Behind(answer) => answer,
    };
    proof {
        let step = LimitedPoll { full, peeked: Err::<T, bool>(true), polled };
        assert(step.answer(front) == Some(polled));
    }
    Some(polled)
}

/// What goes on in the reply stream after an error in it. `ping` is the session's answer to a
/// ping that is due.
pub open spec fn after_timeout(
    error: TimeoutError<NetworkError>,
    ping: Result<Request, NetworkError>,
) -> Result<Request, NetworkError> {
    match error {
        TimeoutError::Inner(e) => Err(e),
        _ => ping,
    }
}

/// Handles an error in the reply stream. The session is told of a ping in any case. If the
/// stream was silent for too long its answer goes on, else the error itself.
pub fn handle_stream_timeout_error<S>(
    error: TimeoutError<NetworkError>,
    mqtt_state: &mut S,
    handle_outgoing_mqtt_packet: impl FnOnce(&mut S, Packet) -> Result<Request, NetworkError>,
) -> (reply: Result<Request, NetworkError>)
    requires
        !(error is Timer),
        may_run_with(handle_outgoing_mqtt_packet, *old(mqtt_state), Packet::Pingreq),
    ensures
        exists|target: &mut S, ping: Result<Request, NetworkError>|
            {
                &&& *target == *old(mqtt_state)
                &&& #[trigger] call_ensures(
                    handle_outgoing_mqtt_packet,
                    (target, Packet::Pingreq),
                    ping,
                )
                &&& *final(mqtt_state) == *final(target)
                &&& reply == after_timeout(error, ping)
            },
{
    // check if a ping to the broker is necessary
    let out = handle_outgoing_mqtt_packet(mqtt_state, Packet::Pingreq);
    match error {
        TimeoutError::Inner(e) => Err(e),
        _ => out,
    }
}

/// What the network stream yields for an answer of the session: its reply, unless that is empty.
pub open spec fn forwarded(handled: Result<(Notification, Request), NetworkError>) -> Result<
    Option<Request>,
    NetworkError,
> {
    match handled {
        Ok((_, reply)) => if reply is Empty {
            Ok(None)
        } else {
            Ok(Some(reply))
        },
        Err(e) => Err(e),
    }
}

/// Handles one item of the network stream: a packet, an error, or the end of the stream. A packet
/// goes to the session. What the session has to tell, and nothing else, goes to `notify`, and its
/// reply goes on unless it is empty. The end of the stream is an error, and of an error, the
/// stream's or the session's, `notify` does not hear.
pub fn network_reply_stream<S>(
    item: Option<Result<Packet, std::io::Error>>,
    mqtt_state: &mut S,
    handle_incoming_mqtt_packet: impl FnOnce(&mut S, Packet) -> Result<
        (Notification, Request),
        NetworkError,
    >,
    notify: impl FnOnce(Notification) -> Delivery,
) -> (reply: Result<Option<Request>, NetworkError>)
    requires
        item matches Some(Ok(packet)) ==> may_run_with(
            handle_incoming_mqtt_packet,
            *old(mqtt_state),
            packet,
        ),
        item matches Some(Ok(packet)) ==> forall|
            target: &mut S,
            handled: Result<(Notification, Request), NetworkError>,
        |
            *target == *old(mqtt_state) && #[trigger] call_ensures(
                handle_incoming_mqtt_packet,
                (target, packet),
                handled,
            ) ==> (handled matches Ok((notification, _)) ==> call_requires(
                notify,
                (notification,),
            )),
    ensures
        match item {
            Some(Ok(packet)) => exists|
                target: &mut S,
                handled: Result<(Notification, Request), NetworkError>,
            |
                {
                    &&& *target == *old(mqtt_state)
                    &&& #[trigger] call_ensures(
                        handle_incoming_mqtt_packet,
                        (target, packet),
                        handled,
                    )
                    &&& *final(mqtt_state) == *final(target)
                    &&& reply == forwarded(handled)
                    &&& handled matches Ok((notification, _)) ==> exists|delivery: Delivery|
                        call_ensures(notify, (notification,), delivery)
                },
            Some(Err(e)) => {
                &&& reply == Err::<Option<Request>, NetworkError>(NetworkError::Io(e))
                &&& *final(mqtt_state) == *old(mqtt_state)
            },
            None => {
                &&& reply == Err::<Option<Request>, NetworkError>(NetworkError::NetworkStreamClosed)
                &&& *final(mqtt_state) == *old(mqtt_state)
            },
        },
{
    match item {
        Some(Ok(packet)) => match handle_incoming_mqtt_packet(mqtt_state, packet) {
            Ok((notification, reply)) => {
                notify(notification);
                if should_forward_packet(&reply) {
                    Ok(Some(reply))
                } else {
                    Ok(None)
                }
            },
            Err(e) => Err(e),
        },
        Some(Err(e)) => Err(NetworkError::Io(e)),
        None => Err(NetworkError::NetworkStreamClosed),
    }
}

/// The packet to send for a reply that may be empty.
pub open spec fn sent_for(reply: Result<Request, NetworkError>) -> Result<
    Option<Packet>,
    NetworkError,
> {
    match reply {
        Ok(request) => Ok(request::packet_of(request)),
        Err(e) => Err(e),
    }
}

/// Turns one item of the reply stream, which has a time limit on it, into the packet to send.
/// Silence is answered as `handle_stream_timeout_error` says. An empty reply is dropped.
pub fn network_reply_packet<S>(
    item: Result<Request, TimeoutError<NetworkError>>,
    mqtt_state: &mut S,
    handle_outgoing_mqtt_packet: impl FnOnce(&mut S, Packet) -> Result<Request, NetworkError>,
) -> (packet: Result<Option<Packet>, NetworkError>)
    requires
        match item {
            Ok(reply) => !(reply is Reconnect),
            Err(error) => {
                &&& !(error is Timer)
                &&& may_run_with(handle_outgoing_mqtt_packet, *old(mqtt_state), Packet::Pingreq)
                &&& error is Elapsed ==> forall|
                    target: &mut S,
                    ping: Result<Request, NetworkError>,
                |
                    *target == *old(mqtt_state) && #[trigger] call_ensures(
                        handle_outgoing_mqtt_packet,
                        (target, Packet::Pingreq),
                        ping,
                    ) ==> !(ping matches Ok(reply) && reply is Reconnect)
            },
        },
    ensures
        match item {
            Ok(reply) => {
                &&& packet == sent_for(Ok(reply))
                &&& *final(mqtt_state) == *old(mqtt_state)
            },
            Err(error) => exists|target: &mut S, ping: Result<Request, NetworkError>|
                {
                    &&& *target == *old(mqtt_state)
                    &&& #[trigger] call_ensures(
                        handle_outgoing_mqtt_packet,
                        (target, Packet::Pingreq),
                        ping,
                    )
                    &&& *final(mqtt_state) == *final(target)
                    &&& packet == sent_for(after_timeout(error, ping))
                },
        },
{
    let reply = match item {
        Ok(reply) => Ok(reply),
        Err(e) => handle_stream_timeout_error(e, mqtt_state, handle_outgoing_mqtt_packet),
    };
    network_request_packet(reply)
}

/// Turns what the session wants sent for one item of a stream into the packet to send. An empty
/// request is dropped.
pub fn network_request_packet(item: Result<Request, NetworkError>) -> (packet: Result<
    Option<Packet>,
    NetworkError,
>)
    requires
        !(item matches Ok(request) && request is Reconnect),
    ensures
        packet == sent_for(item),
{
    match item {
        Ok(request) => if should_forward_packet(&request) {
            Ok(Some(Packet::from(request)))
        } else {
            Ok(None)
        },
        Err(e) => Err(e),
    }
}

/// Checks if incoming packet is mqtt connack packet. Useful after mqtt connect when we are
/// waiting for connack but not any other packet.
pub fn check_and_validate_connack<F, S>(
    packet: Option<Packet>,
    framed: F,
    mqtt_state: &mut S,
    handle_incoming_connack: impl FnOnce(&mut S, Connack) -> Result<(), ConnectError>,
) -> (checked: Result<F, ConnectError>)
    requires
        packet matches Some(Packet::Connack(connack)) ==> may_run_with(
            handle_incoming_connack,
            *old(mqtt_state),
            connack,
        ),
    ensures
        match packet {
            Some(Packet::Connack(connack)) => exists|
                target: &mut S,
                verdict: Result<(), ConnectError>,
            |
                {
                    &&& *target == *old(mqtt_state)
                    &&& #[trigger] call_ensures(
                        handle_incoming_connack,
                        (target, connack),
                        verdict,
                    )
                    &&& *final(mqtt_state) == *final(target)
                    &&& checked == match verdict {
                        Ok(_) => Ok::<F, ConnectError>(framed),
                        Err(e) => Err::<F, ConnectError>(e),
                    }
                },
            Some(other) => {
                &&& checked == Err::<F, ConnectError>(ConnectError::NotConnackPacket(other))
                &&& *final(mqtt_state) == *old(mqtt_state)
            },
            None => {
                &&& checked == Err::<F, ConnectError>(ConnectError::NoResponse)
                &&& *final(mqtt_state) == *old(mqtt_state)
            },
        },
{
    match packet {
        Some(Packet::Connack(connack)) => match handle_incoming_connack(mqtt_state, connack) {
            Err(err) => Err(err),
            _ => Ok(framed),
        },
        Some(packet) => Err(ConnectError::NotConnackPacket(packet)),
        None => Err(ConnectError::NoResponse),
    }
}

/// A step of the connection handshake that is over, and what came of it.
#[derive(Debug)]
pub enum ConnectEvent<F> {
    /// The network connection, and the connect packet that is to go over it.
    Opened(Result<F, ConnectError>, Connect),
    /// The connect packet was sent.
    Sent(Result<F, std::io::Error>),
    /// The first packet of the broker, if it sent any.
    Received(Result<(Option<Packet>, F), std::io::Error>),
}

/// What the connection handshake does next.
#[derive(Debug)]
pub enum ConnectAction<F> {
    Send(F, Packet),
    Receive(F),
    Finish(Result<F, ConnectError>),
}

/// What the handshake does after `event`. `verdict` is what the session says of a connack.
pub open spec fn connect_action<F>(
    event: ConnectEvent<F>,
    verdict: Result<(), ConnectError>,
) -> ConnectAction<F> {
    match event {
        ConnectEvent::Opened(Ok(framed), connect) => ConnectAction::Send(
            framed,
            Packet::Connect(connect),
        ),
        ConnectEvent::Opened(Err(e), _) => ConnectAction::Finish(Err(e)),
        ConnectEvent::Sent(Ok(framed)) => ConnectAction::Receive(framed),
        ConnectEvent::Sent(Err(e)) => ConnectAction::Finish(Err(ConnectError::Io(e))),
        ConnectEvent::Received(Ok((Some(Packet::Connack(_)), framed))) => ConnectAction::Finish(
            match verdict {
                Ok(_) => Ok(framed),
                Err(e) => Err(e),
            },
        ),
        ConnectEvent::Received(Ok((Some(packet), _))) => ConnectAction::Finish(
            Err(ConnectError::NotConnackPacket(packet)),
        ),
        ConnectEvent::Received(Ok((None, _))) => ConnectAction::Finish(
            Err(ConnectError::NoResponse),
        ),
        ConnectEvent::Received(Err(e)) => ConnectAction::Finish(Err(ConnectError::Io(e))),
    }
}

/// The connack that an event holds.
pub open spec fn connack_in<F>(event: ConnectEvent<F>) -> Option<Connack> {
    match event {
        ConnectEvent::Received(Ok((Some(Packet::Connack(connack)), _))) => Some(connack),
        _ => None,
    }
}

/// Takes the handshake one step on: open the network connection, send the connect packet, wait
/// for the first packet of the broker, and check that it is a connack that the session accepts.
pub fn mqtt_connect<F, S>(
    event: ConnectEvent<F>,
    mqtt_state: &mut S,
    handle_incoming_connack: impl FnOnce(&mut S, Connack) -> Result<(), ConnectError>,
) -> (action: ConnectAction<F>)
    requires
        connack_in(event) matches Some(connack) ==> may_run_with(
            handle_incoming_connack,
            *old(mqtt_state),
            connack,
        ),
    ensures
        match connack_in(event) {
            Some(connack) => exists|target: &mut S, verdict: Result<(), ConnectError>|
                {
                    &&& *target == *old(mqtt_state)
                    &&& #[trigger] call_ensures(
                        handle_incoming_connack,
                        (target, connack),
                        verdict,
                    )
                    &&& *final(mqtt_state) == *final(target)
                    &&& action == connect_action(event, verdict)
                },
            None => {
                &&& action == connect_action(event, Ok(()))
                &&& *final(mqtt_state) == *old(mqtt_state)
            },
        },
{
    match event {
        ConnectEvent::Opened(Ok(framed), connect) => ConnectAction::Send(
            framed,
            Packet::Connect(connect),
        ),
        ConnectEvent::Opened(Err(e), _) => ConnectAction::Finish(Err(e)),
        ConnectEvent::Sent(Ok(framed)) => ConnectAction::Receive(framed),
        ConnectEvent::Sent(Err(e)) => ConnectAction::Finish(Err(ConnectError::Io(e))),
        ConnectEvent::Received(Ok((response, framed))) => ConnectAction::Finish(
            check_and_validate_connack(response, framed, mqtt_state, handle_incoming_connack),
        ),
        ConnectEvent::Received(Err(e)) => ConnectAction::Finish(Err(ConnectError::Io(e))),
    }
}

} // verus!
