//! What each step on the path of a packet does, in terms of what goes in and what comes out.

use crate::channel::{try_send, Outgoing, Undelivered};
use crate::error::{ConnectError, NetworkError, TimeoutError};
use crate::notification::{delivered, handle_notification, Delivery, Notification};
use crate::options::MqttOptions;
use crate::packet::{Connack, Connect, Packet};
use crate::request::{command_stream, should_forward_packet, Command, Request};
use crate::session::{
    check_and_validate_connack, handle_stream_timeout_error, limit_in_flight_request_stream,
    mqtt_connect, network_reply_packet, network_reply_stream, network_request_packet,
    request_stream, start_session, validate_userrequest, ConnectAction, ConnectEvent, MqttState,
};
use crate::stream::Prepend;
use crossbeam_channel::Sender;
use std::collections::VecDeque;
use vstd::prelude::*;

verus! {

/// The packet is of the request's kind and holds what the request holds, unchanged.
pub open spec fn carries(packet: Packet, request: Request) -> bool {
    match (packet, request) {
        (Packet::Publish(sent), Request::Publish(asked)) => sent == asked,
        (Packet::Subscribe(sent), Request::Subscribe(asked)) => sent == asked,
        (Packet::Unsubscribe(sent), Request::Unsubscribe(asked)) => sent == asked,
        (Packet::Puback(sent), Request::PubAck(asked)) => sent == asked,
        (Packet::Pubrec(sent), Request::PubRec(asked)) => sent == asked,
        (Packet::Pubrel(sent), Request::PubRel(asked)) => sent == asked,
        (Packet::Pubcomp(sent), Request::PubComp(asked)) => sent == asked,
        (Packet::Pingreq, Request::Ping) => true,
        (Packet::Disconnect, Request::Disconnect) => true,
        _ => false,
    }
}

/// `sent` is what leaves for `wanted`: an error as it is, nothing for an empty request, and else
/// the packet of the request.
pub open spec fn leaves_for(
    sent: Result<Option<Packet>, NetworkError>,
    wanted: Result<Request, NetworkError>,
) -> bool {
    match (sent, wanted) {
        (Err(raised), Err(error)) => raised == error,
        (Ok(None), Ok(request)) => request is Empty,
        (Ok(Some(packet)), Ok(request)) => carries(packet, request),
        _ => false,
    }
}

/// A request goes out as the packet of its kind. A publish keeps its topic, payload, quality of
/// service, identifier and flags, and every other request what it holds.
pub proof fn law_requests_go_out_unchanged(request: Request, packet: Packet)
    requires
        call_ensures(Packet::from, (request,), packet),
    ensures
        request matches Request::Publish(publish) ==> packet == Packet::Publish(publish),
        request matches Request::Subscribe(subscribe) ==> packet == Packet::Subscribe(subscribe),
        request matches Request::Unsubscribe(unsubscribe) ==> packet == Packet::Unsubscribe(
            unsubscribe,
        ),
        request matches Request::PubAck(pkid) ==> packet == Packet::Puback(pkid),
        request matches Request::PubRec(pkid) ==> packet == Packet::Pubrec(pkid),
        request matches Request::PubRel(pkid) ==> packet == Packet::Pubrel(pkid),
        request matches Request::PubComp(pkid) ==> packet == Packet::Pubcomp(pkid),
        request is Ping ==> packet is Pingreq,
        request is Disconnect ==> packet is Disconnect,
        carries(packet, request),
{
}

/// A packet carries one request only, and a request is carried by one packet only. Nothing carries
/// an empty request or one for a reconnection.
pub proof fn law_one_packet_for_each_request(
    first: Packet,
    second: Packet,
    request: Request,
    other: Request,
)
    requires
        carries(first, request),
    ensures
        carries(second, request) <==> first == second,
        carries(first, other) <==> request == other,
        !(request is Empty) && !(request is Reconnect),
        !(first is Connect) && !(first is Connack) && !(first is Suback) && !(first is Unsuback)
            && !(first is Pingresp),
{
}

/// Only an empty request is held back.
pub proof fn law_only_empty_is_held_back(reply: Request, forward: bool)
    requires
        call_ensures(should_forward_packet, (&reply,), forward),
    ensures
        !forward <==> reply == Request::Empty,
{
}

/// No command becomes a packet. A pause ends the streams as a disconnection by the user, a
/// resumption as a reconnection by the user, and a broken command channel as neither.
pub proof fn law_commands(command: Result<Command, ()>, packet: Result<Packet, NetworkError>)
    requires
        call_ensures(command_stream, (command,), packet),
    ensures
        packet is Err,
        packet == Err::<Packet, NetworkError>(NetworkError::UserDisconnect) <==> command == Ok::<
            Command,
            (),
        >(Command::Pause),
        packet == Err::<Packet, NetworkError>(NetworkError::UserReconnect) <==> command == Ok::<
            Command,
            (),
        >(Command::Resume),
        packet == Err::<Packet, NetworkError>(NetworkError::Blah) <==> command is Err,
{
}

/// Only a request for a reconnection is an error and changes the options of the session, to those
/// that it brings. Every other one becomes its packet. The session itself is not touched.
pub proof fn law_userrequests<S>(request: Request, packet: Result<Packet, NetworkError>)
    requires
        !(request is Empty),
    ensures
        forall|state: &mut MqttState<S>| #[trigger]
            call_ensures(validate_userrequest::<S>, (request, state), packet) ==> {
                &&& final(state).session == state.session
                &&& match packet {
                    Ok(sent) => carries(sent, request) && final(state).opts == state.opts,
                    Err(raised) => raised is UserReconnect && request == Request::Reconnect(
                        final(state).opts,
                    ),
                }
            },
{
}

/// A request other than for a reconnection goes to the session as its packet, and what the session
/// wants sent for it goes on. A request for a reconnection and a failure of the stream end the
/// event loop and leave the session alone; only the former changes the options.
pub proof fn law_requests_reach_the_session<
    S,
    H: FnOnce(&mut MqttState<S>, Packet) -> Result<Request, NetworkError>,
>(request: Result<Request, NetworkError>, handle: H, outgoing: Result<Request, NetworkError>)
    requires
        request != Ok::<Request, NetworkError>(Request::Empty),
    ensures
        forall|state: &mut MqttState<S>| #[trigger]
            call_ensures(request_stream, (request, state, handle), outgoing) ==> match request {
                Err(_) => {
                    &&& outgoing matches Err(raised) && raised is Blah
                    &&& *final(state) == *state
                },
                Ok(Request::Reconnect(options)) => {
                    &&& outgoing matches Err(raised) && raised is UserReconnect
                    &&& final(state).opts == options
                    &&& final(state).session == state.session
                },
                Ok(asked) => exists|target: &mut MqttState<S>, packet: Packet|
                    {
                        &&& carries(packet, asked)
                        &&& *target == *state
                        &&& #[trigger] call_ensures(handle, (target, packet), outgoing)
                        &&& *final(state) == *final(target)
                    },
            },
{
}

/// What the session has to repeat comes before everything that waited already, in its order, and
/// nothing that waited is lost.
pub proof fn law_session_is_put_in_front<S, Q, H: FnOnce(&mut MqttState<S>) -> VecDeque<Request>>(
    handle: H,
)
    ensures
        forall|requests: &mut Prepend<Request, Q>, state: &mut MqttState<S>| #[trigger]
            call_ensures(start_session, (requests, state, handle), ()) ==> exists|
                target: &mut MqttState<S>,
                session: VecDeque<Request>,
            |
                {
                    let n = session@.len() as int;
                    let before = requests.front();
                    let after = final(requests).front();
                    &&& *target == *state
                    &&& #[trigger] call_ensures(handle, (target,), session)
                    &&& *final(state) == *final(target)
                    &&& after.len() == n + before.len()
                    &&& forall|i: int| 0 <= i < n ==> #[trigger] after[i] == session@[i]
                    &&& forall|i: int|
                        n <= i < after.len() ==> #[trigger] after[i] == before[i - n]
                    &&& final(requests).behind() == requests.behind()
                },
{
}

/// While fewer publishes are unacknowledged than may be in flight, the next request comes out: the
/// first of those in front, and only if there is none, whatever the stream behind answers. The
/// stream is not peeked at.
pub proof fn law_free_queue<
    T,
    Q,
    E,
    P: FnOnce(&mut Q) -> Result<T, bool>,
    N: FnOnce(&mut Q) -> Result<T, E>,
>(in_flight: usize, queued: usize, peek: P, next: N, polled: Option<Result<T, E>>)
    requires
        queued < in_flight,
    ensures
        forall|requests: &mut Prepend<T, Q>| #[trigger]
            call_ensures(
                limit_in_flight_request_stream,
                (in_flight, queued, requests, peek, next),
                polled,
            ) ==> {
                let before = requests.front();
                let after = final(requests).front();
                &&& polled is Some
                &&& before.len() > 0 ==> {
                    &&& polled == Some(Ok::<T, E>(before[0]))
                    &&& before == seq![before[0]] + after
                    &&& final(requests).behind() == requests.behind()
                }
                &&& before.len() == 0 ==> {
                    &&& after.len() == 0
                    &&& exists|target: &mut Q, answer: Result<T, E>|
                        {
                            &&& *target == requests.behind()
                            &&& #[trigger] call_ensures(next, (target,), answer)
                            &&& polled == Some(answer)
                            &&& final(requests).behind() == *final(target)
                        }
                }
            },
{
    assert forall|requests: &mut Prepend<T, Q>| #[trigger]
        call_ensures(
            limit_in_flight_request_stream,
            (in_flight, queued, requests, peek, next),
            polled,
        ) && requests.front().len() > 0 implies requests.front() == seq![requests.front()[0]]
        + final(requests).front() by {
        let before = requests.front();
        assert(final(requests).front() == before.drop_first());
        assert(before =~= seq![before[0]] + before.drop_first());
    }
}

/// Once as many publishes are unacknowledged as may be in flight, no request comes out. Nothing
/// happens at all as long as one is in front. Else the stream behind is peeked at: an item of its
/// goes in front, and only if it fails is it polled.
pub proof fn law_full_queue<
    T,
    Q,
    E,
    P: FnOnce(&mut Q) -> Result<T, bool>,
    N: FnOnce(&mut Q) -> Result<T, E>,
>(in_flight: usize, queued: usize, peek: P, next: N, polled: Option<Result<T, E>>)
    requires
        queued >= in_flight,
    ensures
        forall|requests: &mut Prepend<T, Q>| #[trigger]
            call_ensures(
                limit_in_flight_request_stream,
                (in_flight, queued, requests, peek, next),
                polled,
            ) ==> {
                let before = requests.front();
                let after = final(requests).front();
                &&& before.len() > 0 ==> {
                    &&& polled is None
                    &&& after == before
                    &&& final(requests).behind() == requests.behind()
                }
                &&& before.len() == 0 ==> exists|peeked: &mut Q, seen: Result<T, bool>|
                    {
                        &&& *peeked == requests.behind()
                        &&& #[trigger] call_ensures(peek, (peeked,), seen)
                        &&& match seen {
                            Ok(item) => {
                                &&& polled is None
                                &&& after == seq![item]
                                &&& final(requests).behind() == *final(peeked)
                            },
                            Err(false) => {
                                &&& polled is None
                                &&& after.len() == 0
                                &&& final(requests).behind() == *final(peeked)
                            },
                            Err(true) => {
                                &&& after.len() == 0
                                &&& exists|target: &mut Q, answer: Result<T, E>|
                                    {
                                        &&& *target == *final(peeked)
                                        &&& #[trigger] call_ensures(next, (target,), answer)
                                        &&& polled == Some(answer)
                                        &&& final(requests).behind() == *final(target)
                                    }
                            },
                        }
                    }
            },
{
}

/// An error of the reply stream itself, whatever it is and whatever the session answers, comes out
/// as it is. The session is told of a ping once, by an error and by silence, and only its answer to
/// silence goes on.
pub proof fn law_stream_errors_pass<S, H: FnOnce(&mut S, Packet) -> Result<Request, NetworkError>>(
    error: TimeoutError<NetworkError>,
    handle: H,
    reply: Result<Request, NetworkError>,
)
    ensures
        forall|state: &mut S| #[trigger]
            call_ensures(handle_stream_timeout_error, (error, state, handle), reply) ==> {
                &&& error matches TimeoutError::Inner(e) ==> reply == Err::<
                    Request,
                    NetworkError,
                >(e)
                &&& exists|target: &mut S, answer: Result<Request, NetworkError>|
                    {
                        &&& *target == *state
                        &&& #[trigger] call_ensures(handle, (target, Packet::Pingreq), answer)
                        &&& *final(state) == *final(target)
                        &&& error is Elapsed ==> reply == answer
                    }
            },
{
}

/// An error of the reply stream itself, whatever it is and whatever the session answers to the
/// ping, comes out as it is: it is neither dropped nor turned into a packet.
pub proof fn law_reply_errors_pass<S, H: FnOnce(&mut S, Packet) -> Result<Request, NetworkError>>(
    error: NetworkError,
    handle: H,
    packet: Result<Option<Packet>, NetworkError>,
)
    ensures
        forall|state: &mut S| #[trigger]
            call_ensures(
                network_reply_packet,
                (Err::<Request, _>(TimeoutError::Inner(error)), state, handle),
                packet,
            ) ==> {
                &&& packet == Err::<Option<Packet>, NetworkError>(error)
                &&& exists|target: &mut S, answer: Result<Request, NetworkError>|
                    {
                        &&& *target == *state
                        &&& #[trigger] call_ensures(handle, (target, Packet::Pingreq), answer)
                        &&& *final(state) == *final(target)
                    }
            },
{
}

/// Silence in the reply stream is answered with what the session wants sent for a ping.
pub proof fn law_silence_is_answered<S, H: FnOnce(&mut S, Packet) -> Result<Request, NetworkError>>(
    handle: H,
    packet: Result<Option<Packet>, NetworkError>,
)
    ensures
        forall|state: &mut S| #[trigger]
            call_ensures(
                network_reply_packet,
                (Err::<Request, _>(TimeoutError::Elapsed), state, handle),
                packet,
            ) ==> exists|target: &mut S, answer: Result<Request, NetworkError>|
                {
                    &&& *target == *state
                    &&& #[trigger] call_ensures(handle, (target, Packet::Pingreq), answer)
                    &&& *final(state) == *final(target)
                    &&& !(answer matches Ok(request) && request is Reconnect) ==> leaves_for(
                        packet,
                        answer,
                    )
                },
{
}

/// A reply goes out as its packet, an empty one not at all, and the session hears of neither.
pub proof fn law_replies_go_out<S, H: FnOnce(&mut S, Packet) -> Result<Request, NetworkError>>(
    reply: Request,
    handle: H,
    packet: Result<Option<Packet>, NetworkError>,
)
    requires
        !(reply is Reconnect),
    ensures
        forall|state: &mut S| #[trigger]
            call_ensures(
                network_reply_packet,
                (Ok::<_, TimeoutError<NetworkError>>(reply), state, handle),
                packet,
            ) ==> {
                &&& *final(state) == *state
                &&& leaves_for(packet, Ok(reply))
            },
{
}

/// What the session wants sent goes out as its packet, an empty request not at all, and an error
/// comes out as it is.
pub proof fn law_wanted_requests_go_out(
    wanted: Result<Request, NetworkError>,
    packet: Result<Option<Packet>, NetworkError>,
)
    requires
        !(wanted matches Ok(request) && request is Reconnect),
        call_ensures(network_request_packet, (wanted,), packet),
    ensures
        wanted matches Err(error) ==> packet == Err::<Option<Packet>, NetworkError>(error),
        wanted is Ok ==> packet is Ok,
        packet == Ok::<Option<Packet>, NetworkError>(None) <==> wanted == Ok::<
            Request,
            NetworkError,
        >(Request::Empty),
        packet matches Ok(Some(sent)) ==> (wanted matches Ok(request) && carries(sent, request)),
        leaves_for(packet, wanted),
{
}

/// A packet of the network goes to the session, once. Where the session handles it, the user is
/// told what it has to tell, and its reply goes on unless it is empty; else its error comes out.
pub proof fn law_incoming_packets<
    S,
    H: FnOnce(&mut S, Packet) -> Result<(Notification, Request), NetworkError>,
    N: FnOnce(Notification) -> Delivery,
>(packet: Packet, handle: H, notify: N, reply: Result<Option<Request>, NetworkError>)
    ensures
        forall|state: &mut S| #[trigger]
            call_ensures(
                network_reply_stream,
                (Some(Ok::<_, std::io::Error>(packet)), state, handle, notify),
                reply,
            ) ==> exists|target: &mut S, handled: Result<(Notification, Request), NetworkError>|
                {
                    &&& *target == *state
                    &&& #[trigger] call_ensures(handle, (target, packet), handled)
                    &&& *final(state) == *final(target)
                    &&& handled is Ok <==> reply is Ok
                    &&& reply matches Err(raised) ==> handled == Err::<
                        (Notification, Request),
                        NetworkError,
                    >(raised)
                    &&& handled matches Ok((notification, answer)) ==> {
                        &&& exists|delivery: Delivery|
                            call_ensures(notify, (notification,), delivery)
                        &&& reply == Ok::<Option<Request>, NetworkError>(None) <==> answer is Empty
                        &&& reply matches Ok(Some(forwarded)) ==> forwarded == answer
                    }
                },
{
}

/// An error of the network comes out as it is, and the end of the network stream as an error of its
/// own. The session hears of neither.
pub proof fn law_network_errors<
    S,
    H: FnOnce(&mut S, Packet) -> Result<(Notification, Request), NetworkError>,
    N: FnOnce(Notification) -> Delivery,
>(
    item: Option<Result<Packet, std::io::Error>>,
    handle: H,
    notify: N,
    reply: Result<Option<Request>, NetworkError>,
)
    requires
        !(item matches Some(Ok(_))),
    ensures
        forall|state: &mut S| #[trigger]
            call_ensures(network_reply_stream, (item, state, handle, notify), reply) ==> {
                &&& *final(state) == *state
                &&& reply matches Err(raised) && match item {
                    Some(Err(e)) => raised == NetworkError::Io(e),
                    _ => raised is NetworkStreamClosed,
                }
            },
{
}

/// The broker's first packet is accepted exactly if it is a connack that the session accepts, and
/// then the transport comes back. Else the error says which packet came instead, that none came,
/// or what the session has against the connack. The session is asked about a connack only.
pub proof fn law_connack_is_checked<F, S, H: FnOnce(&mut S, Connack) -> Result<(), ConnectError>>(
    packet: Option<Packet>,
    framed: F,
    handle: H,
    checked: Result<F, ConnectError>,
)
    ensures
        forall|state: &mut S| #[trigger]
            call_ensures(check_and_validate_connack, (packet, framed, state, handle), checked) ==> {
                &&& checked matches Ok(transport) ==> transport == framed
                &&& packet is None ==> (checked matches Err(error) && error is NoResponse)
                &&& packet matches Some(other) ==> !(other is Connack) ==> checked == Err::<
                    F,
                    ConnectError,
                >(ConnectError::NotConnackPacket(other))
                &&& !(packet matches Some(Packet::Connack(_))) ==> *final(state) == *state
                &&& packet matches Some(Packet::Connack(connack)) ==> exists|
                    target: &mut S,
                    verdict: Result<(), ConnectError>,
                |
                    {
                        &&& *target == *state
                        &&& #[trigger] call_ensures(handle, (target, connack), verdict)
                        &&& *final(state) == *final(target)
                        &&& checked is Ok <==> verdict is Ok
                        &&& checked matches Err(error) ==> verdict == Err::<(), ConnectError>(error)
                    }
            },
{
}

/// The handshake over an open connection sends the connect packet over it. Where the connection
/// did not open, the handshake ends with that error.
pub proof fn law_handshake_opens<F, S, H: FnOnce(&mut S, Connack) -> Result<(), ConnectError>>(
    opened: Result<F, ConnectError>,
    connect: Connect,
    handle: H,
    action: ConnectAction<F>,
)
    ensures
        forall|state: &mut S| #[trigger]
            call_ensures(
                mqtt_connect,
                (ConnectEvent::Opened(opened, connect), state, handle),
                action,
            ) ==> {
                &&& *final(state) == *state
                &&& match action {
                    ConnectAction::Send(framed, packet) => opened == Ok::<F, ConnectError>(framed)
                        && packet == Packet::Connect(connect),
                    ConnectAction::Finish(Err(error)) => opened == Err::<F, ConnectError>(error),
                    _ => false,
                }
            },
{
}

/// Once the connect packet is sent, the handshake waits for the broker on the same transport. Where
/// the sending failed, it ends with that error.
pub proof fn law_handshake_waits<F, S, H: FnOnce(&mut S, Connack) -> Result<(), ConnectError>>(
    sent: Result<F, std::io::Error>,
    handle: H,
    action: ConnectAction<F>,
)
    ensures
        forall|state: &mut S| #[trigger]
            call_ensures(mqtt_connect, (ConnectEvent::Sent(sent), state, handle), action) ==> {
                &&& *final(state) == *state
                &&& match action {
                    ConnectAction::Receive(framed) => sent == Ok::<F, std::io::Error>(framed),
                    ConnectAction::Finish(Err(ConnectError::Io(e))) => sent == Err::<
                        F,
                        std::io::Error,
                    >(e),
                    _ => false,
                }
            },
{
}

/// The handshake ends with what the broker sends first: well exactly if that is a connack that the
/// session accepts, and then with the transport that it came over. Else the error says what is
/// wrong. The session is asked about a connack only.
pub proof fn law_handshake_ends<F, S, H: FnOnce(&mut S, Connack) -> Result<(), ConnectError>>(
    received: Result<(Option<Packet>, F), std::io::Error>,
    handle: H,
    action: ConnectAction<F>,
)
    ensures
        forall|state: &mut S| #[trigger]
            call_ensures(
                mqtt_connect,
                (ConnectEvent::Received(received), state, handle),
                action,
            ) ==> (action matches ConnectAction::Finish(result) && match received {
                Err(e) => result == Err::<F, ConnectError>(ConnectError::Io(e)) && *final(state)
                    == *state,
                Ok((None, _)) => result == Err::<F, ConnectError>(ConnectError::NoResponse)
                    && *final(state) == *state,
                Ok((Some(packet), framed)) => if packet is Connack {
                    exists|target: &mut S, verdict: Result<(), ConnectError>|
                        {
                            &&& *target == *state
                            &&& #[trigger] call_ensures(
                                handle,
                                (target, packet->Connack_0),
                                verdict,
                            )
                            &&& *final(state) == *final(target)
                            &&& result is Ok <==> verdict is Ok
                            &&& result matches Ok(transport) ==> transport == framed
                            &&& result matches Err(error) ==> verdict == Err::<(), ConnectError>(
                                error,
                            )
                        }
                } else {
                    result == Err::<F, ConnectError>(ConnectError::NotConnackPacket(packet))
                        && *final(state) == *state
                },
            }),
{
}

/// The user is told, unless there is nothing to tell: then nothing is sent. What the channel does
/// not take comes back as it was, with the reason of the channel.
pub proof fn law_notifications(
    notification: Notification,
    notification_tx: &Sender<Notification>,
    outgoing: Outgoing,
    empty: bool,
    delivery: Delivery,
)
    requires
        call_ensures(Outgoing::new, (notification, notification_tx), outgoing),
        call_ensures(Outgoing::is_empty, (&outgoing,), empty),
        call_ensures(handle_notification, (outgoing,), delivery),
    ensures
        outgoing.channel() == *notification_tx,
        empty <==> notification is Empty,
        delivery is Skipped <==> notification is Empty,
        !(notification is Empty) ==> exists|sent: Result<(), Undelivered>|
            {
                &&& #[trigger] call_ensures(try_send, (outgoing,), sent)
                &&& delivery is Sent <==> sent is Ok
                &&& delivery matches Delivery::Failed(undelivered) ==> sent == Err::<
                    (),
                    Undelivered,
                >(undelivered)
            },
        delivery matches Delivery::Failed(undelivered) ==> undelivered == Undelivered::Full(
            notification,
        ) || undelivered == Undelivered::Disconnected(notification),
{
}

/// A notification is delivered exactly if the channel took it, and what the channel did not take
/// is told as the channel told it.
pub proof fn law_deliveries(sent: Result<(), Undelivered>, delivery: Delivery)
    requires
        call_ensures(delivered, (sent,), delivery),
    ensures
        !(delivery is Skipped),
        delivery is Sent <==> sent is Ok,
        delivery matches Delivery::Failed(undelivered) ==> sent == Err::<(), Undelivered>(
            undelivered,
        ),
{
}

} // verus!
