//! What holds of a connection over all its events, and of the paths that packets take.

use crate::connection::{self, ConnectionView, LoopEvent, LoopStep, Transition};
use crate::error::{ConnectError, NetworkError, TimeoutError};
use crate::notification::Notification;
use crate::options::ReconnectOptions;
use crate::packet::{Connect, Packet};
use crate::request::{self, Command, Request};
use crate::session::{self, ConnectAction, ConnectEvent};
use crate::stream::{self, LimitedPoll};
use vstd::prelude::*;

verus! {

/// The connection after some events, from the first to the last.
pub open spec fn after_all<F>(
    connection: ConnectionView,
    events: Seq<LoopEvent<F>>,
) -> ConnectionView
    decreases events.len(),
{
    if events.len() == 0 {
        connection
    } else {
        after_all(connection, events.drop_last()).after(events.last())
    }
}

/// The turn of the event loop at the event with the given index.
pub open spec fn turn<F>(
    connection: ConnectionView,
    events: Seq<LoopEvent<F>>,
    disconnecting: Seq<bool>,
    i: int,
) -> Transition<F> {
    after_all(connection, events.take(i)).transition(events[i], disconnecting[i])
}

/// How many of the events are attempts to connect.
pub open spec fn attempts<F>(events: Seq<LoopEvent<F>>) -> nat
    decreases events.len(),
{
    if events.len() == 0 {
        0
    } else {
        attempts(events.drop_last()) + if events.last() is Connect {
            1nat
        } else {
            0nat
        }
    }
}

/// Whether packets flow after some events, by the last command of the user among them.
pub open spec fn last_command<F>(enabled: bool, events: Seq<LoopEvent<F>>) -> bool
    decreases events.len(),
{
    if events.len() == 0 {
        enabled
    } else {
        match events.last() {
            LoopEvent::Io(Err(NetworkError::UserDisconnect)) => false,
            LoopEvent::Io(Err(NetworkError::UserReconnect)) => true,
            _ => last_command(enabled, events.drop_last()),
        }
    }
}

/// No event changes the options or where notifications go. The count is that of the attempts to
/// connect, packets flow as the last command of the user said, and a result is owed as long as
/// there was no attempt.
pub proof fn law_all_events<F>(connection: ConnectionView, events: Seq<LoopEvent<F>>)
    requires
        connection.wf(),
    ensures
        after_all(connection, events).wf(),
        after_all(connection, events).options == connection.options,
        after_all(connection, events).notification_tx == connection.notification_tx,
        after_all(connection, events).connection_count == connection.connection_count + attempts(
            events,
        ),
        after_all(connection, events).network_enabled == last_command(
            connection.network_enabled,
            events,
        ),
        after_all(connection, events).connection_tx == if attempts(events) == 0 {
            connection.connection_tx
        } else {
            None
        },
    decreases events.len(),
{
    if events.len() > 0 {
        law_all_events(connection, events.drop_last());
    }
}

proof fn lemma_attempts_monotone<F>(events: Seq<LoopEvent<F>>, i: int, j: int)
    requires
        0 <= i <= j <= events.len(),
    ensures
        attempts(events.take(i)) <= attempts(events.take(j)),
        i < j && events[i] is Connect ==> attempts(events.take(i)) < attempts(events.take(j)),
    decreases j,
{
    if i < j {
        assert(events.take(j).drop_last() =~= events.take(j - 1));
        assert(events.take(j).last() == events[j - 1]);
        lemma_attempts_monotone(events, i, j - 1);
    }
}

proof fn lemma_no_attempts<F>(events: Seq<LoopEvent<F>>, i: int)
    requires
        0 <= i <= events.len(),
        forall|j: int| 0 <= j < i ==> !(#[trigger] events[j] is Connect),
    ensures
        attempts(events.take(i)) == 0,
    decreases i,
{
    if i > 0 {
        assert(events.take(i).drop_last() =~= events.take(i - 1));
        assert(events.take(i).last() == events[i - 1]);
        lemma_no_attempts(events, i - 1);
    }
}

/// The user learns the result of the first attempt to connect, and of no other: a turn reports
/// exactly if it is about an attempt and no earlier event was one. The report goes where the user
/// waits for it and says what came of that attempt.
pub proof fn law_first_attempt_is_reported_once<F>(
    connection: ConnectionView,
    events: Seq<LoopEvent<F>>,
    disconnecting: Seq<bool>,
    i: int,
)
    requires
        connection.wf(),
        connection.connection_count == 0,
        0 <= i < events.len(),
    ensures
        turn(connection, events, disconnecting, i).report is Some <==> {
            &&& events[i] is Connect
            &&& forall|j: int| 0 <= j < i ==> !(#[trigger] events[j] is Connect)
        },
        turn(connection, events, disconnecting, i).report matches Some(report) ==> {
            &&& Some(report.to) == connection.connection_tx
            &&& match events[i] {
                LoopEvent::Connect(Err(TimeoutError::Inner(error))) => report.status == Err::<
                    (),
                    ConnectError,
                >(error),
                LoopEvent::Connect(Err(_)) => report.status == Err::<(), ConnectError>(
                    ConnectError::Timeout,
                ),
                _ => report.status is Ok,
            }
        },
{
    let before = events.take(i);
    law_all_events(connection, before);
    if forall|j: int| 0 <= j < i ==> !(#[trigger] events[j] is Connect) {
        lemma_no_attempts(events, i);
    } else {
        let j = choose|j: int| 0 <= j < i && #[trigger] events[j] is Connect;
        lemma_attempts_monotone(events, j, i);
    }
}

/// The user gets a handle exactly if the first attempt succeeds, or if the connection is always
/// made again. Without a handle the user gets the error of that attempt, or a timeout where it has
/// none.
pub proof fn law_initial_connection<F, H>(
    connection: ConnectionView,
    outcome: Result<F, TimeoutError<ConnectError>>,
    is_disconnecting: bool,
    user_handle: H,
)
    requires
        connection.wf(),
        connection.connection_count == 0,
    ensures
        connection.transition(LoopEvent::Connect(outcome), is_disconnecting).report matches Some(
            report,
        ) && connection::handle_of(
            connection.options.reconnect,
            Ok(report.status),
            user_handle,
        ) == if outcome is Ok || connection.options.reconnect is Always {
            Ok::<H, ConnectError>(user_handle)
        } else {
            match outcome {
                Err(TimeoutError::Inner(error)) => Err::<H, ConnectError>(error),
                _ => Err::<H, ConnectError>(ConnectError::Timeout),
            }
        },
{
}

/// The streams run on a connection exactly when an attempt to make it just succeeded, and at once.
pub proof fn law_streams_follow_success<F>(
    connection: ConnectionView,
    event: LoopEvent<F>,
    is_disconnecting: bool,
    framed: F,
)
    ensures
        connection.transition(event, is_disconnecting).next == LoopStep::Stream(framed) <==> event
            == LoopEvent::Connect(Ok::<F, TimeoutError<ConnectError>>(framed)),
        event is Connect && event->Connect_0 is Ok ==> connection.transition(
            event,
            is_disconnecting,
        ).delay is None,
{
}

/// A command of the user to pause or to resume, and a request for a reconnection, make the
/// connection anew at once, whatever the policy is and even while a disconnection is under way.
pub proof fn law_commands_reconnect_at_once<F>(
    connection: ConnectionView,
    command: NetworkError,
    is_disconnecting: bool,
)
    requires
        command is UserDisconnect || command is UserReconnect,
    ensures
        connection.transition(LoopEvent::<F>::Io(Err(command)), is_disconnecting) == (Transition::<
            F,
        > { report: None, delay: None, next: LoopStep::Connect }),
{
}

/// Where the first attempt leaves the user without a handle, the event loop stops at once: no
/// connection comes up that nobody holds a handle to.
pub proof fn law_no_handle_no_connection<F, H>(
    connection: ConnectionView,
    outcome: Result<F, TimeoutError<ConnectError>>,
    is_disconnecting: bool,
    user_handle: H,
)
    requires
        connection.wf(),
        connection.connection_count == 0,
    ensures
        ({
            let turn = connection.transition(LoopEvent::Connect(outcome), is_disconnecting);
            connection::handle_of(
                connection.options.reconnect,
                Ok(turn.report->0.status),
                user_handle,
            ) is Err ==> turn.next == LoopStep::<F>::Stop && turn.delay is None
        }),
{
}

/// Without a command of the user, a connection that failed or ended is made again exactly if the
/// policy is not `Never` and no disconnection is under way; else the event loop stops. The delay
/// of the policy passes in either case. The first attempt is left out where it has to succeed.
pub proof fn law_reconnection_policy<F>(
    connection: ConnectionView,
    event: LoopEvent<F>,
    is_disconnecting: bool,
)
    requires
        event matches LoopEvent::Connect(outcome) ==> outcome is Err && !(
        connection.connection_count == 0 && connection.options.reconnect is AfterFirstSuccess),
        event matches LoopEvent::Io(Err(error)) ==> !(error is UserDisconnect) && !(error
            is UserReconnect),
    ensures
        connection.transition(event, is_disconnecting).next == if connection.options.reconnect
            is Never || is_disconnecting {
            LoopStep::<F>::Stop
        } else {
            LoopStep::<F>::Connect
        },
        match connection.options.reconnect {
            ReconnectOptions::Never => connection.transition(event, is_disconnecting).delay is None,
            ReconnectOptions::AfterFirstSuccess(time) => connection.transition(
                event,
                is_disconnecting,
            ).delay == Some(time),
            ReconnectOptions::Always(time) => connection.transition(event, is_disconnecting).delay
                == Some(time),
        },
{
}

/// The event loop tells the policies `AfterFirstSuccess` and `Always` apart in nothing but a
/// first attempt that fails.
pub proof fn law_policies_agree_in_the_loop<F>(
    connection: ConnectionView,
    other: ConnectionView,
    time: u64,
    event: LoopEvent<F>,
    is_disconnecting: bool,
)
    requires
        connection.options.reconnect == ReconnectOptions::AfterFirstSuccess(time),
        other.options.reconnect == ReconnectOptions::Always(time),
        connection.connection_tx == other.connection_tx,
        event matches LoopEvent::Connect(outcome) ==> outcome is Ok || connection.connection_count
            > 0,
    ensures
        connection.transition(event, is_disconnecting) == other.transition(event, is_disconnecting),
{
}

/// Pausing stops the packets, and resuming lets them flow again, whatever attempts to connect and
/// other ends of the streams lie between.
pub proof fn law_pause_and_resume<F>(
    connection: ConnectionView,
    events: Seq<LoopEvent<F>>,
    command: Command,
    later: Seq<LoopEvent<F>>,
)
    requires
        connection.wf(),
        forall|i: int|
            0 <= i < later.len() ==> (#[trigger] later[i] matches LoopEvent::Io(Err(error))
                ==> !(error is UserDisconnect) && !(error is UserReconnect)),
    ensures
        after_all(
            connection,
            events.push(LoopEvent::Io(Err(request::command_error(Ok(command))))) + later,
        ).network_enabled == (command is Resume),
    decreases later.len(),
{
    let event = LoopEvent::<F>::Io(Err(request::command_error(Ok(command))));
    let all = events.push(event) + later;
    if later.len() == 0 {
        assert(all =~= events.push(event));
        assert(all.drop_last() =~= events);
    } else {
        assert(all.drop_last() =~= events.push(event) + later.drop_last());
        assert(all.last() == later.last());
        assert(later.last() == later[later.len() - 1]);
        assert forall|i: int| 0 <= i < later.drop_last().len() implies (
        #[trigger] later.drop_last()[i] matches LoopEvent::Io(Err(error)) ==> !(error
            is UserDisconnect) && !(error is UserReconnect)) by {
            assert(later.drop_last()[i] == later[i]);
        }
        law_pause_and_resume(connection, events, command, later.drop_last());
    }
}

/// A request for a reconnection lets the packets flow again, and is obeyed like a command.
pub proof fn law_reconnection_request(connection: ConnectionView)
    ensures
        connection.ended(Err(NetworkError::UserReconnect)).network_enabled,
        connection::is_user_command(Err(NetworkError::UserReconnect)),
{
}

/// Behind the rate limiter a command is an error like any other: it neither stops nor starts the
/// packets, and the policy decides whether the connection is made again.
pub proof fn law_rate_limiter_hides_commands(connection: ConnectionView)
    ensures
        connection.ended(Err(NetworkError::ThrottleError)) == connection,
        !connection::is_user_command(Err(NetworkError::ThrottleError)),
{
}

/// The interval between two packets is the longest, in whole nanoseconds, at which as many of them
/// as the rate says fit into a second.
pub proof fn law_rate_interval(rate: u64)
    requires
        rate != 0,
    ensures
        rate * (1_000_000_000u64 / rate) <= 1_000_000_000,
        rate * (1_000_000_000u64 / rate + 1) > 1_000_000_000,
{
    let n: int = 1_000_000_000;
    let r = rate as int;
    vstd::arithmetic::div_mod::lemma_fundamental_div_mod(n, r);
    vstd::arithmetic::div_mod::lemma_mod_bound(n, r);
    vstd::arithmetic::mul::lemma_mul_is_distributive_add(r, n / r, 1);
}

/// A request has a packet exactly if it goes out at all: there is something to send, and it is not
/// for a reconnection.
pub proof fn law_requests_with_packets(request: Request)
    ensures
        request::packet_of(request) is Some <==> !(request is Empty) && !(request
            is Reconnect),
{
}

/// Two different requests never become the same packet.
pub proof fn law_packets_tell_requests_apart(first: Request, second: Request)
    requires
        request::packet_of(first) is Some,
        request::packet_of(first) == request::packet_of(second),
    ensures
        first == second,
{
}

/// No empty reply leaves the network stream, and nothing else is held back.
pub proof fn law_replies_are_forwarded(notification: Notification, reply: Request)
    ensures
        session::forwarded(Ok((notification, reply))) == if reply is Empty {
            Ok::<Option<Request>, NetworkError>(None)
        } else {
            Ok::<Option<Request>, NetworkError>(Some(reply))
        },
        reply is Empty ==> session::sent_for(Ok(reply)) == Ok::<
            Option<Packet>,
            NetworkError,
        >(None),
{
}

/// A broker that closes the connection ends the streams, without a change of what flows, and the
/// policy decides what follows.
pub proof fn law_closed_stream_is_no_command(connection: ConnectionView)
    ensures
        connection.ended(Err(NetworkError::NetworkStreamClosed)) == connection,
        !connection::is_user_command(Err(NetworkError::NetworkStreamClosed)),
{
}

/// The handshake succeeds exactly if the first packet of the broker is a connack that the session
/// accepts, and it then hands on the transport that the packet came over.
pub proof fn law_handshake_needs_accepted_connack<F>(
    event: ConnectEvent<F>,
    verdict: Result<(), ConnectError>,
    framed: F,
)
    ensures
        session::connect_action(event, verdict) == ConnectAction::Finish(
            Ok::<F, ConnectError>(framed),
        ) <==> {
            &&& verdict is Ok
            &&& event matches ConnectEvent::Received(Ok((Some(Packet::Connack(_)), transport)))
            &&& transport == framed
        },
{
}

/// The handshake sends one packet, the connect packet, as soon as the network connection is open.
pub proof fn law_handshake_sends_connect<F>(
    event: ConnectEvent<F>,
    verdict: Result<(), ConnectError>,
    framed: F,
    packet: Packet,
)
    ensures
        session::connect_action(event, verdict) == ConnectAction::Send(framed, packet)
            <==> (exists|connect: Connect|
            packet == Packet::Connect(connect) && event == ConnectEvent::Opened(
                Ok::<F, ConnectError>(framed),
                connect,
            )),
{
    if let ConnectEvent::Opened(Ok(transport), connect) = event {
        assert(packet == Packet::Connect(connect) ==> event == ConnectEvent::Opened(
            Ok::<F, ConnectError>(transport),
            connect,
        ));
    }
}

/// What is in front of a stream after so many polls.
pub open spec fn front_after<T>(front: Seq<T>, polls: nat) -> Seq<T>
    decreases polls,
{
    if polls == 0 {
        front
    } else {
        stream::polled_front(front_after(front, (polls - 1) as nat))
    }
}

/// Where the items of a prepended stream are.
pub struct Flow<T> {
    /// Items that the stream behind gave away.
    pub taken: Seq<T>,
    /// Items that came out.
    pub yielded: Seq<T>,
    /// Items in front.
    pub front: Seq<T>,
}

/// The items in an answer, if it was asked for.
pub open spec fn items_of<T, E>(asked: bool, answer: Result<T, E>) -> Seq<T> {
    if asked && answer is Ok {
        seq![answer->Ok_0]
    } else {
        Seq::empty()
    }
}

impl<T> Flow<T> {
    /// The items after a poll under the in-flight limit, as `limit_in_flight_request_stream` makes
    /// it.
    pub open spec fn limited_poll<E>(self, step: LimitedPoll<T, E>) -> Flow<T> {
        Flow {
            taken: self.taken + items_of(step.asks_peek(self.front), step.peeked) + items_of(
                step.asks_poll(self.front),
                step.polled,
            ),
            yielded: match step.answer(self.front) {
                Some(answer) => self.yielded + items_of(true, answer),
                None => self.yielded,
            },
            front: step.front_after(self.front),
        }
    }
}

/// The items after some polls, from the first to the last.
pub open spec fn flow_after<T, E>(flow: Flow<T>, steps: Seq<LimitedPoll<T, E>>) -> Flow<T>
    decreases steps.len(),
{
    if steps.len() == 0 {
        flow
    } else {
        flow_after(flow, steps.drop_last()).limited_poll(steps.last())
    }
}

/// A poll under the in-flight limit loses, repeats and reorders no item: what was in front at
/// first, followed by what the stream behind gave away since, is what came out, followed by what is
/// in front. It adds at most one item, and that only where nothing is in front.
pub proof fn law_limited_poll_keeps_the_items<T, E>(
    start: Seq<T>,
    flow: Flow<T>,
    step: LimitedPoll<T, E>,
)
    requires
        start + flow.taken == flow.yielded + flow.front,
    ensures
        start + flow.limited_poll(step).taken == flow.limited_poll(step).yielded
            + flow.limited_poll(step).front,
        flow.front.len() > 0 ==> flow.limited_poll(step).front.len() <= flow.front.len(),
        flow.front.len() == 0 ==> flow.limited_poll(step).front.len() <= 1,
{
    let next = flow.limited_poll(step);
    let peeked = items_of(step.asks_peek(flow.front), step.peeked);
    let polled = items_of(step.asks_poll(flow.front), step.polled);
    assert(start + next.taken =~= (start + flow.taken) + (peeked + polled));
    if flow.front.len() > 0 {
        assert(peeked + polled =~= Seq::<T>::empty());
        assert(seq![flow.front[0]] + flow.front.drop_first() =~= flow.front);
        assert(next.yielded + next.front =~= flow.yielded + flow.front);
    } else {
        assert(flow.yielded + flow.front =~= flow.yielded);
        assert(next.yielded + next.front =~= flow.yielded + (peeked + polled));
    }
}

/// Over any polls of the request stream under the in-flight limit, however the queue fills and
/// empties in between, what came out is a prefix of what was in front at first followed by the
/// requests taken from the stream, in the same order, and what has not come out yet is in front.
/// If nothing was in front at first, that is one request at most.
pub proof fn law_limited_stream_keeps_the_order<T, E>(
    front: Seq<T>,
    steps: Seq<LimitedPoll<T, E>>,
)
    ensures
        ({
            let start = Flow { taken: Seq::<T>::empty(), yielded: Seq::<T>::empty(), front };
            let flow = flow_after(start, steps);
            &&& front + flow.taken == flow.yielded + flow.front
            &&& flow.yielded.is_prefix_of(front + flow.taken)
            &&& flow.front.len() <= 1 || flow.front.len() <= front.len()
        }),
    decreases steps.len(),
{
    let none = Seq::<T>::empty();
    let start = Flow { taken: none, yielded: none, front };
    let flow = flow_after(start, steps);
    if steps.len() == 0 {
        assert(front + none =~= none + front);
    } else {
        law_limited_stream_keeps_the_order(front, steps.drop_last());
        let before = flow_after(start, steps.drop_last());
        law_limited_poll_keeps_the_items(front, before, steps.last());
    }
    assert(flow.yielded.is_prefix_of(flow.yielded + flow.front));
}

/// Items put in front of a stream come out first and in their order, each once, before what was in
/// front already: poll number `i` finds item number `i` in front, and after as many polls as
/// there were items only what was in front before is left.
pub proof fn law_session_goes_first<T>(items: Seq<T>, front: Seq<T>, i: nat)
    ensures
        i < items.len() ==> {
            &&& front_after(items + front, i).len() > 0
            &&& front_after(items + front, i)[0] == items[i as int]
        },
        front_after(items + front, items.len()) == front,
{
    lemma_front_after(items + front, items.len());
    assert((items + front).skip(items.len() as int) =~= front);
    if i < items.len() {
        lemma_front_after(items + front, i);
    }
}

/// A disconnection in the middle of the last session loses nothing of it: what had not come out by
/// then comes out in its order, after what the reconnection put in front.
pub proof fn law_disconnection_keeps_the_rest<T>(
    items: Seq<T>,
    front: Seq<T>,
    sent: nat,
    again: Seq<T>,
)
    requires
        sent <= items.len(),
    ensures
        front_after(again + front_after(items + front, sent), again.len()) == items.skip(
            sent as int,
        ) + front,
{
    lemma_front_after(items + front, sent);
    let left = (items + front).skip(sent as int);
    assert(left =~= items.skip(sent as int) + front);
    law_session_goes_first(again, left, 0);
}

proof fn lemma_front_after<T>(front: Seq<T>, polls: nat)
    requires
        polls <= front.len(),
    ensures
        front_after(front, polls) == front.skip(polls as int),
    decreases polls,
{
    if polls == 0 {
        assert(front.skip(0) =~= front);
    } else {
        lemma_front_after(front, (polls - 1) as nat);
        assert(front.skip(polls - 1).drop_first() =~= front.skip(polls as int));
    }
}

} // verus!
