//! Errors of a connection.

use crate::packet::{ConnectReturnCode, Packet};
use vstd::prelude::*;

verus! {

/// `std::io::Error`, carried through and never looked into.
#[verifier::external_type_specification]
#[verifier::external_body]
pub struct ExIoError(std::io::Error);

/// `crossbeam_channel::RecvError`, carried through and never looked into.
#[verifier::external_type_specification]
#[verifier::external_body]
pub struct ExRecvError(crossbeam_channel::RecvError);

/// Why a connection could not be made.
#[derive(Debug)]
pub enum ConnectError {
    Io(std::io::Error),
    /// The broker answered the connect packet with a refusal.
    MqttConnectionRefused(ConnectReturnCode),
    /// The broker answered the connect packet with something else than a connack.
    NotConnackPacket(Packet),
    /// The broker closed the connection without an answer.
    NoResponse,
    /// No connection within the time limit.
    Timeout,
    /// The network thread ended without reporting a result.
    Recv(crossbeam_channel::RecvError),
}

/// Why a connection ended.
#[derive(Debug)]
pub enum NetworkError {
    Io(std::io::Error),
    /// The user paused the network.
    UserDisconnect,
    /// The user resumed the network, or asked for a reconnection.
    UserReconnect,
    /// The broker closed the connection.
    NetworkStreamClosed,
    /// The rate limiter stopped.
    ThrottleError,
    /// A packet that does not fit the state of the session.
    InvalidState,
    /// An acknowledgement that nothing waits for.
    Unsolicited,
    Blah,
}

/// Why work with a time limit did not deliver.
#[derive(Debug)]
pub enum TimeoutError<E> {
    /// The work itself failed.
    Inner(E),
    /// The time limit passed.
    Elapsed,
    /// The timer failed.
    Timer,
}

} // verus!
