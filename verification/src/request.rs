//! Requests and commands of the user, and the packets that they become.

use crate::error::NetworkError;
use crate::options::MqttOptions;
use crate::packet::{Packet, PacketIdentifier, Publish, Subscribe, Unsubscribe};
use vstd::pervasive::unreached;
use vstd::prelude::*;

verus! {

/// Something to send, asked for by the user or by the session.
#[derive(Debug, Clone, PartialEq, Eq)]
pub enum Request {
    Publish(Publish),
    Subscribe(Subscribe),
    Unsubscribe(Unsubscribe),
    PubAck(PacketIdentifier),
    PubRec(PacketIdentifier),
    PubRel(PacketIdentifier),
    PubComp(PacketIdentifier),
    Ping,
    /// Connect again, with these options for the session.
    Reconnect(MqttOptions),
    Disconnect,
    /// Nothing to send.
    Empty,
}

/// A command of the user to the network.
#[derive(Debug, Clone, Copy, PartialEq, Eq, Structural)]
pub enum Command {
    Pause,
    Resume,
}

/// The packet that a request becomes. `Empty` and `Reconnect` have none.
pub open spec fn packet_of(request: Request) -> Option<Packet> {
    match request {
        Request::Publish(publish) => Some(Packet::Publish(publish)),
        Request::PubAck(pkid) => Some(Packet::Puback(pkid)),
        Request::PubRec(pkid) => Some(Packet::Pubrec(pkid)),
        Request::PubRel(pkid) => Some(Packet::Pubrel(pkid)),
        Request::PubComp(pkid) => Some(Packet::Pubcomp(pkid)),
        Request::Ping => Some(Packet::Pingreq),
        Request::Disconnect => Some(Packet::Disconnect),
        Request::Subscribe(subscribe) => Some(Packet::Subscribe(subscribe)),
        Request::Unsubscribe(unsubscribe) => Some(Packet::Unsubscribe(unsubscribe)),
        Request::Reconnect(_) => None,
        Request::Empty => None,
    }
}

impl Packet {
    /// The packet that a request becomes.
    pub fn from(item: Request) -> (packet: Packet)
        requires
            packet_of(item) is Some,
        ensures
            packet_of(item) == Some(packet),
    {
        match item {
            Request::Publish(publish) => Packet::Publish(publish),
            Request::PubAck(pkid) => Packet::Puback(pkid),
            Request::PubRec(pkid) => Packet::Pubrec(pkid),
            Request::PubRel(pkid) => Packet::Pubrel(pkid),
            Request::PubComp(pkid) => Packet::Pubcomp(pkid),
            Request::Ping => Packet::Pingreq,
            Request::Disconnect => Packet::Disconnect,
            Request::Subscribe(subscribe) => Packet::Subscribe(subscribe),
            Request::Unsubscribe(unsubscribe) => Packet::Unsubscribe(unsubscribe),
            _ => unreached(),
        }
    }
}

/// Whether there is anything to send: true of every request but `Empty`.
pub fn should_forward_packet(reply: &Request) -> (forward: bool)
    ensures
        forward == !(reply is Empty),
{
    match reply {
        Request::Empty => false,
        _ => true,
    }
}

/// The error that a command, or the failure of the command channel, raises in the event loop.
pub open spec fn command_error(command: Result<Command, ()>) -> NetworkError {
    match command {
        Ok(Command::Pause) => NetworkError::UserDisconnect,
        Ok(Command::Resume) => NetworkError::UserReconnect,
        Err(_) => NetworkError::Blah,
    }
}

/// Turns what comes out of the command channel into the error that ends the event loop. No
/// command becomes a packet.
pub fn command_stream(command: Result<Command, ()>) -> (packet: Result<Packet, NetworkError>)
    ensures
        packet == Err::<Packet, NetworkError>(command_error(command)),
{
    match command {
        Err(_) => Err(NetworkError::Blah),
        Ok(usercommand) => match usercommand {
            Command::Pause => Err(NetworkError::UserDisconnect),
            Command::Resume => Err(NetworkError::UserReconnect),
        },
    }
}

} // verus!
