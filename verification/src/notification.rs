//! Notifications to the user.

use crate::channel::{try_send, Outgoing, Undelivered};
use crate::packet::{PacketIdentifier, Publish, Suback};
use vstd::prelude::*;

verus! {

/// Something that the user is told.
#[derive(Debug, Clone, PartialEq, Eq)]
pub enum Notification {
    Publish(Publish),
    PubAck(PacketIdentifier),
    PubRec(PacketIdentifier),
    PubRel(PacketIdentifier),
    PubComp(PacketIdentifier),
    SubAck(Suback),
    /// Nothing to tell.
    Empty,
}

/// What became of a notification.
#[derive(Debug, Clone, PartialEq, Eq)]
pub enum Delivery {
    /// There was nothing to tell, and the channel was left alone.
    Skipped,
    /// The channel took the notification.
    Sent,
    /// The channel did not take the notification.
    Failed(Undelivered),
}

/// What became of a notification that the channel answered with `sent`.
pub open spec fn delivery_of(sent: Result<(), Undelivered>) -> Delivery {
    match sent {
        Ok(_) => Delivery::Sent,
        Err(undelivered) => Delivery::Failed(undelivered),
    }
}

/// Says what became of a notification that the channel answered with `sent`.
pub fn delivered(sent: Result<(), Undelivered>) -> (delivery: Delivery)
    ensures
        delivery == delivery_of(sent),
{
    match sent {
        Ok(()) => Delivery::Sent,
        Err(undelivered) => Delivery::Failed(undelivered),
    }
}

/// Sends a notification to the user, unless there is nothing to tell. A notification that the
/// channel does not take is dropped: it comes back in the result and is not tried again.
pub fn handle_notification(outgoing: Outgoing) -> (delivery: Delivery)
    ensures
        delivery is Skipped <==> outgoing.notification() is Empty,
        delivery matches Delivery::Failed(undelivered) ==> undelivered.message()
            == outgoing.notification(),
        !(outgoing.notification() is Empty) ==> exists|sent: Result<(), Undelivered>|
            {
                &&& #[trigger] call_ensures(try_send, (outgoing,), sent)
                &&& delivery == delivery_of(sent)
            },
{
    if outgoing.is_empty() {
        Delivery::Skipped
    } else {
        let send = try_send;
        delivered(send(outgoing))
    }
}

} // verus!
